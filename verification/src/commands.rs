//! The subcommands of the command-line surface, as plain data, and the
//! dispatch decision the program takes on them. Flag parsing itself is the
//! hosting application's business.

use vstd::prelude::*;

verus! {

/// A parsed subcommand.
pub enum Commands {
    /// The abbreviated configuration path: accept catalog defaults,
    /// optionally forcing a Maven project and skipping the extra text
    /// prompts.
    Quick { maven: bool, extended: bool },
    /// The listing path: print one catalog axis, or the dependency
    /// catalog. Exactly one flag is meant to be set.
    List { java: bool, boot: bool, project_type: bool, language: bool, deps: bool },
}

impl Commands {
    /// The listing a `List` command selects, flags examined in the fixed
    /// dispatch order; `Quick`, or a `List` with no flag set, selects none.
    pub fn selected_list(&self) -> (r: Option<String>)
        ensures
            match *self {
                Commands::Quick { .. } => r is None,
                Commands::List { java, boot, project_type, language, deps } => {
                    if java {
                        r matches Some(s) && s@ == "java"@
                    } else if boot {
                        r matches Some(s) && s@ == "boot"@
                    } else if project_type {
                        r matches Some(s) && s@ == "project_type"@
                    } else if language {
                        r matches Some(s) && s@ == "language"@
                    } else if deps {
                        r matches Some(s) && s@ == "deps"@
                    } else {
                        r is None
                    }
                },
            },
    {
        match self {
            Commands::Quick { .. } => None,
            Commands::List { java, boot, project_type, language, deps } => {
                if *java {
                    Some("java".to_owned())
                } else if *boot {
                    Some("boot".to_owned())
                } else if *project_type {
                    Some("project_type".to_owned())
                } else if *language {
                    Some("language".to_owned())
                } else if *deps {
                    Some("deps".to_owned())
                } else {
                    None
                }
            },
        }
    }
}

} // verus!
