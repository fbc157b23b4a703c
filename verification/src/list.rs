//! The listing path: selecting one catalog axis (or the dependency
//! catalog) out of a fetched snapshot, and rendering it as printable text.

use vstd::prelude::*;
use vstd::string::StrSliceExecFns;
use vstd::string::StringExecFns;
use crate::spring::DependencyCategories;
use crate::spring::DependencyCategoriesView;
use crate::spring::InitializrMetadata;
use crate::spring::Value;
use crate::spring::ValueView;
use crate::text::str_eq;

verus! {

/// A catalog listing: either one axis's options or the categorized
/// dependency section.
pub enum Lists {
    Values(Vec<Value>),
    Categories(Vec<DependencyCategories>),
}

/// Why a listing request was turned down.
#[derive(Clone, Copy, Debug, PartialEq, Eq, Structural)]
pub enum ListError {
    /// The requested item names no catalog axis.
    UnknownItem,
    /// A values rendering was asked of a categories listing.
    NotValues,
    /// A categories rendering was asked of a values listing.
    NotCategories,
}

/// The listing that `item` selects out of the snapshot: one axis's option
/// list, or the dependency categories for `deps`.
pub fn get_versions(metadata: InitializrMetadata, item: &str) -> (r: Result<Lists, ListError>)
    ensures
        item@ == "java"@ ==> (r matches Ok(Lists::Values(v)) && v.deep_view()
            == metadata@.java_version.values),
        item@ == "boot"@ ==> (r matches Ok(Lists::Values(v)) && v.deep_view()
            == metadata@.boot_version.values),
        item@ == "project_type"@ ==> (r matches Ok(Lists::Values(v)) && v.deep_view()
            == metadata@.project_type.values),
        item@ == "language"@ ==> (r matches Ok(Lists::Values(v)) && v.deep_view()
            == metadata@.language.values),
        item@ == "deps"@ ==> (r matches Ok(Lists::Categories(c)) && c.deep_view()
            == metadata@.dependencies.values),
        item@ != "java"@ && item@ != "boot"@ && item@ != "project_type"@ && item@ != "language"@
            && item@ != "deps"@ ==> r == Err::<Lists, ListError>(ListError::UnknownItem),
{
    proof {
        reveal_strlit("java");
        reveal_strlit("boot");
        reveal_strlit("project_type");
        reveal_strlit("language");
        reveal_strlit("deps");
        assert("java"@[0] == 'j');
        assert("boot"@[0] == 'b');
        assert("project_type"@[0] == 'p');
        assert("language"@[0] == 'l');
        assert("deps"@[0] == 'd');
    }
    if str_eq(item, "java") {
        Ok(Lists::Values(metadata.java_version.values))
    } else if str_eq(item, "boot") {
        Ok(Lists::Values(metadata.boot_version.values))
    } else if str_eq(item, "project_type") {
        Ok(Lists::Values(metadata.project_type.values))
    } else if str_eq(item, "language") {
        Ok(Lists::Values(metadata.language.values))
    } else if str_eq(item, "deps") {
        Ok(Lists::Categories(metadata.dependencies.values))
    } else {
        Err(ListError::UnknownItem)
    }
}

/// One line per option, each line the option's display name.
pub open spec fn rendered_values(vs: Seq<ValueView>) -> Seq<char>
    decreases vs.len(),
{
    if vs.len() == 0 {
        Seq::empty()
    } else {
        rendered_values(vs.drop_last()) + vs.last().name + seq!['\n']
    }
}

/// A values listing as one printable text, one option per line.
pub fn print_values(versions: Lists) -> (r: Result<String, ListError>)
    ensures
        match versions {
            Lists::Values(v) => r matches Ok(s) && s@ == rendered_values(v.deep_view()),
            Lists::Categories(_) => r == Err::<String, ListError>(ListError::NotValues),
        },
{
    proof {
        reveal_strlit("\n");
    }
    match versions {
        Lists::Values(vers) => {
            let mut s = String::new();
            let n = vers.len();
            let mut i: usize = 0;
            while i < n
                invariant
                    i <= n,
                    n == vers.len(),
                    s@ == rendered_values(vers.deep_view().take(i as int)),
                decreases n - i,
            {
                s.append(vers[i].name.as_str());
                s.append("\n");
                proof {
                    assert(vers.deep_view().take(i as int + 1).drop_last() =~= vers.deep_view().take(
                        i as int,
                    ));
                    assert(s@ =~= rendered_values(vers.deep_view().take(i as int + 1)));
                }
                i = i + 1;
            }
            proof {
                assert(vers.deep_view().take(n as int) =~= vers.deep_view());
            }
            Ok(s)
        },
        Lists::Categories(_) => Err(ListError::NotValues),
    }
}

/// The dashed option lines of one category.
pub open spec fn rendered_deps(vs: Seq<ValueView>) -> Seq<char>
    decreases vs.len(),
{
    if vs.len() == 0 {
        Seq::empty()
    } else {
        rendered_deps(vs.drop_last()) + seq!['-'] + vs.last().name + seq!['\n']
    }
}

/// One category's block: its name and a colon, its options each on a
/// dashed line, then a spacer line.
pub open spec fn rendered_category(cat: DependencyCategoriesView) -> Seq<char> {
    cat.name + seq![':', '\n'] + rendered_deps(cat.values) + seq![' ', '\n']
}

/// Every category's block in catalog order.
pub open spec fn rendered_categories(cats: Seq<DependencyCategoriesView>) -> Seq<char>
    decreases cats.len(),
{
    if cats.len() == 0 {
        Seq::empty()
    } else {
        rendered_categories(cats.drop_last()) + rendered_category(cats.last())
    }
}

/// A categories listing as one printable text, one block per category.
pub fn print_categories(categories: Lists) -> (r: Result<String, ListError>)
    ensures
        match categories {
            Lists::Categories(c) => r matches Ok(s) && s@ == rendered_categories(c.deep_view()),
            Lists::Values(_) => r == Err::<String, ListError>(ListError::NotCategories),
        },
{
    proof {
        reveal_strlit(":\n");
        reveal_strlit("-");
        reveal_strlit("\n");
        reveal_strlit(" \n");
    }
    match categories {
        Lists::Categories(cats) => {
            let mut s = String::new();
            let n = cats.len();
            let mut c: usize = 0;
            while c < n
                invariant
                    c <= n,
                    n == cats.len(),
                    s@ == rendered_categories(cats.deep_view().take(c as int)),
                decreases n - c,
            {
                s.append(cats[c].name.as_str());
                s.append(":\n");
                let m = cats[c].values.len();
                let mut k: usize = 0;
                while k < m
                    invariant
                        k <= m,
                        c < n,
                        n == cats.len(),
                        m == cats[c as int].values.len(),
                        s@ == rendered_categories(cats.deep_view().take(c as int)) + cats.deep_view()[
                            c as int
                        ].name + seq![':', '\n'] + rendered_deps(
                            cats.deep_view()[c as int].values.take(k as int),
                        ),
                    decreases m - k,
                {
                    s.append("-");
                    s.append(cats[c].values[k].name.as_str());
                    s.append("\n");
                    proof {
                        assert(cats.deep_view()[c as int].values.take(k as int + 1).drop_last()
                            =~= cats.deep_view()[c as int].values.take(k as int));
                        assert(s@ =~= rendered_categories(cats.deep_view().take(c as int))
                            + cats.deep_view()[c as int].name + seq![':', '\n'] + rendered_deps(
                            cats.deep_view()[c as int].values.take(k as int + 1),
                        ));
                    }
                    k = k + 1;
                }
                s.append(" \n");
                proof {
                    assert(cats.deep_view().take(c as int + 1).drop_last() =~= cats.deep_view().take(
                        c as int,
                    ));
                    assert(cats.deep_view()[c as int].values.take(m as int) =~= cats.deep_view()[
                        c as int
                    ].values);
                    assert(s@ =~= rendered_categories(cats.deep_view().take(c as int + 1)));
                }
                c = c + 1;
            }
            proof {
                assert(cats.deep_view().take(n as int) =~= cats.deep_view());
            }
            Ok(s)
        },
        Lists::Values(_) => Err(ListError::NotCategories),
    }
}

} // verus!
