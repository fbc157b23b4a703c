//! The configuration builder: the sequencing core that turns a catalog
//! snapshot and the answers gathered at the prompts into one finalized
//! request.
//!
//! Prompting itself is a collaborator of the hosting application; the
//! builder takes each answer as a plain value. The full path walks every
//! axis; the quick path accepts the catalog defaults for everything but
//! the two identifiers (and, unless skipped, the two display texts).

use vstd::prelude::*;
use vstd::string::StrSliceExecFns;
use vstd::string::StringExecFns;
use crate::catalog::flat_values;
use crate::catalog::flatten_dependencies;
use crate::catalog::promote_default;
use crate::catalog::promoted;
use crate::normalize::normalize;
use crate::normalize::normalize_spec;
use crate::spring::InitializrMetadata;
use crate::spring::QueryParam;
use crate::spring::Value;
use crate::spring::ValueView;
use crate::validate::identifier_error;
use crate::validate::validate_identifier;
use crate::validate::ValidationError;

verus! {

/// The answers gathered along the full interactive walk: the two validated
/// identifiers, the two display texts (empty means "use the catalog
/// default"), one chosen position per listed axis - versioned axes index
/// the default-first reordered list - and the chosen positions in the
/// flattened dependency list.
pub struct FullSelections {
    pub group_id: String,
    pub artifact_id: String,
    pub name_input: String,
    pub description_input: String,
    pub project_type: usize,
    pub language: usize,
    pub boot_version: usize,
    pub packaging: usize,
    pub java_version: usize,
    pub dependencies: Vec<usize>,
}

/// The answers gathered along the quick walk: the two identifiers and,
/// when the walk asked for them, the two display texts.
pub struct QuickSelections {
    pub group_id: String,
    pub artifact_id: String,
    pub name: Option<String>,
    pub description: Option<String>,
}

/// The first rejection among the two validated identifiers, group id
/// first, as the walk meets them.
pub open spec fn first_identifier_error(group: Seq<char>, artifact: Seq<char>) -> Option<
    ValidationError,
> {
    if identifier_error(group) is Some {
        identifier_error(group)
    } else {
        identifier_error(artifact)
    }
}

/// Free-text resolution for the display-name fields: empty input falls
/// back to the catalog default.
pub open spec fn or_default(input: Seq<char>, dflt: Seq<char>) -> Seq<char> {
    if input.len() == 0 {
        dflt
    } else {
        input
    }
}

/// The ids picked out of the flattened dependency options.
pub open spec fn selected_ids(flat: Seq<ValueView>, picks: Seq<usize>) -> Seq<Seq<char>> {
    picks.map_values(|d: usize| flat[d as int].id)
}

/// Identifiers joined by single commas; empty for the empty selection.
pub open spec fn joined(ids: Seq<Seq<char>>) -> Seq<char>
    decreases ids.len(),
{
    if ids.len() == 0 {
        Seq::empty()
    } else if ids.len() == 1 {
        ids[0]
    } else {
        joined(ids.drop_last()) + seq![','] + ids.last()
    }
}

/// The comma-joined id list of the picked dependency options.
fn join_selected(flat: &Vec<Value>, picks: &Vec<usize>) -> (r: String)
    requires
        forall|k: int| 0 <= k < picks.len() ==> (#[trigger] picks@[k]) < flat.len(),
    ensures
        r@ == joined(selected_ids(flat.deep_view(), picks@)),
{
    proof {
        reveal_strlit(",");
    }
    let ghost all = selected_ids(flat.deep_view(), picks@);
    let mut r = String::new();
    let n = picks.len();
    let mut i: usize = 0;
    while i < n
        invariant
            i <= n,
            n == picks.len(),
            forall|k: int| 0 <= k < picks.len() ==> (#[trigger] picks@[k]) < flat.len(),
            all == selected_ids(flat.deep_view(), picks@),
            r@ == joined(all.take(i as int)),
        decreases n - i,
    {
        if i > 0 {
            r.append(",");
        }
        r.append(flat[picks[i]].id.as_str());
        proof {
            assert(all.take(i as int + 1).drop_last() =~= all.take(i as int));
            assert(all[i as int] == flat.deep_view()[picks@[i as int] as int].id);
            assert(r@ =~= joined(all.take(i as int + 1)));
        }
        i = i + 1;
    }
    proof {
        assert(all.take(n as int) =~= all);
    }
    r
}

/// The full interactive walk, from the catalog snapshot and every gathered
/// answer to the finalized request. The two identifiers go through the
/// validator; a rejection surfaces the first reason so the caller can ask
/// again without losing the other answers.
pub fn pure_interactivity(metadata: InitializrMetadata, selections: FullSelections) -> (r: Result<
    QueryParam,
    ValidationError,
>)
    requires
        selections.project_type < metadata.project_type.values.len(),
        selections.language < metadata.language.values.len(),
        selections.boot_version < metadata.boot_version.values.len(),
        selections.packaging < metadata.packaging.values.len(),
        selections.java_version < metadata.java_version.values.len(),
        forall|k: int|
            0 <= k < selections.dependencies.len() ==> (#[trigger] selections.dependencies@[k])
                < flat_values(metadata@.dependencies.values).len(),
        forall|k1: int, k2: int|
            0 <= k1 < k2 < selections.dependencies.len() ==> selections.dependencies@[k1]
                != selections.dependencies@[k2],
    ensures
        match r {
            Err(e) => first_identifier_error(selections.group_id@, selections.artifact_id@)
                == Some(e),
            Ok(q) => {
                &&& first_identifier_error(selections.group_id@, selections.artifact_id@) is None
                &&& q@.project_type == metadata@.project_type.values[
                    selections.project_type as int
                ].id
                &&& q@.language == metadata@.language.values[selections.language as int].id
                &&& q@.boot_version == normalize_spec(
                    promoted(metadata@.boot_version.values, metadata@.boot_version.default)[
                        selections.boot_version as int
                    ].id,
                )
                &&& q@.group_id == selections.group_id@
                &&& q@.artifact_id == selections.artifact_id@
                &&& q@.name == or_default(selections.name_input@, metadata@.name.default)
                &&& q@.description == or_default(
                    selections.description_input@,
                    metadata@.description.default,
                )
                &&& q@.packaging == metadata@.packaging.values[selections.packaging as int].id
                &&& q@.java_version == promoted(
                    metadata@.java_version.values,
                    metadata@.java_version.default,
                )[selections.java_version as int].id
                &&& q@.dependencies == joined(
                    selected_ids(
                        flat_values(metadata@.dependencies.values),
                        selections.dependencies@,
                    ),
                )
                &&& q@.base_dir == selections.artifact_id@
            },
        },
{
    if let Err(e) = validate_identifier(selections.group_id.as_str()) {
        return Err(e);
    }
    if let Err(e) = validate_identifier(selections.artifact_id.as_str()) {
        return Err(e);
    }
    let name = if selections.name_input.as_str().is_empty() {
        metadata.name.default
    } else {
        selections.name_input
    };
    let description = if selections.description_input.as_str().is_empty() {
        metadata.description.default
    } else {
        selections.description_input
    };
    let project_type = metadata.project_type.values[selections.project_type].id.clone();
    let language = metadata.language.values[selections.language].id.clone();
    let mut boot_values = metadata.boot_version.values;
    promote_default(&mut boot_values, metadata.boot_version.default.as_str());
    let boot_version = normalize(boot_values[selections.boot_version].id.as_str());
    let packaging = metadata.packaging.values[selections.packaging].id.clone();
    let mut java_values = metadata.java_version.values;
    promote_default(&mut java_values, metadata.java_version.default.as_str());
    let java_version = java_values[selections.java_version].id.clone();
    let flat = flatten_dependencies(&metadata.dependencies);
    let dependencies = join_selected(&flat, &selections.dependencies);
    let base_dir = selections.artifact_id.clone();
    Ok(
        QueryParam {
            project_type,
            language,
            boot_version,
            group_id: selections.group_id,
            artifact_id: selections.artifact_id,
            name,
            description,
            packaging,
            java_version,
            dependencies,
            base_dir,
        },
    )
}

/// The quick walk: both identifiers are validated as in the full walk;
/// every listed axis takes the catalog default verbatim - except that
/// `maven` forces the Maven project type - the dependency selection stays
/// empty, and the framework version default goes through the normalizer
/// exactly as in the full walk. With `extended` set the display texts are
/// never asked for and fall back to the catalog defaults.
pub fn quick_interactivity(
    metadata: InitializrMetadata,
    maven: bool,
    extended: bool,
    answers: QuickSelections,
) -> (r: Result<QueryParam, ValidationError>)
    ensures
        match r {
            Err(e) => first_identifier_error(answers.group_id@, answers.artifact_id@) == Some(e),
            Ok(q) => {
                &&& first_identifier_error(answers.group_id@, answers.artifact_id@) is None
                &&& q@.project_type == if maven {
                    "maven-project"@
                } else {
                    metadata@.project_type.default
                }
                &&& q@.language == metadata@.language.default
                &&& q@.boot_version == normalize_spec(metadata@.boot_version.default)
                &&& q@.group_id == answers.group_id@
                &&& q@.artifact_id == answers.artifact_id@
                &&& q@.name == if extended {
                    metadata@.name.default
                } else {
                    match answers.name {
                        Some(s) => s@,
                        None => metadata@.name.default,
                    }
                }
                &&& q@.description == if extended {
                    metadata@.description.default
                } else {
                    match answers.description {
                        Some(s) => s@,
                        None => metadata@.description.default,
                    }
                }
                &&& q@.packaging == metadata@.packaging.default
                &&& q@.java_version == metadata@.java_version.default
                &&& q@.dependencies == Seq::<char>::empty()
                &&& q@.base_dir == answers.artifact_id@
            },
        },
{
    if let Err(e) = validate_identifier(answers.group_id.as_str()) {
        return Err(e);
    }
    if let Err(e) = validate_identifier(answers.artifact_id.as_str()) {
        return Err(e);
    }
    let project_type = if maven {
        "maven-project".to_owned()
    } else {
        metadata.project_type.default
    };
    let name = if extended {
        metadata.name.default
    } else {
        match answers.name {
            Some(s) => s,
            None => metadata.name.default,
        }
    };
    let description = if extended {
        metadata.description.default
    } else {
        match answers.description {
            Some(s) => s,
            None => metadata.description.default,
        }
    };
    let boot_version = normalize(metadata.boot_version.default.as_str());
    let base_dir = answers.artifact_id.clone();
    Ok(
        QueryParam {
            project_type,
            language: metadata.language.default,
            boot_version,
            group_id: answers.group_id,
            artifact_id: answers.artifact_id,
            name,
            description,
            packaging: metadata.packaging.default,
            java_version: metadata.java_version.default,
            dependencies: String::new(),
            base_dir,
        },
    )
}

} // verus!
