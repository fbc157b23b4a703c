//! The data model of the capability catalog and of the finalized generation
//! request.
//!
//! A catalog snapshot is fetched once per run and read-only thereafter; the
//! finalized request is built once, after every axis has a resolved value,
//! and never mutated again.

use vstd::prelude::*;

verus! {

/// One selectable option of a catalog axis: a canonical identifier and a
/// human-readable label.
#[derive(Debug)]
pub struct Value {
    pub id: String,
    pub name: String,
}

/// Mathematical image of a [`Value`]: both fields as character sequences.
pub ghost struct ValueView {
    pub id: Seq<char>,
    pub name: Seq<char>,
}

impl View for Value {
    type V = ValueView;

    open spec fn view(&self) -> ValueView {
        ValueView { id: self.id@, name: self.name@ }
    }
}

impl DeepView for Value {
    type V = ValueView;

    open spec fn deep_view(&self) -> ValueView {
        self@
    }
}

impl Value {
    /// The text under which this option is shown in lists and prompts.
    pub fn display_text(&self) -> (r: String)
        ensures
            r@ == self@.name,
    {
        self.name.clone()
    }

    /// An owned copy, field for field.
    pub fn duplicate(&self) -> (r: Value)
        ensures
            r@ == self@,
    {
        Value { id: self.id.clone(), name: self.name.clone() }
    }
}

/// One configurable axis: the catalog's default identifier and the ordered
/// list of options offered for the axis.
#[derive(Debug)]
pub struct MetadataValue {
    pub default: String,
    pub values: Vec<Value>,
}

/// Mathematical image of a [`MetadataValue`].
pub ghost struct MetadataValueView {
    pub default: Seq<char>,
    pub values: Seq<ValueView>,
}

impl View for MetadataValue {
    type V = MetadataValueView;

    open spec fn view(&self) -> MetadataValueView {
        MetadataValueView { default: self.default@, values: self.values.deep_view() }
    }
}

/// One named grouping of dependency options; grouping is presentational,
/// identifiers are flat across the whole catalog.
#[derive(Debug)]
pub struct DependencyCategories {
    pub name: String,
    pub values: Vec<Value>,
}

/// Mathematical image of a [`DependencyCategories`].
pub ghost struct DependencyCategoriesView {
    pub name: Seq<char>,
    pub values: Seq<ValueView>,
}

impl View for DependencyCategories {
    type V = DependencyCategoriesView;

    open spec fn view(&self) -> DependencyCategoriesView {
        DependencyCategoriesView { name: self.name@, values: self.values.deep_view() }
    }
}

impl DeepView for DependencyCategories {
    type V = DependencyCategoriesView;

    open spec fn deep_view(&self) -> DependencyCategoriesView {
        self@
    }
}

/// The categorized dependency section of the catalog.
#[derive(Debug)]
pub struct Dependencies {
    pub values: Vec<DependencyCategories>,
}

/// Mathematical image of a [`Dependencies`].
pub ghost struct DependenciesView {
    pub values: Seq<DependencyCategoriesView>,
}

impl View for Dependencies {
    type V = DependenciesView;

    open spec fn view(&self) -> DependenciesView {
        DependenciesView { values: self.values.deep_view() }
    }
}

/// A plain default string for a free-text field (project name, description).
#[derive(Debug)]
pub struct DefaultText {
    pub default: String,
}

/// Mathematical image of a [`DefaultText`].
pub ghost struct DefaultTextView {
    pub default: Seq<char>,
}

impl View for DefaultText {
    type V = DefaultTextView;

    open spec fn view(&self) -> DefaultTextView {
        DefaultTextView { default: self.default@ }
    }
}

/// The full catalog snapshot: every selectable axis, the dependency catalog,
/// and the default texts for the free-text fields.
#[derive(Debug)]
pub struct InitializrMetadata {
    pub dependencies: Dependencies,
    pub boot_version: MetadataValue,
    pub java_version: MetadataValue,
    pub language: MetadataValue,
    pub packaging: MetadataValue,
    pub project_type: MetadataValue,
    pub name: DefaultText,
    pub description: DefaultText,
}

/// Mathematical image of an [`InitializrMetadata`].
pub ghost struct InitializrMetadataView {
    pub dependencies: DependenciesView,
    pub boot_version: MetadataValueView,
    pub java_version: MetadataValueView,
    pub language: MetadataValueView,
    pub packaging: MetadataValueView,
    pub project_type: MetadataValueView,
    pub name: DefaultTextView,
    pub description: DefaultTextView,
}

impl View for InitializrMetadata {
    type V = InitializrMetadataView;

    open spec fn view(&self) -> InitializrMetadataView {
        InitializrMetadataView {
            dependencies: self.dependencies@,
            boot_version: self.boot_version@,
            java_version: self.java_version@,
            language: self.language@,
            packaging: self.packaging@,
            project_type: self.project_type@,
            name: self.name@,
            description: self.description@,
        }
    }
}

/// The finalized generation request: every axis resolved to a canonical
/// identifier, free-text fields resolved, dependencies as a comma-joined
/// identifier list, and the extraction target equal to the artifact id.
#[derive(Debug)]
pub struct QueryParam {
    pub project_type: String,
    pub language: String,
    pub boot_version: String,
    pub group_id: String,
    pub artifact_id: String,
    pub name: String,
    pub description: String,
    pub packaging: String,
    pub java_version: String,
    pub dependencies: String,
    pub base_dir: String,
}

/// Mathematical image of a [`QueryParam`].
pub ghost struct QueryParamView {
    pub project_type: Seq<char>,
    pub language: Seq<char>,
    pub boot_version: Seq<char>,
    pub group_id: Seq<char>,
    pub artifact_id: Seq<char>,
    pub name: Seq<char>,
    pub description: Seq<char>,
    pub packaging: Seq<char>,
    pub java_version: Seq<char>,
    pub dependencies: Seq<char>,
    pub base_dir: Seq<char>,
}

impl View for QueryParam {
    type V = QueryParamView;

    open spec fn view(&self) -> QueryParamView {
        QueryParamView {
            project_type: self.project_type@,
            language: self.language@,
            boot_version: self.boot_version@,
            group_id: self.group_id@,
            artifact_id: self.artifact_id@,
            name: self.name@,
            description: self.description@,
            packaging: self.packaging@,
            java_version: self.java_version@,
            dependencies: self.dependencies@,
            base_dir: self.base_dir@,
        }
    }
}

} // verus!
