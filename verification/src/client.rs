//! The decisions of the remote pipeline: what a response status means for
//! the run, and how a finalized request is laid out as query parameters.
//!
//! The network calls themselves, and the unpacking of the returned archive,
//! live with the hosting application; this module fixes what each outcome
//! means, so that a failing status can never reach extraction.

use vstd::prelude::*;
use crate::spring::QueryParam;

verus! {

/// A failure of the remote pipeline.
pub enum ClientError {
    /// An endpoint could not be reached at all.
    TransportError,
    /// The metadata endpoint answered outside the success range.
    ServiceError { status: u16 },
    /// The metadata body did not parse into the expected shape.
    DecodeError,
    /// The generation endpoint answered outside the success range; the
    /// response body, or a placeholder when it was unreadable, is kept for
    /// diagnostics.
    GenerationError { status: u16, body: String },
    /// The generated archive could not be unpacked in full.
    ExtractionError,
}

/// The success range of a response status.
pub open spec fn status_success(status: u16) -> bool {
    200 <= status < 300
}

/// Whether `status` lies in the success range.
pub fn is_success_status(status: u16) -> (r: bool)
    ensures
        r == status_success(status),
{
    200 <= status && status < 300
}

/// What the catalog fetch's status means for the run: go on exactly on a
/// success status, otherwise surface the status at once.
pub fn metadata_outcome(status: u16) -> (r: Result<(), ClientError>)
    ensures
        r is Ok <==> status_success(status),
        !status_success(status) ==> r == Err::<(), ClientError>(
            ClientError::ServiceError { status },
        ),
{
    if is_success_status(status) {
        Ok(())
    } else {
        Err(ClientError::ServiceError { status })
    }
}

/// What the generation response means: go on to extraction exactly on a
/// success status; otherwise surface the status together with the response
/// body, or with a placeholder when the body could not be read.
pub fn generation_outcome(status: u16, body: Option<String>) -> (r: Result<(), ClientError>)
    ensures
        r is Ok <==> status_success(status),
        !status_success(status) ==> match r {
            Err(ClientError::GenerationError { status: s, body: b }) => s == status && b@ == match body {
                Some(t) => t@,
                None => "Could not read error body"@,
            },
            _ => false,
        },
{
    if is_success_status(status) {
        Ok(())
    } else {
        let b = match body {
            Some(t) => t,
            None => "Could not read error body".to_owned(),
        };
        Err(ClientError::GenerationError { status, body: b })
    }
}

/// The finalized request as the ordered key-value pairs of the generation
/// endpoint's query string, one pair per field.
pub fn to_query_pairs(q: &QueryParam) -> (r: Vec<(String, String)>)
    ensures
        r@.len() == 11,
        r@[0].0@ == "type"@ && r@[0].1@ == q@.project_type,
        r@[1].0@ == "language"@ && r@[1].1@ == q@.language,
        r@[2].0@ == "bootVersion"@ && r@[2].1@ == q@.boot_version,
        r@[3].0@ == "groupId"@ && r@[3].1@ == q@.group_id,
        r@[4].0@ == "artifactId"@ && r@[4].1@ == q@.artifact_id,
        r@[5].0@ == "name"@ && r@[5].1@ == q@.name,
        r@[6].0@ == "description"@ && r@[6].1@ == q@.description,
        r@[7].0@ == "packaging"@ && r@[7].1@ == q@.packaging,
        r@[8].0@ == "javaVersion"@ && r@[8].1@ == q@.java_version,
        r@[9].0@ == "dependencies"@ && r@[9].1@ == q@.dependencies,
        r@[10].0@ == "baseDir"@ && r@[10].1@ == q@.base_dir,
{
    let mut r: Vec<(String, String)> = Vec::new();
    r.push(("type".to_owned(), q.project_type.clone()));
    r.push(("language".to_owned(), q.language.clone()));
    r.push(("bootVersion".to_owned(), q.boot_version.clone()));
    r.push(("groupId".to_owned(), q.group_id.clone()));
    r.push(("artifactId".to_owned(), q.artifact_id.clone()));
    r.push(("name".to_owned(), q.name.clone()));
    r.push(("description".to_owned(), q.description.clone()));
    r.push(("packaging".to_owned(), q.packaging.clone()));
    r.push(("javaVersion".to_owned(), q.java_version.clone()));
    r.push(("dependencies".to_owned(), q.dependencies.clone()));
    r.push(("baseDir".to_owned(), q.base_dir.clone()));
    r
}

} // verus!
