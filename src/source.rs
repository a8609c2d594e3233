//! Which code a review request carries, and under which project name.
//!
//! In diff mode the code is a version-control diff and the project name is
//! required; otherwise the code is one whole file and the project name may
//! be empty.
use vstd::prelude::*;

verus! {

/// The code to fetch for a review.
#[derive(Debug)]
pub enum CodeRequest {
    /// The diff of the whole working tree.
    WorkingTreeDiff,
    /// The diff of the one named file.
    FileDiff(String),
    /// The whole content of the named file.
    FileContent(String),
}

#[derive(Debug)]
pub enum SourceError {
    /// Diff mode outside a version-controlled project.
    NotAVersionControlledProject,
    /// Single-file mode without a file name.
    MissingFileArgument,
    /// The code could not be read; the reason.
    SourceRead(String),
}

/// What a review request sends.
#[derive(Debug)]
pub struct LintSource {
    pub project_name: String,
    pub code: String,
}

pub open spec fn request_of(diff_mode: bool, file_name: Option<String>) -> Result<CodeRequest, SourceError> {
    match (diff_mode, file_name) {
        (true, None) => Ok(CodeRequest::WorkingTreeDiff),
        (true, Some(f)) => Ok(CodeRequest::FileDiff(f)),
        (false, Some(f)) => Ok(CodeRequest::FileContent(f)),
        (false, None) => Err(SourceError::MissingFileArgument),
    }
}

/// The project name from what the version-control lookup found (`None` outside a
/// project): required in diff mode, empty when missing otherwise.
pub open spec fn project_of(diff_mode: bool, found: Option<String>, r: Result<String, SourceError>) -> bool {
    match found {
        Some(p) => r == Ok::<String, SourceError>(p),
        None => if diff_mode {
            r == Err::<String, SourceError>(SourceError::NotAVersionControlledProject)
        } else {
            r matches Ok(p) && p@ == Seq::<char>::empty()
        },
    }
}

pub open spec fn source_of(project_name: String, code: Result<String, String>) -> Result<LintSource, SourceError> {
    match code {
        Ok(c) => Ok(LintSource { project_name, code: c }),
        Err(e) => Err(SourceError::SourceRead(e)),
    }
}

/// Which code to fetch: a diff scoped to the named file or to the whole working
/// tree in diff mode, the named file's content otherwise.
pub fn code_request(diff_mode: bool, file_name: Option<String>) -> (r: Result<CodeRequest, SourceError>)
    ensures
        r == request_of(diff_mode, file_name),
{
    match file_name {
        None => if diff_mode {
            Ok(CodeRequest::WorkingTreeDiff)
        } else {
            Err(SourceError::MissingFileArgument)
        },
        Some(f) => if diff_mode {
            Ok(CodeRequest::FileDiff(f))
        } else {
            Ok(CodeRequest::FileContent(f))
        },
    }
}

pub fn project_label(diff_mode: bool, found: Option<String>) -> (r: Result<String, SourceError>)
    ensures
        project_of(diff_mode, found, r),
{
    match found {
        Some(p) => Ok(p),
        None => if diff_mode {
            Err(SourceError::NotAVersionControlledProject)
        } else {
            Ok(String::new())
        },
    }
}

/// The request's payload once the code has been read, or the read failure.
pub fn lint_source(project_name: String, code: Result<String, String>) -> (r: Result<LintSource, SourceError>)
    ensures
        r == source_of(project_name, code),
{
    match code {
        Ok(c) => Ok(LintSource { project_name, code: c }),
        Err(e) => Err(SourceError::SourceRead(e)),
    }
}

/// In diff mode the working tree is diffed whole exactly when no file is
/// named, and a named file scopes the diff to that file alone.
pub proof fn lemma_diff_scope(file_name: Option<String>)
    ensures
        file_name is None <==> request_of(true, file_name) == Ok::<CodeRequest, SourceError>(
            CodeRequest::WorkingTreeDiff,
        ),
        file_name matches Some(f) ==> request_of(true, file_name) == Ok::<
            CodeRequest,
            SourceError,
        >(CodeRequest::FileDiff(f)),
{
}

/// In single-file mode outside a version-controlled project, a named file
/// that reads gives a payload with an empty project name and the file's text.
pub proof fn lemma_single_file_outside_project(
    file_name: String,
    project: Result<String, SourceError>,
    content: String,
)
    requires
        project_of(false, None, project),
    ensures
        request_of(false, Some(file_name)) == Ok::<CodeRequest, SourceError>(
            CodeRequest::FileContent(file_name),
        ),
        project matches Ok(p) && source_of(p, Ok(content)) matches Ok(s) && s.project_name@
            == Seq::<char>::empty() && s.code == content,
{
}

} // verus!
