use vstd::prelude::*;

verus! {

/// The ways a scaffolding run can fail.
///
/// `PathConflict` is detected before any write: the target path is already
/// taken. `IoFailure` carries the text of an underlying file-system error.
/// `ExternalToolFailure` carries the captured error output of the external
/// build tool. `TemplateRenderFailure` is reserved for the template engine.
#[derive(Debug)]
pub enum ScaffoldError {
    PathConflict { name: String },
    IoFailure { detail: String },
    ExternalToolFailure { detail: String },
    TemplateRenderFailure,
}

pub open spec fn spec_path_conflict_message(name: Seq<char>) -> Seq<char> {
    "Directory "@ + name + " already exists"@
}

pub open spec fn spec_external_tool_message(detail: Seq<char>) -> Seq<char> {
    "Cargo new failed: "@ + detail
}

pub open spec fn spec_error_message(e: ScaffoldError) -> Seq<char> {
    match e {
        ScaffoldError::PathConflict { name } => spec_path_conflict_message(name@),
        ScaffoldError::IoFailure { detail } => detail@,
        ScaffoldError::ExternalToolFailure { detail } => spec_external_tool_message(detail@),
        ScaffoldError::TemplateRenderFailure => "Failed to render template"@,
    }
}

impl ScaffoldError {
    /// The single descriptive line reported to the user for this failure.
    pub fn message(&self) -> (r: String)
        ensures
            r@ == spec_error_message(*self),
    {
        match self {
            ScaffoldError::PathConflict { name } => {
                let mut m = String::from_str("Directory ");
                m.append(name.as_str());
                m.append(" already exists");
                m
            },
            ScaffoldError::IoFailure { detail } => detail.clone(),
            ScaffoldError::ExternalToolFailure { detail } => {
                let mut m = String::from_str("Cargo new failed: ");
                m.append(detail.as_str());
                m
            },
            ScaffoldError::TemplateRenderFailure => String::from_str("Failed to render template"),
        }
    }
}

} // verus!
