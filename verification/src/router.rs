use vstd::prelude::*;
use crate::content::list_templates;
use crate::content::spec_template_catalog;
use crate::errors::ScaffoldError;
use crate::plan::ProjectPlan;
use crate::plan::cargo_new_args;
use crate::plan::react_native_project_plan;
use crate::plan::react_project_plan;
use crate::plan::spec_cargo_new_args;
use crate::plan::spec_react_native_plan;
use crate::plan::spec_react_plan;
use crate::plan::string_views;

verus! {

/// A parsed command, as the argument-parsing collaborator hands it over.
pub enum Command {
    React { name: String, typescript: bool, testing: bool },
    ReactNative { name: String, typescript: bool, navigation: bool },
    Rust { name: String, project_type: String },
    List,
}

/// What a dispatched command asks the caller to carry out: write a planned
/// project tree, run the external build tool with the given arguments, or
/// print the static catalog.
pub enum Outcome {
    Scaffold(ProjectPlan),
    ExternalTool { args: Vec<String> },
    Listing { text: String },
}

/// The commands that claim a target path of their own.
pub open spec fn spec_needs_free_path(cmd: Command) -> bool {
    !(cmd is List)
}

/// The target path a command claims.
pub open spec fn spec_command_name(cmd: Command) -> Seq<char> {
    match cmd {
        Command::React { name, .. } => name@,
        Command::ReactNative { name, .. } => name@,
        Command::Rust { name, .. } => name@,
        Command::List => Seq::empty(),
    }
}

/// What a successful dispatch must hand back for each command.
pub open spec fn spec_dispatched(cmd: Command, o: Outcome) -> bool {
    match cmd {
        Command::React { name, typescript, testing } => o matches Outcome::Scaffold(p) && p@
            == spec_react_plan(name@, typescript, testing),
        Command::ReactNative { name, typescript, navigation } => o matches Outcome::Scaffold(p)
            && p@ == spec_react_native_plan(name@, typescript, navigation),
        Command::Rust { name, project_type } => o matches Outcome::ExternalTool { args }
            && string_views(args@) == spec_cargo_new_args(name@, project_type@),
        Command::List => o matches Outcome::Listing { text } && text@ == spec_template_catalog(),
    }
}

/// Map a parsed command to exactly one generator, or to the static listing.
///
/// `target_exists` reports whether the claimed path is already taken at
/// invocation time; it is checked once here and not re-checked, so a race
/// with outside file-system mutation is not closed. A taken path is refused
/// before anything is planned, and nothing is written for it.
pub fn dispatch(cmd: &Command, target_exists: bool) -> (r: Result<Outcome, ScaffoldError>)
    ensures
        spec_needs_free_path(*cmd) && target_exists ==> (r matches Err(e) && e
            matches ScaffoldError::PathConflict { name: n } && n@ == spec_command_name(*cmd)),
        !(spec_needs_free_path(*cmd) && target_exists) ==> (r matches Ok(o) && spec_dispatched(
            *cmd,
            o,
        )),
{
    match cmd {
        Command::React { name, typescript, testing } => {
            match react_project_plan(name.as_str(), *typescript, *testing, target_exists) {
                Ok(p) => Ok(Outcome::Scaffold(p)),
                Err(e) => Err(e),
            }
        },
        Command::ReactNative { name, typescript, navigation } => {
            match react_native_project_plan(name.as_str(), *typescript, *navigation, target_exists) {
                Ok(p) => Ok(Outcome::Scaffold(p)),
                Err(e) => Err(e),
            }
        },
        Command::Rust { name, project_type } => {
            if target_exists {
                Err(ScaffoldError::PathConflict { name: name.clone() })
            } else {
                Ok(
                    Outcome::ExternalTool {
                        args: cargo_new_args(name.as_str(), project_type.as_str()),
                    },
                )
            }
        },
        Command::List => Ok(Outcome::Listing { text: list_templates() }),
    }
}

} // verus!
