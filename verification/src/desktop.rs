//! What the desktop shell decides on its own: the names it shows for states
//! and domains, the built-in workflows it offers, and the checks on a script
//! the user opens.

use vstd::prelude::*;

use crate::application::TuningExperimentState;
use crate::preflight::{IdentificationKind, PreflightDomain};
use crate::text::{concat, same_text};

verus! {

/// A script ready to run: its file name, its text, and the directory it was
/// opened from.
#[derive(Debug, Clone, PartialEq, Eq)]
pub struct ScriptDocument {
    pub name: String,
    pub source: String,
    pub working_directory: Option<String>,
}

/// The workflows shipped with the desktop application.
#[derive(Debug, Clone, Copy, PartialEq, Eq, Structural)]
pub enum BuiltinWorkflow {
    Diagnosis,
    Motion,
}

/// The built-in workflow `kind` names (the diagnosis when it names none),
/// with the file name it is shown under.
pub fn builtin_workflow(kind: Option<&str>) -> (res: Result<(&'static str, BuiltinWorkflow), String>)
    ensures
        match kind {
            None => res matches Ok((n, w)) && n@ == "runtime_diagnosis.py"@ && w == BuiltinWorkflow::Diagnosis,
            Some(k) => if k@ == "diagnosis"@ {
                res matches Ok((n, w)) && n@ == "runtime_diagnosis.py"@ && w == BuiltinWorkflow::Diagnosis
            } else if k@ == "motion"@ {
                res matches Ok((n, w)) && n@ == "motion_workflow.py"@ && w == BuiltinWorkflow::Motion
            } else {
                res matches Err(e) && e@ == "Unknown built-in workflow"@
            },
        },
{
    let diagnosis = match kind {
        None => true,
        Some(k) => same_text(k, "diagnosis"),
    };
    if diagnosis {
        return Ok(("runtime_diagnosis.py", BuiltinWorkflow::Diagnosis));
    }
    match kind {
        Some(k) => if same_text(k, "motion") {
            Ok(("motion_workflow.py", BuiltinWorkflow::Motion))
        } else {
            Err("Unknown built-in workflow".to_owned())
        },
        None => Err("Unknown built-in workflow".to_owned()),
    }
}

/// The largest script the desktop opens, in bytes.
pub const MAX_SCRIPT_BYTES: usize = 262144;

/// An opened script must hold 1..=262144 bytes.
pub fn check_script_size(len: usize) -> (res: Result<(), String>)
    ensures
        1 <= len <= MAX_SCRIPT_BYTES ==> res is Ok,
        !(1 <= len <= MAX_SCRIPT_BYTES) ==> (res matches Err(e) && e@ == "Script must contain 1..262144 bytes"@),
{
    if len == 0 || len > MAX_SCRIPT_BYTES {
        return Err("Script must contain 1..262144 bytes".to_owned());
    }
    Ok(())
}

/// The name the desktop shows for a preflight domain.
pub fn preflight_domain_name(domain: PreflightDomain) -> (res: &'static str)
    ensures
        res@ == match domain {
            PreflightDomain::LimitsSafety => "limits"@,
            PreflightDomain::Motor => "motor"@,
            PreflightDomain::Identification => "identification"@,
        },
{
    match domain {
        PreflightDomain::LimitsSafety => "limits",
        PreflightDomain::Motor => "motor",
        PreflightDomain::Identification => "identification",
    }
}

/// The name the desktop shows for a tuning experiment's state.
pub fn tuning_experiment_state_name(state: TuningExperimentState) -> (res: &'static str)
    ensures
        res@ == match state {
            TuningExperimentState::Idle => "IDLE"@,
            TuningExperimentState::Preparing => "PREPARING"@,
            TuningExperimentState::Running => "RUNNING"@,
            TuningExperimentState::Stopping => "STOPPING"@,
            TuningExperimentState::Completed => "COMPLETED"@,
            TuningExperimentState::Failed => "FAILED"@,
        },
{
    match state {
        TuningExperimentState::Idle => "IDLE",
        TuningExperimentState::Preparing => "PREPARING",
        TuningExperimentState::Running => "RUNNING",
        TuningExperimentState::Stopping => "STOPPING",
        TuningExperimentState::Completed => "COMPLETED",
        TuningExperimentState::Failed => "FAILED",
    }
}

/// The identification kind the desktop names `kind`.
pub fn identification_kind(kind: &str) -> (res: Result<IdentificationKind, String>)
    ensures
        if kind@ == "rs_ls"@ {
            res == Ok::<IdentificationKind, String>(IdentificationKind::RsLs)
        } else if kind@ == "flux"@ {
            res == Ok::<IdentificationKind, String>(IdentificationKind::Flux)
        } else if kind@ == "jb"@ {
            res == Ok::<IdentificationKind, String>(IdentificationKind::Jb)
        } else {
            res matches Err(e) && e@ == "unknown identification kind '"@ + kind@ + "'"@
        },
{
    if same_text(kind, "rs_ls") {
        Ok(IdentificationKind::RsLs)
    } else if same_text(kind, "flux") {
        Ok(IdentificationKind::Flux)
    } else if same_text(kind, "jb") {
        Ok(IdentificationKind::Jb)
    } else {
        let head = concat("unknown identification kind '", kind);
        Err(concat(head.as_str(), "'"))
    }
}

} // verus!
