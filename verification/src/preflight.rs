//! Which parameters must be in order before a motor identification may start,
//! and how one read value is judged.

use vstd::prelude::*;

use crate::parameter_service::ParameterServiceError;
use crate::protocol::ParameterValue;

verus! {

pub const LIMIT_I_MAX: &'static str = "PARAM_LIMIT_I_MAX";
pub const LIMIT_WM_MAX: &'static str = "PARAM_LIMIT_WM_MAX";
pub const IDENT_RS_LS_VALID: &'static str = "PARAM_IDENT_RS_LS_VALID";
pub const IDENT_FLUX_VALID: &'static str = "PARAM_IDENT_FLUX_VALID";

#[derive(Debug, Clone, Copy, PartialEq, Eq, Structural)]
pub enum IdentificationKind {
    RsLs,
    Flux,
    Jb,
}

#[derive(Debug, Clone, Copy, PartialEq, Eq, Structural)]
pub enum PreflightDomain {
    LimitsSafety,
    Motor,
    Identification,
}

/// A parameter that is not in order, why, and where the user can fix it.
#[derive(Debug, Clone, PartialEq, Eq)]
pub struct PreflightIssue {
    pub parameter_id: Option<u16>,
    pub reason: String,
    pub suggested_domain: PreflightDomain,
}

#[derive(Debug)]
pub enum PreflightError {
    MissingParameter(String),
    InvalidParameterType(String),
    Parameter(ParameterServiceError),
}

/// What a check asks of its parameter.
#[derive(Debug, Clone, Copy, PartialEq, Eq, Structural)]
pub enum Requirement {
    /// A finite value greater than zero.
    Positive,
    /// The u8 flag value 1.
    Flag,
}

/// One preflight check: the parameter by schema key, what it must hold, and
/// the issue raised otherwise.
#[derive(Debug, Clone, Copy, PartialEq, Eq)]
pub struct PreflightCheck {
    pub key: &'static str,
    pub requirement: Requirement,
    pub domain: PreflightDomain,
    pub reason: &'static str,
}

/// The checks an identification of `kind` needs, in the order they are made.
pub open spec fn spec_identification_checks(kind: IdentificationKind) -> Seq<PreflightCheck> {
    let current = PreflightCheck {
        key: LIMIT_I_MAX,
        requirement: Requirement::Positive,
        domain: PreflightDomain::LimitsSafety,
        reason: "Current limit must be configured before identification.",
    };
    match kind {
        IdentificationKind::RsLs => seq![current],
        IdentificationKind::Flux => seq![
            current,
            PreflightCheck {
                key: LIMIT_WM_MAX,
                requirement: Requirement::Positive,
                domain: PreflightDomain::LimitsSafety,
                reason: "Speed limit must be configured before Flux identification.",
            },
            PreflightCheck {
                key: IDENT_RS_LS_VALID,
                requirement: Requirement::Flag,
                domain: PreflightDomain::Motor,
                reason: "Apply a valid Rs/Ls result before Flux identification.",
            },
        ],
        IdentificationKind::Jb => seq![
            current,
            PreflightCheck {
                key: LIMIT_WM_MAX,
                requirement: Requirement::Positive,
                domain: PreflightDomain::LimitsSafety,
                reason: "Speed limit must be configured before J/B identification.",
            },
            PreflightCheck {
                key: IDENT_FLUX_VALID,
                requirement: Requirement::Flag,
                domain: PreflightDomain::Motor,
                reason: "Apply a valid Flux result before J/B identification.",
            },
        ],
    }
}

pub fn identification_checks(kind: IdentificationKind) -> (res: Vec<PreflightCheck>)
    ensures
        res@ == spec_identification_checks(kind),
{
    let current = PreflightCheck {
        key: LIMIT_I_MAX,
        requirement: Requirement::Positive,
        domain: PreflightDomain::LimitsSafety,
        reason: "Current limit must be configured before identification.",
    };
    let checks = match kind {
        IdentificationKind::RsLs => vec![current],
        IdentificationKind::Flux => vec![
            current,
            PreflightCheck {
                key: LIMIT_WM_MAX,
                requirement: Requirement::Positive,
                domain: PreflightDomain::LimitsSafety,
                reason: "Speed limit must be configured before Flux identification.",
            },
            PreflightCheck {
                key: IDENT_RS_LS_VALID,
                requirement: Requirement::Flag,
                domain: PreflightDomain::Motor,
                reason: "Apply a valid Rs/Ls result before Flux identification.",
            },
        ],
        IdentificationKind::Jb => vec![
            current,
            PreflightCheck {
                key: LIMIT_WM_MAX,
                requirement: Requirement::Positive,
                domain: PreflightDomain::LimitsSafety,
                reason: "Speed limit must be configured before J/B identification.",
            },
            PreflightCheck {
                key: IDENT_FLUX_VALID,
                requirement: Requirement::Flag,
                domain: PreflightDomain::Motor,
                reason: "Apply a valid Flux result before J/B identification.",
            },
        ],
    };
    assert(checks@ == spec_identification_checks(kind));
    checks
}

/// Whether a numeric value is finite and greater than zero; `None` for a
/// position, which has no single number. F32 values are IEEE-754 patterns.
pub open spec fn spec_positive(value: ParameterValue) -> Option<bool> {
    match value {
        ParameterValue::U8(v) => Some(v > 0),
        ParameterValue::I8(v) => Some(v > 0),
        ParameterValue::F32(bits) => Some(crate::protocol::plot::positive_finite_f32(bits)),
        ParameterValue::I32(v) => Some(v > 0),
        ParameterValue::U32(v) => Some(v > 0),
        ParameterValue::Position(_) => None,
    }
}

fn positive(value: ParameterValue) -> (res: Option<bool>)
    ensures
        res == spec_positive(value),
{
    match value {
        ParameterValue::U8(v) => Some(v > 0),
        ParameterValue::I8(v) => Some(v > 0),
        ParameterValue::F32(bits) => Some(0 < bits && bits < 0x7f80_0000),
        ParameterValue::I32(v) => Some(v > 0),
        ParameterValue::U32(v) => Some(v > 0),
        ParameterValue::Position(_) => None,
    }
}

/// Whether `value` meets `requirement`; `None` when its type cannot.
pub open spec fn spec_meets(requirement: Requirement, value: ParameterValue) -> Option<bool> {
    match requirement {
        Requirement::Positive => spec_positive(value),
        Requirement::Flag => match value {
            ParameterValue::U8(v) => Some(v == 1),
            _ => None,
        },
    }
}

/// Judges the value read for `check` from the parameter with ID `id`: no
/// issue when it meets the requirement, the check's issue when it does not,
/// and an error when the value has a type the requirement cannot apply to.
pub fn evaluate_check(check: &PreflightCheck, id: u16, value: ParameterValue) -> (res: Result<
    Option<PreflightIssue>,
    PreflightError,
>)
    ensures
        match spec_meets(check.requirement, value) {
            None => res matches Err(PreflightError::InvalidParameterType(k)) && k@ == check.key@,
            Some(true) => res matches Ok(None),
            Some(false) => res matches Ok(Some(issue)) && issue.parameter_id == Some(id) && issue.reason@
                == check.reason@ && issue.suggested_domain == check.domain,
        },
{
    let meets = match check.requirement {
        Requirement::Positive => positive(value),
        Requirement::Flag => match value {
            ParameterValue::U8(v) => Some(v == 1),
            _ => None,
        },
    };
    match meets {
        None => Err(PreflightError::InvalidParameterType(check.key.to_owned())),
        Some(true) => Ok(None),
        Some(false) => Ok(
            Some(
                PreflightIssue {
                    parameter_id: Some(id),
                    reason: check.reason.to_owned(),
                    suggested_domain: check.domain,
                },
            ),
        ),
    }
}

/// Every identification first checks the current limit, and Flux and J/B
/// identifications also need the speed limit and the result of the step
/// before them.
pub proof fn lemma_identification_builds_on_earlier_steps(kind: IdentificationKind)
    ensures
        spec_identification_checks(kind)[0].key == LIMIT_I_MAX,
        kind == IdentificationKind::Flux ==> spec_identification_checks(kind)[2].key == IDENT_RS_LS_VALID,
        kind == IdentificationKind::Jb ==> spec_identification_checks(kind)[2].key == IDENT_FLUX_VALID,
{
}

} // verus!
