use vstd::prelude::*;
use vstd::std_specs::convert::TryFromSpecImpl;

verus! {

/// Status byte of every AXDR response and completion event.
#[derive(Debug, Clone, Copy, PartialEq, Eq, Structural)]
pub enum AxdrStatus {
    Success,
    ErrOp,
    ErrLength,
    ErrVarId,
    ErrReadOnly,
    ErrValue,
    ErrState,
    ErrConfig,
    ErrBandwidth,
    ErrNotSupported,
}

/// The status a wire byte denotes, if any.
pub open spec fn spec_status_from_u8(value: u8) -> Option<AxdrStatus> {
    if value == 0 {
        Some(AxdrStatus::Success)
    } else if value == 1 {
        Some(AxdrStatus::ErrOp)
    } else if value == 2 {
        Some(AxdrStatus::ErrLength)
    } else if value == 3 {
        Some(AxdrStatus::ErrVarId)
    } else if value == 4 {
        Some(AxdrStatus::ErrReadOnly)
    } else if value == 5 {
        Some(AxdrStatus::ErrValue)
    } else if value == 6 {
        Some(AxdrStatus::ErrState)
    } else if value == 7 {
        Some(AxdrStatus::ErrConfig)
    } else if value == 8 {
        Some(AxdrStatus::ErrBandwidth)
    } else if value == 9 {
        Some(AxdrStatus::ErrNotSupported)
    } else {
        None
    }
}

impl AxdrStatus {
    /// The wire byte of a status.
    pub open spec fn spec_to_u8(self) -> u8 {
        match self {
            AxdrStatus::Success => 0,
            AxdrStatus::ErrOp => 1,
            AxdrStatus::ErrLength => 2,
            AxdrStatus::ErrVarId => 3,
            AxdrStatus::ErrReadOnly => 4,
            AxdrStatus::ErrValue => 5,
            AxdrStatus::ErrState => 6,
            AxdrStatus::ErrConfig => 7,
            AxdrStatus::ErrBandwidth => 8,
            AxdrStatus::ErrNotSupported => 9,
        }
    }

    pub fn to_u8(self) -> (res: u8)
        ensures
            res == self.spec_to_u8(),
    {
        match self {
            AxdrStatus::Success => 0,
            AxdrStatus::ErrOp => 1,
            AxdrStatus::ErrLength => 2,
            AxdrStatus::ErrVarId => 3,
            AxdrStatus::ErrReadOnly => 4,
            AxdrStatus::ErrValue => 5,
            AxdrStatus::ErrState => 6,
            AxdrStatus::ErrConfig => 7,
            AxdrStatus::ErrBandwidth => 8,
            AxdrStatus::ErrNotSupported => 9,
        }
    }

    /// Decodes a wire byte; an unknown byte is returned as the error.
    pub fn from_u8(value: u8) -> (res: Result<AxdrStatus, u8>)
        ensures
            match spec_status_from_u8(value) {
                Some(status) => res == Ok::<AxdrStatus, u8>(status),
                None => res == Err::<AxdrStatus, u8>(value),
            },
    {
        match value {
            0 => Ok(AxdrStatus::Success),
            1 => Ok(AxdrStatus::ErrOp),
            2 => Ok(AxdrStatus::ErrLength),
            3 => Ok(AxdrStatus::ErrVarId),
            4 => Ok(AxdrStatus::ErrReadOnly),
            5 => Ok(AxdrStatus::ErrValue),
            6 => Ok(AxdrStatus::ErrState),
            7 => Ok(AxdrStatus::ErrConfig),
            8 => Ok(AxdrStatus::ErrBandwidth),
            9 => Ok(AxdrStatus::ErrNotSupported),
            other => Err(other),
        }
    }
}

impl TryFrom<u8> for AxdrStatus {
    type Error = u8;

    fn try_from(value: u8) -> (res: Result<AxdrStatus, u8>) {
        AxdrStatus::from_u8(value)
    }
}

impl TryFromSpecImpl<u8> for AxdrStatus {
    open spec fn obeys_try_from_spec() -> bool {
        true
    }

    open spec fn try_from_spec(value: u8) -> Result<AxdrStatus, u8> {
        match spec_status_from_u8(value) {
            Some(status) => Ok(status),
            None => Err(value),
        }
    }
}

/// Encoding a status and decoding the byte gives the status back, and every
/// byte that decodes is the encoding of what it decodes to.
pub proof fn lemma_status_round_trip(status: AxdrStatus, value: u8)
    ensures
        spec_status_from_u8(status.spec_to_u8()) == Some(status),
        spec_status_from_u8(value) matches Some(s) ==> s.spec_to_u8() == value,
        spec_status_from_u8(value) is Some <==> value <= 9,
{
}

} // verus!
