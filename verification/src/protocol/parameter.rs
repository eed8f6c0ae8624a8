use vstd::prelude::*;
use vstd::std_specs::convert::TryFromSpecImpl;

use crate::bytes::{hi_byte, le_u16, le_u32, lo_byte, read_le_u16, read_le_u32};
use crate::wire::canfd::{spec_canonical_len, zeros, CanFdError, CanFdFrame};

use super::ids::{MSG_PARAMETER, PARAM_READ, PARAM_WRITE};
use super::router::ResponseFrame;
use super::status::AxdrStatus;
use super::transaction::TransactionId;
use super::{can_id, spec_can_id, NODE_ID_DEFAULT};

verus! {

/// Wire type tag of a parameter value.
#[derive(Debug, Clone, Copy, PartialEq, Eq, Structural)]
pub enum ParameterType {
    U8,
    I8,
    F32,
    I32,
    U32,
    Position,
    Action,
}

impl ParameterType {
    pub open spec fn spec_to_u8(self) -> u8 {
        match self {
            ParameterType::U8 => 0,
            ParameterType::I8 => 1,
            ParameterType::F32 => 2,
            ParameterType::I32 => 3,
            ParameterType::U32 => 4,
            ParameterType::Position => 5,
            ParameterType::Action => 6,
        }
    }

    /// The wire tag.
    pub fn to_u8(self) -> (res: u8)
        ensures
            res == self.spec_to_u8(),
    {
        match self {
            ParameterType::U8 => 0,
            ParameterType::I8 => 1,
            ParameterType::F32 => 2,
            ParameterType::I32 => 3,
            ParameterType::U32 => 4,
            ParameterType::Position => 5,
            ParameterType::Action => 6,
        }
    }
}

/// The parameter type a wire tag denotes, if any.
pub open spec fn spec_type_from_u8(value: u8) -> Option<ParameterType> {
    if value == 0 {
        Some(ParameterType::U8)
    } else if value == 1 {
        Some(ParameterType::I8)
    } else if value == 2 {
        Some(ParameterType::F32)
    } else if value == 3 {
        Some(ParameterType::I32)
    } else if value == 4 {
        Some(ParameterType::U32)
    } else if value == 5 {
        Some(ParameterType::Position)
    } else if value == 6 {
        Some(ParameterType::Action)
    } else {
        None
    }
}

impl TryFrom<u8> for ParameterType {
    type Error = u8;

    fn try_from(value: u8) -> (res: Result<ParameterType, u8>) {
        match value {
            0 => Ok(ParameterType::U8),
            1 => Ok(ParameterType::I8),
            2 => Ok(ParameterType::F32),
            3 => Ok(ParameterType::I32),
            4 => Ok(ParameterType::U32),
            5 => Ok(ParameterType::Position),
            6 => Ok(ParameterType::Action),
            other => Err(other),
        }
    }
}

impl TryFromSpecImpl<u8> for ParameterType {
    open spec fn obeys_try_from_spec() -> bool {
        true
    }

    open spec fn try_from_spec(value: u8) -> Result<ParameterType, u8> {
        match spec_type_from_u8(value) {
            Some(ty) => Ok(ty),
            None => Err(value),
        }
    }
}

/// A multi-turn position: whole turns and the angle within the turn.
///
/// The angle is an IEEE-754 single-precision value carried as its bit pattern.
#[derive(Debug, Clone, Copy, PartialEq, Eq, Structural)]
pub struct PositionValue {
    pub turns: i32,
    pub theta: u32,
}

/// A typed parameter value. `F32` and the angle of `Position` carry the
/// IEEE-754 bit pattern of the single-precision value.
#[derive(Debug, Clone, Copy, PartialEq, Eq, Structural)]
pub enum ParameterValue {
    U8(u8),
    I8(i8),
    F32(u32),
    I32(i32),
    U32(u32),
    Position(PositionValue),
}

impl ParameterValue {
    pub open spec fn spec_parameter_type(self) -> ParameterType {
        match self {
            ParameterValue::U8(_) => ParameterType::U8,
            ParameterValue::I8(_) => ParameterType::I8,
            ParameterValue::F32(_) => ParameterType::F32,
            ParameterValue::I32(_) => ParameterType::I32,
            ParameterValue::U32(_) => ParameterType::U32,
            ParameterValue::Position(_) => ParameterType::Position,
        }
    }

    pub fn parameter_type(self) -> (res: ParameterType)
        ensures
            res == self.spec_parameter_type(),
    {
        match self {
            ParameterValue::U8(_) => ParameterType::U8,
            ParameterValue::I8(_) => ParameterType::I8,
            ParameterValue::F32(_) => ParameterType::F32,
            ParameterValue::I32(_) => ParameterType::I32,
            ParameterValue::U32(_) => ParameterType::U32,
            ParameterValue::Position(_) => ParameterType::Position,
        }
    }
}

#[derive(Debug, Clone, Copy, PartialEq, Eq, Structural)]
#[allow(inconsistent_fields)]
pub enum ParameterError {
    Frame(CanFdError),
    InvalidLength,
    IdMismatch { expected: u16, actual: u16 },
    UnknownType(u8),
    TypeMismatch { expected: ParameterType, actual: ParameterType },
    Status(AxdrStatus),
}

/// Little-endian bytes of a `u32`.
pub open spec fn le_bytes_u32(x: u32) -> Seq<u8> {
    seq![(x % 256) as u8, ((x / 256) % 256) as u8, ((x / 65536) % 256) as u8, (x / 16777216) as u8]
}

/// The wire bytes of a value, without its type tag.
pub open spec fn encode_value(value: ParameterValue) -> Seq<u8> {
    match value {
        ParameterValue::U8(v) => seq![v],
        ParameterValue::I8(v) => seq![v as u8],
        ParameterValue::F32(v) => le_bytes_u32(v),
        ParameterValue::I32(v) => le_bytes_u32(v as u32),
        ParameterValue::U32(v) => le_bytes_u32(v),
        ParameterValue::Position(p) => le_bytes_u32(p.turns as u32) + le_bytes_u32(p.theta),
    }
}

/// A `u32` read little-endian from the first four bytes.
pub open spec fn le_u32_at(data: Seq<u8>, at: int) -> u32 {
    le_u32(data[at], data[at + 1], data[at + 2], data[at + 3])
}

/// The value a type tag and the bytes that follow it decode to.
pub open spec fn decode_value(ty: ParameterType, data: Seq<u8>) -> Result<ParameterValue, ParameterError> {
    match ty {
        ParameterType::U8 => if data.len() >= 1 {
            Ok(ParameterValue::U8(data[0]))
        } else {
            Err(ParameterError::InvalidLength)
        },
        ParameterType::I8 => if data.len() >= 1 {
            Ok(ParameterValue::I8(data[0] as i8))
        } else {
            Err(ParameterError::InvalidLength)
        },
        ParameterType::F32 => if data.len() >= 4 {
            Ok(ParameterValue::F32(le_u32_at(data, 0)))
        } else {
            Err(ParameterError::InvalidLength)
        },
        ParameterType::I32 => if data.len() >= 4 {
            Ok(ParameterValue::I32(le_u32_at(data, 0) as i32))
        } else {
            Err(ParameterError::InvalidLength)
        },
        ParameterType::U32 => if data.len() >= 4 {
            Ok(ParameterValue::U32(le_u32_at(data, 0)))
        } else {
            Err(ParameterError::InvalidLength)
        },
        ParameterType::Position => if data.len() >= 8 {
            Ok(
                ParameterValue::Position(
                    PositionValue { turns: le_u32_at(data, 0) as i32, theta: le_u32_at(data, 4) },
                ),
            )
        } else {
            Err(ParameterError::InvalidLength)
        },
        ParameterType::Action => Err(ParameterError::InvalidLength),
    }
}

/// The request payload that reads parameter `parameter_id`.
pub open spec fn read_payload(txn: u8, parameter_id: u16) -> Seq<u8> {
    seq![txn, PARAM_READ, lo_byte(parameter_id), hi_byte(parameter_id)]
}

/// The request payload that writes `value` to parameter `parameter_id`.
pub open spec fn write_payload(txn: u8, parameter_id: u16, value: ParameterValue) -> Seq<u8> {
    seq![txn, PARAM_WRITE, lo_byte(parameter_id), hi_byte(parameter_id), value.spec_parameter_type().spec_to_u8()]
        + encode_value(value)
}

/// Builds the request that reads parameter `parameter_id` from `node_id`.
pub fn build_parameter_read(txn: TransactionId, parameter_id: u16, node_id: u8) -> (res: Result<CanFdFrame, ParameterError>)
    ensures
        res matches Ok(frame) && frame@.id == spec_can_id(MSG_PARAMETER, node_id) && frame@.data
            == read_payload(txn@, parameter_id),
{
    let payload = vec![txn.get(), PARAM_READ, (parameter_id % 256) as u8, (parameter_id / 256) as u8];
    match CanFdFrame::new(can_id(MSG_PARAMETER, node_id), payload.as_slice()) {
        Ok(frame) => {
            assert(payload@ + zeros(0) =~= read_payload(txn@, parameter_id));
            Ok(frame)
        },
        Err(error) => Err(ParameterError::Frame(error)),
    }
}

pub fn build_parameter_read_default(txn: TransactionId, parameter_id: u16) -> (res: Result<CanFdFrame, ParameterError>)
    ensures
        res matches Ok(frame) && frame@.id == spec_can_id(MSG_PARAMETER, NODE_ID_DEFAULT) && frame@.data
            == read_payload(txn@, parameter_id),
{
    build_parameter_read(txn, parameter_id, NODE_ID_DEFAULT)
}

fn push_le_u32(out: &mut Vec<u8>, x: u32)
    ensures
        final(out)@ == old(out)@ + le_bytes_u32(x),
{
    out.push((x % 256) as u8);
    out.push(((x / 256) % 256) as u8);
    out.push(((x / 65536) % 256) as u8);
    out.push((x / 16777216) as u8);
    assert(out@ =~= old(out)@ + le_bytes_u32(x));
}

fn encode(value: ParameterValue, out: &mut Vec<u8>)
    ensures
        final(out)@ == old(out)@ + encode_value(value),
{
    match value {
        ParameterValue::U8(v) => {
            out.push(v);
            assert(out@ =~= old(out)@ + encode_value(value));
        },
        ParameterValue::I8(v) => {
            out.push(v as u8);
            assert(out@ =~= old(out)@ + encode_value(value));
        },
        ParameterValue::F32(v) => push_le_u32(out, v),
        ParameterValue::I32(v) => push_le_u32(out, v as u32),
        ParameterValue::U32(v) => push_le_u32(out, v),
        ParameterValue::Position(p) => {
            push_le_u32(out, p.turns as u32);
            push_le_u32(out, p.theta);
            assert(out@ =~= old(out)@ + encode_value(value));
        },
    }
}

/// Builds the request that writes `value` to parameter `parameter_id` on `node_id`.
pub fn build_parameter_write(txn: TransactionId, parameter_id: u16, value: ParameterValue, node_id: u8) -> (res:
    Result<CanFdFrame, ParameterError>)
    ensures
        res matches Ok(frame) && frame@.id == spec_can_id(MSG_PARAMETER, node_id) && frame@.data
            == write_payload(txn@, parameter_id, value) + zeros(
            spec_canonical_len(write_payload(txn@, parameter_id, value).len() as int) - write_payload(
                txn@,
                parameter_id,
                value,
            ).len(),
        ),
{
    let mut payload = vec![
        txn.get(),
        PARAM_WRITE,
        (parameter_id % 256) as u8,
        (parameter_id / 256) as u8,
        value.parameter_type().to_u8(),
    ];
    encode(value, &mut payload);
    assert(payload@ =~= write_payload(txn@, parameter_id, value));
    match CanFdFrame::new(can_id(MSG_PARAMETER, node_id), payload.as_slice()) {
        Ok(frame) => Ok(frame),
        Err(error) => Err(ParameterError::Frame(error)),
    }
}

fn decode(ty: ParameterType, data: &[u8], at: usize) -> (res: Result<ParameterValue, ParameterError>)
    requires
        at <= data@.len(),
    ensures
        res == decode_value(ty, data@.skip(at as int)),
{
    let n = data.len() - at;
    let ghost rest = data@.skip(at as int);
    match ty {
        ParameterType::U8 => if n >= 1 {
            Ok(ParameterValue::U8(data[at]))
        } else {
            Err(ParameterError::InvalidLength)
        },
        ParameterType::I8 => if n >= 1 {
            Ok(ParameterValue::I8(data[at] as i8))
        } else {
            Err(ParameterError::InvalidLength)
        },
        ParameterType::F32 => if n >= 4 {
            Ok(ParameterValue::F32(read_le_u32(data[at], data[at + 1], data[at + 2], data[at + 3])))
        } else {
            Err(ParameterError::InvalidLength)
        },
        ParameterType::I32 => if n >= 4 {
            Ok(ParameterValue::I32(read_le_u32(data[at], data[at + 1], data[at + 2], data[at + 3]) as i32))
        } else {
            Err(ParameterError::InvalidLength)
        },
        ParameterType::U32 => if n >= 4 {
            Ok(ParameterValue::U32(read_le_u32(data[at], data[at + 1], data[at + 2], data[at + 3])))
        } else {
            Err(ParameterError::InvalidLength)
        },
        ParameterType::Position => if n >= 8 {
            let turns = read_le_u32(data[at], data[at + 1], data[at + 2], data[at + 3]) as i32;
            let theta = read_le_u32(data[at + 4], data[at + 5], data[at + 6], data[at + 7]);
            Ok(ParameterValue::Position(PositionValue { turns, theta }))
        } else {
            Err(ParameterError::InvalidLength)
        },
        ParameterType::Action => Err(ParameterError::InvalidLength),
    }
}

/// What a read response yields, given the parameter and type that were asked for.
pub open spec fn spec_parameter_read(response: ResponseFrame, parameter_id: u16, expected_type: ParameterType) -> Result<
    ParameterValue,
    ParameterError,
> {
    let data = response.data@;
    if response.status != AxdrStatus::Success {
        Err(ParameterError::Status(response.status))
    } else if data.len() < 3 {
        Err(ParameterError::InvalidLength)
    } else if le_u16(data[0], data[1]) != parameter_id {
        Err(ParameterError::IdMismatch { expected: parameter_id, actual: le_u16(data[0], data[1]) })
    } else {
        match spec_type_from_u8(data[2]) {
            None => Err(ParameterError::UnknownType(data[2])),
            Some(actual) => if actual != expected_type {
                Err(ParameterError::TypeMismatch { expected: expected_type, actual })
            } else {
                decode_value(actual, data.skip(3))
            },
        }
    }
}

/// Decodes the value of a parameter-read response.
pub fn parse_parameter_read(response: &ResponseFrame, parameter_id: u16, expected_type: ParameterType) -> (res: Result<
    ParameterValue,
    ParameterError,
>)
    ensures
        res == spec_parameter_read(*response, parameter_id, expected_type),
{
    if response.status != AxdrStatus::Success {
        return Err(ParameterError::Status(response.status));
    }
    let data = &response.data;
    if data.len() < 3 {
        return Err(ParameterError::InvalidLength);
    }
    let actual_id = read_le_u16(data[0], data[1]);
    if actual_id != parameter_id {
        return Err(ParameterError::IdMismatch { expected: parameter_id, actual: actual_id });
    }
    let actual_type = match ParameterType::try_from(data[2]) {
        Ok(ty) => ty,
        Err(value) => return Err(ParameterError::UnknownType(value)),
    };
    if actual_type != expected_type {
        return Err(ParameterError::TypeMismatch { expected: expected_type, actual: actual_type });
    }
    decode(actual_type, data.as_slice(), 3)
}

/// What a write response says, given the parameter that was written.
pub open spec fn spec_parameter_write(response: ResponseFrame, parameter_id: u16) -> Result<(), ParameterError> {
    let data = response.data@;
    if response.status != AxdrStatus::Success {
        Err(ParameterError::Status(response.status))
    } else if data.len() < 2 {
        Err(ParameterError::InvalidLength)
    } else if le_u16(data[0], data[1]) != parameter_id {
        Err(ParameterError::IdMismatch { expected: parameter_id, actual: le_u16(data[0], data[1]) })
    } else {
        Ok(())
    }
}

/// Checks a parameter-write response.
pub fn parse_parameter_write(response: &ResponseFrame, parameter_id: u16) -> (res: Result<(), ParameterError>)
    ensures
        res == spec_parameter_write(*response, parameter_id),
{
    if response.status != AxdrStatus::Success {
        return Err(ParameterError::Status(response.status));
    }
    if response.data.len() < 2 {
        return Err(ParameterError::InvalidLength);
    }
    let actual_id = read_le_u16(response.data[0], response.data[1]);
    if actual_id != parameter_id {
        return Err(ParameterError::IdMismatch { expected: parameter_id, actual: actual_id });
    }
    Ok(())
}

proof fn lemma_le_u32_round_trip(x: u32, rest: Seq<u8>)
    ensures
        le_u32_at(le_bytes_u32(x) + rest, 0) == x,
{
    let s = le_bytes_u32(x) + rest;
    assert(s[0] == (x % 256) as u8);
    assert(s[1] == ((x / 256) % 256) as u8);
    assert(s[2] == ((x / 65536) % 256) as u8);
    assert(s[3] == (x / 16777216) as u8);
}

/// The bytes a value is written as decode, under its own type tag, to the same
/// value, whatever follows them (a write followed by a read returns the value).
pub proof fn lemma_value_round_trip(value: ParameterValue, rest: Seq<u8>)
    ensures
        decode_value(value.spec_parameter_type(), encode_value(value) + rest) == Ok::<ParameterValue, ParameterError>(value),
        spec_type_from_u8(value.spec_parameter_type().spec_to_u8()) == Some(value.spec_parameter_type()),
{
    match value {
        ParameterValue::U8(v) => {},
        ParameterValue::I8(v) => {
            assert((v as u8) as i8 == v) by (bit_vector);
        },
        ParameterValue::F32(v) => lemma_le_u32_round_trip(v, rest),
        ParameterValue::I32(v) => {
            lemma_le_u32_round_trip(v as u32, rest);
            assert((v as u32) as i32 == v) by (bit_vector);
        },
        ParameterValue::U32(v) => lemma_le_u32_round_trip(v, rest),
        ParameterValue::Position(p) => {
            let t = p.turns as u32;
            lemma_le_u32_round_trip(t, le_bytes_u32(p.theta) + rest);
            assert(le_bytes_u32(t) + le_bytes_u32(p.theta) + rest =~= le_bytes_u32(t) + (le_bytes_u32(p.theta) + rest));
            let s = le_bytes_u32(t) + le_bytes_u32(p.theta) + rest;
            lemma_le_u32_round_trip(p.theta, rest);
            assert(s.skip(4) =~= le_bytes_u32(p.theta) + rest);
            assert(le_u32_at(s, 4) == le_u32_at(s.skip(4), 0));
            let turns = p.turns;
            assert((turns as u32) as i32 == turns) by (bit_vector);
        },
    }
}

} // verus!
