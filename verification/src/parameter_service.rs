//! Which firmware-computed parameters must be reread after a write: the
//! dependency table shared by every client of the parameter service.

use vstd::prelude::*;

use std::collections::HashMap;

use crate::protocol::{ParameterType, ParameterValue};
use crate::schema::{HostSchema, ParameterMetadata, SchemaError};
use crate::text::same_text;
use crate::session::SessionError;

verus! {

use vstd::string::StringSliceAdditionalSpecFns;

broadcast use vstd::std_specs::hash::group_hash_axioms;

#[derive(Debug)]
pub enum ParameterServiceError {
    UnknownParameter(u16),
    ReadOnly(u16),
    TypeMismatch { id: u16, expected: ParameterType, actual: ParameterType },
    CachePoisoned,
    CachedReadFailed { id: u16, message: String },
    CacheMissing(u16),
    ReadbackFailed { id: u16, details: String },
    OutOfRange { id: u16, value: String },
    NotAllowed { id: u16, value: String },
    InvalidWriteState { id: u16, state: String },
    UnsupportedWriteState(String),
    Schema(SchemaError),
    Session(SessionError),
}

/// The symbol's bytes are exactly `lit`.
pub open spec fn sym_is(s: Seq<u8>, lit: &str) -> bool {
    s == lit.spec_bytes()
}

/// The symbol's bytes start with `lit`.
pub open spec fn sym_starts(s: Seq<u8>, lit: &str) -> bool {
    s.len() >= lit.spec_bytes().len() && s.take(lit.spec_bytes().len() as int) == lit.spec_bytes()
}

/// Current-loop tuning symbols.
pub open spec fn in_current(s: Seq<u8>) -> bool {
    ||| sym_is(s, "PARAM_CTRL_CURRENT_BW_HZ")
    ||| sym_is(s, "PARAM_CTRL_CURRENT_SOURCE")
    ||| sym_is(s, "PARAM_CTRL_ID_KP")
    ||| sym_is(s, "PARAM_CTRL_ID_KI")
    ||| sym_is(s, "PARAM_CTRL_IQ_KP")
    ||| sym_is(s, "PARAM_CTRL_IQ_KI")
}

/// Speed-loop tuning symbols.
pub open spec fn in_speed(s: Seq<u8>) -> bool {
    ||| sym_is(s, "PARAM_CTRL_SPEED_BW_HZ")
    ||| sym_is(s, "PARAM_CTRL_SPEED_SOURCE")
    ||| sym_is(s, "PARAM_CTRL_SPEED_KP")
    ||| sym_is(s, "PARAM_CTRL_SPEED_KI")
}

/// Motor model symbols.
pub open spec fn in_model(s: Seq<u8>) -> bool {
    ||| sym_is(s, "PARAM_MOTOR_PP")
    ||| sym_is(s, "PARAM_MOTOR_RS")
    ||| sym_is(s, "PARAM_MOTOR_LD")
    ||| sym_is(s, "PARAM_MOTOR_LQ")
    ||| sym_is(s, "PARAM_MOTOR_FLUX")
    ||| sym_is(s, "PARAM_MOTOR_J")
    ||| sym_is(s, "PARAM_MOTOR_B")
}

/// Writing the parameter named `w` changes what the firmware reports for the
/// parameter named `c` (both as UTF-8 bytes).
pub open spec fn related(w: Seq<u8>, c: Seq<u8>) -> bool {
    ||| (in_current(w) && in_current(c))
    ||| (in_speed(w) && in_speed(c))
    ||| (in_model(w) && (sym_starts(c, "PARAM_CTRL_") || sym_starts(c, "PARAM_LIMIT_")))
    ||| (sym_starts(w, "PARAM_LIMIT_") && sym_starts(c, "PARAM_LIMIT_"))
    ||| (sym_is(w, "PARAM_MOTION_WM_MAX") && sym_is(c, "PARAM_LIMIT_WM_EFFECTIVE"))
    ||| (sym_is(w, "PARAM_MOTOR_PP") && sym_is(c, "PARAM_CAL_VALID"))
    ||| ((sym_starts(w, "PARAM_ENCODER_") || sym_is(w, "PARAM_MOTOR_DIR")) && (sym_starts(c, "PARAM_ENCODER_")
        || sym_is(c, "PARAM_CAL_VALID") || sym_is(c, "PARAM_RUN_POSITION") || sym_is(c, "PARAM_RUN_WM")))
    ||| (sym_is(w, "PARAM_MOTOR_MODE") && (sym_is(c, "PARAM_MOTOR_STATE") || sym_starts(c, "PARAM_TARGET_")))
}

fn is(s: &[u8], lit: &str) -> (res: bool)
    ensures
        res == sym_is(s@, lit),
{
    let t = lit.as_bytes();
    if s.len() != t.len() {
        return false;
    }
    let mut i: usize = 0;
    while i < s.len()
        invariant
            i <= s@.len(),
            s@.len() == t@.len(),
            t@ == lit.spec_bytes(),
            s@.take(i as int) == t@.take(i as int),
        decreases s@.len() - i,
    {
        if s[i] != t[i] {
            assert(s@[i as int] != t@[i as int]);
            return false;
        }
        i = i + 1;
        assert(s@.take(i as int) == t@.take(i as int)) by {
            assert forall|k: int| 0 <= k < i implies s@.take(i as int)[k] == t@.take(i as int)[k] by {
                if k < i - 1 {
                    assert(s@.take(i - 1)[k] == t@.take(i - 1)[k]);
                }
            }
        }
    }
    assert(s@ == s@.take(s@.len() as int));
    assert(t@ == t@.take(t@.len() as int));
    true
}

pub(crate) fn starts(s: &[u8], lit: &str) -> (res: bool)
    ensures
        res == sym_starts(s@, lit),
{
    let t = lit.as_bytes();
    if s.len() < t.len() {
        return false;
    }
    let mut i: usize = 0;
    while i < t.len()
        invariant
            i <= t@.len(),
            t@.len() <= s@.len(),
            t@ == lit.spec_bytes(),
            s@.take(i as int) == t@.take(i as int),
        decreases t@.len() - i,
    {
        if s[i] != t[i] {
            assert(s@.take(t@.len() as int)[i as int] != t@[i as int]);
            return false;
        }
        i = i + 1;
        assert(s@.take(i as int) == t@.take(i as int)) by {
            assert forall|k: int| 0 <= k < i implies s@.take(i as int)[k] == t@.take(i as int)[k] by {
                if k < i - 1 {
                    assert(s@.take(i - 1)[k] == t@.take(i - 1)[k]);
                }
            }
        }
    }
    assert(t@ == t@.take(t@.len() as int));
    true
}

fn is_current(s: &[u8]) -> (res: bool)
    ensures
        res == in_current(s@),
{
    is(s, "PARAM_CTRL_CURRENT_BW_HZ") || is(s, "PARAM_CTRL_CURRENT_SOURCE") || is(s, "PARAM_CTRL_ID_KP") || is(
        s,
        "PARAM_CTRL_ID_KI",
    ) || is(s, "PARAM_CTRL_IQ_KP") || is(s, "PARAM_CTRL_IQ_KI")
}

fn is_speed(s: &[u8]) -> (res: bool)
    ensures
        res == in_speed(s@),
{
    is(s, "PARAM_CTRL_SPEED_BW_HZ") || is(s, "PARAM_CTRL_SPEED_SOURCE") || is(s, "PARAM_CTRL_SPEED_KP") || is(
        s,
        "PARAM_CTRL_SPEED_KI",
    )
}

fn is_model(s: &[u8]) -> (res: bool)
    ensures
        res == in_model(s@),
{
    is(s, "PARAM_MOTOR_PP") || is(s, "PARAM_MOTOR_RS") || is(s, "PARAM_MOTOR_LD") || is(s, "PARAM_MOTOR_LQ")
        || is(s, "PARAM_MOTOR_FLUX") || is(s, "PARAM_MOTOR_J") || is(s, "PARAM_MOTOR_B")
}

/// Whether a write of the parameter named `written` must be followed by a
/// reread of the parameter named `candidate`. The firmware owns these
/// calculations; the host only rereads their outputs.
pub fn related_parameter(written: &str, candidate: &str) -> (res: bool)
    ensures
        res == related(written.spec_bytes(), candidate.spec_bytes()),
{
    let w = written.as_bytes();
    let c = candidate.as_bytes();
    (is_current(w) && is_current(c)) || (is_speed(w) && is_speed(c)) || (is_model(w) && (starts(
        c,
        "PARAM_CTRL_",
    ) || starts(c, "PARAM_LIMIT_"))) || (starts(w, "PARAM_LIMIT_") && starts(c, "PARAM_LIMIT_")) || (is(
        w,
        "PARAM_MOTION_WM_MAX",
    ) && is(c, "PARAM_LIMIT_WM_EFFECTIVE")) || (is(w, "PARAM_MOTOR_PP") && is(c, "PARAM_CAL_VALID")) || ((starts(
        w,
        "PARAM_ENCODER_",
    ) || is(w, "PARAM_MOTOR_DIR")) && (starts(c, "PARAM_ENCODER_") || is(c, "PARAM_CAL_VALID") || is(
        c,
        "PARAM_RUN_POSITION",
    ) || is(c, "PARAM_RUN_WM"))) || (is(w, "PARAM_MOTOR_MODE") && (is(c, "PARAM_MOTOR_STATE") || starts(
        c,
        "PARAM_TARGET_",
    )))
}

/// Rereading is symmetric within each tuning loop: a write of any current-loop
/// (or speed-loop) symbol rereads every other symbol of the same loop.
pub proof fn lemma_loop_tuning_is_symmetric(w: Seq<u8>, c: Seq<u8>)
    requires
        (in_current(w) && in_current(c)) || (in_speed(w) && in_speed(c)),
    ensures
        related(w, c),
        related(c, w),
{
}

/// A write of any of the speed-loop symbols PARAM_CTRL_SPEED_BW_HZ,
/// PARAM_CTRL_SPEED_SOURCE, PARAM_CTRL_SPEED_KP and PARAM_CTRL_SPEED_KI
/// rereads each of the four.
pub proof fn lemma_speed_loop_rereads_its_gains(w: Seq<u8>, c: Seq<u8>)
    requires
        w == "PARAM_CTRL_SPEED_BW_HZ".spec_bytes() || w == "PARAM_CTRL_SPEED_SOURCE".spec_bytes() || w
            == "PARAM_CTRL_SPEED_KP".spec_bytes() || w == "PARAM_CTRL_SPEED_KI".spec_bytes(),
        c == "PARAM_CTRL_SPEED_BW_HZ".spec_bytes() || c == "PARAM_CTRL_SPEED_SOURCE".spec_bytes() || c
            == "PARAM_CTRL_SPEED_KP".spec_bytes() || c == "PARAM_CTRL_SPEED_KI".spec_bytes(),
    ensures
        related(w, c),
{
}

/// A write of any of the current-loop symbols PARAM_CTRL_CURRENT_BW_HZ,
/// PARAM_CTRL_CURRENT_SOURCE, PARAM_CTRL_ID_KP, PARAM_CTRL_ID_KI,
/// PARAM_CTRL_IQ_KP and PARAM_CTRL_IQ_KI rereads each of the six.
pub proof fn lemma_current_loop_rereads_its_gains(w: Seq<u8>, c: Seq<u8>)
    requires
        w == "PARAM_CTRL_CURRENT_BW_HZ".spec_bytes() || w == "PARAM_CTRL_CURRENT_SOURCE".spec_bytes() || w
            == "PARAM_CTRL_ID_KP".spec_bytes() || w == "PARAM_CTRL_ID_KI".spec_bytes() || w
            == "PARAM_CTRL_IQ_KP".spec_bytes() || w == "PARAM_CTRL_IQ_KI".spec_bytes(),
        c == "PARAM_CTRL_CURRENT_BW_HZ".spec_bytes() || c == "PARAM_CTRL_CURRENT_SOURCE".spec_bytes() || c
            == "PARAM_CTRL_ID_KP".spec_bytes() || c == "PARAM_CTRL_ID_KI".spec_bytes() || c
            == "PARAM_CTRL_IQ_KP".spec_bytes() || c == "PARAM_CTRL_IQ_KI".spec_bytes(),
    ensures
        related(w, c),
{
}

/// A write of any motor-model symbol (PARAM_MOTOR_PP, _RS, _LD, _LQ, _FLUX,
/// _J, _B) rereads every controller and limit parameter.
pub proof fn lemma_model_rereads_controller(w: Seq<u8>, c: Seq<u8>)
    requires
        w == "PARAM_MOTOR_PP".spec_bytes() || w == "PARAM_MOTOR_RS".spec_bytes() || w == "PARAM_MOTOR_LD".spec_bytes()
            || w == "PARAM_MOTOR_LQ".spec_bytes() || w == "PARAM_MOTOR_FLUX".spec_bytes() || w
            == "PARAM_MOTOR_J".spec_bytes() || w == "PARAM_MOTOR_B".spec_bytes(),
        sym_starts(c, "PARAM_CTRL_") || sym_starts(c, "PARAM_LIMIT_"),
    ensures
        related(w, c),
{
}

/// The other rereads a write calls for: a limit rereads every limit; the
/// speed limit PARAM_MOTION_WM_MAX rereads PARAM_LIMIT_WM_EFFECTIVE; the pole
/// pairs PARAM_MOTOR_PP reread PARAM_CAL_VALID; an encoder setting or
/// PARAM_MOTOR_DIR rereads the encoder settings, PARAM_CAL_VALID,
/// PARAM_RUN_POSITION and PARAM_RUN_WM; PARAM_MOTOR_MODE rereads
/// PARAM_MOTOR_STATE and every target.
pub proof fn lemma_derived_rereads(w: Seq<u8>, c: Seq<u8>)
    ensures
        sym_starts(w, "PARAM_LIMIT_") && sym_starts(c, "PARAM_LIMIT_") ==> related(w, c),
        w == "PARAM_MOTION_WM_MAX".spec_bytes() && c == "PARAM_LIMIT_WM_EFFECTIVE".spec_bytes() ==> related(w, c),
        w == "PARAM_MOTOR_PP".spec_bytes() && c == "PARAM_CAL_VALID".spec_bytes() ==> related(w, c),
        (sym_starts(w, "PARAM_ENCODER_") || w == "PARAM_MOTOR_DIR".spec_bytes()) && (sym_starts(c, "PARAM_ENCODER_")
            || c == "PARAM_CAL_VALID".spec_bytes() || c == "PARAM_RUN_POSITION".spec_bytes() || c
            == "PARAM_RUN_WM".spec_bytes()) ==> related(w, c),
        w == "PARAM_MOTOR_MODE".spec_bytes() && (c == "PARAM_MOTOR_STATE".spec_bytes() || sym_starts(
            c,
            "PARAM_TARGET_",
        )) ==> related(w, c),
{
}

/// The text holds the ASCII byte `b`.
pub open spec fn text_has(t: Seq<char>, b: u8) -> bool {
    vstd::utf8::encode_utf8(t).contains(b)
}

pub(crate) fn has_byte(t: &str, b: u8) -> (res: bool)
    ensures
        res == t.spec_bytes().contains(b),
{
    let bytes = t.as_bytes();
    let mut i: usize = 0;
    while i < bytes.len()
        invariant
            i <= bytes@.len(),
            bytes@ == t.spec_bytes(),
            forall|k: int| 0 <= k < i ==> bytes@[k] != b,
        decreases bytes@.len() - i,
    {
        if bytes[i] == b {
            assert(bytes@[i as int] == b);
            return true;
        }
        i = i + 1;
    }
    false
}

/// The parameter can be read (its access text holds `r`).
pub open spec fn readable(m: ParameterMetadata) -> bool {
    text_has(m.access@, 0x72)
}

/// The parameter can be written (its access text holds `w`).
pub open spec fn writable(m: ParameterMetadata) -> bool {
    text_has(m.access@, 0x77)
}

/// The readable parameters other than `id` whose value the firmware derives
/// from the parameter named `symbol`, in schema order.
pub open spec fn derived_ids(params: Seq<ParameterMetadata>, id: u16, symbol: Seq<char>) -> Seq<u16>
    decreases params.len(),
{
    if params.len() == 0 {
        Seq::empty()
    } else {
        let m = params.last();
        let rest = derived_ids(params.drop_last(), id, symbol);
        if m.id != id && readable(m) && related(vstd::utf8::encode_utf8(symbol), vstd::utf8::encode_utf8(m.symbol@)) {
            rest.push(m.id)
        } else {
            rest
        }
    }
}

/// The parameters to reread after writing parameter `id`: itself first, then
/// every readable parameter the firmware derives from it.
pub fn readback_ids(schema: &HostSchema, id: u16) -> (res: Result<Vec<u16>, ParameterServiceError>)
    ensures
        match crate::schema::first_parameter_with_id(schema.parameters@, id) {
            None => res matches Err(ParameterServiceError::UnknownParameter(u)) && u == id,
            Some(m) => res matches Ok(ids) && ids@ == seq![id] + derived_ids(schema.parameters@, id, m.symbol@),
        },
{
    let metadata = match schema.parameter_by_id(id) {
        Some(m) => m,
        None => return Err(ParameterServiceError::UnknownParameter(id)),
    };
    let symbol = metadata.symbol.as_str();
    let mut ids: Vec<u16> = vec![id];
    let mut i: usize = 0;
    while i < schema.parameters.len()
        invariant
            i <= schema.parameters@.len(),
            symbol@ == metadata.symbol@,
            ids@ == seq![id] + derived_ids(schema.parameters@.take(i as int), id, symbol@),
        decreases schema.parameters@.len() - i,
    {
        let m = &schema.parameters[i];
        assert(schema.parameters@.take(i as int + 1).drop_last() == schema.parameters@.take(i as int));
        assert(schema.parameters@.take(i as int + 1).last() == *m);
        if m.id != id && has_byte(m.access.as_str(), 0x72) && related_parameter(symbol, m.symbol.as_str()) {
            ids.push(m.id);
            assert(ids@ == seq![id] + derived_ids(schema.parameters@.take(i as int + 1), id, symbol@));
        }
        i = i + 1;
    }
    assert(schema.parameters@.take(schema.parameters@.len() as int) == schema.parameters@);
    Ok(ids)
}

/// Checks a write of `value` to parameter `id` against the schema: the
/// parameter exists, is writable, and has the value's wire type.
pub fn check_write<'a>(schema: &'a HostSchema, id: u16, value: ParameterValue) -> (res: Result<
    &'a ParameterMetadata,
    ParameterServiceError,
>)
    ensures
        match crate::schema::first_parameter_with_id(schema.parameters@, id) {
            None => res matches Err(ParameterServiceError::UnknownParameter(u)) && u == id,
            Some(m) => if !writable(m) {
                res matches Err(ParameterServiceError::ReadOnly(u)) && u == id
            } else {
                match crate::schema::spec_parameter_type(m.value_type@) {
                    None => res matches Err(ParameterServiceError::Schema(SchemaError::UnknownParameterType(t))) && t@
                        == m.value_type@,
                    Some(expected) => if expected != value.spec_parameter_type() {
                        res matches Err(ParameterServiceError::TypeMismatch { id: u, expected: e, actual: a }) && u
                            == id && e == expected && a == value.spec_parameter_type()
                    } else {
                        res matches Ok(r) && *r == m
                    },
                }
            },
        },
{
    let metadata = match schema.parameter_by_id(id) {
        Some(m) => m,
        None => return Err(ParameterServiceError::UnknownParameter(id)),
    };
    if !has_byte(metadata.access.as_str(), 0x77) {
        return Err(ParameterServiceError::ReadOnly(id));
    }
    let expected = match metadata.parameter_type() {
        Ok(t) => t,
        Err(e) => return Err(ParameterServiceError::Schema(e)),
    };
    let actual = value.parameter_type();
    if actual != expected {
        return Err(ParameterServiceError::TypeMismatch { id, expected, actual });
    }
    Ok(metadata)
}

/// Whether a parameter whose schema names `write_state` may be written in
/// motor state `state`: `disabled` needs DISABLED, `not_running` anything but
/// RUN; any other rule is unsupported.
pub fn write_state_allows(write_state: &str, state: u8, disabled: u8, run: u8) -> (res: Result<
    bool,
    ParameterServiceError,
>)
    ensures
        if write_state@ == "disabled"@ {
            res == Ok::<bool, ParameterServiceError>(state == disabled)
        } else if write_state@ == "not_running"@ {
            res == Ok::<bool, ParameterServiceError>(state != run)
        } else {
            res matches Err(ParameterServiceError::UnsupportedWriteState(w)) && w@ == write_state@
        },
{
    if same_text(write_state, "disabled") {
        Ok(state == disabled)
    } else if same_text(write_state, "not_running") {
        Ok(state != run)
    } else {
        Err(ParameterServiceError::UnsupportedWriteState(write_state.to_owned()))
    }
}

/// std's decimal rendering of `n`.
pub open spec fn decimal_text(n: u8) -> Seq<char> {
    let digit = |d: int| (48 + d) as char;
    if n < 10 {
        seq![digit(n as int)]
    } else if n < 100 {
        seq![digit((n / 10) as int), digit((n % 10) as int)]
    } else {
        seq![digit((n / 100) as int), digit(((n / 10) % 10) as int), digit((n % 10) as int)]
    }
}

/// The decimal digits of a byte.
pub(crate) fn u8_text(n: u8) -> (res: String)
    ensures
        res@ == decimal_text(n),
{
    let text = crate::text::decimal(n as u64);
    proof {
        reveal_with_fuel(crate::text::digits, 3);
        let m = n as nat;
        if m >= 10 {
            assert(m / 10 / 10 == m / 100);
        }
    }
    text
}

/// The symbol of motor state `state` for messages: the enum symbol at that
/// position, else the number.
pub fn state_symbol(m: &ParameterMetadata, state: u8) -> (res: String)
    ensures
        (state as int) < m.allowed_symbols@.len() ==> res == m.allowed_symbols@[state as int],
        (state as int) >= m.allowed_symbols@.len() ==> res@ == decimal_text(state),
{
    if (state as usize) < m.allowed_symbols.len() {
        m.allowed_symbols[state as usize].clone()
    } else {
        u8_text(state)
    }
}

/// A cached read result: the value, or the text of the read's failure.
pub type CacheEntry = Result<ParameterValue, String>;

/// The bit pattern of an IEEE-754 single-precision NaN.
pub open spec fn f32_nan(bits: u32) -> bool {
    (bits / 0x80_0000) % 0x100 == 0xff && bits % 0x80_0000 != 0
}

/// IEEE-754 equality of two single-precision values given as bit patterns:
/// a NaN equals nothing, not even itself, and +0 equals -0.
pub open spec fn f32_equal(a: u32, b: u32) -> bool {
    !f32_nan(a) && !f32_nan(b) && (a == b || (a % 0x8000_0000 == 0 && b % 0x8000_0000 == 0))
}

/// Two parameter values are equal as numbers: floating-point parts compare
/// by IEEE-754 equality, everything else exactly.
pub open spec fn value_same(x: ParameterValue, y: ParameterValue) -> bool {
    match (x, y) {
        (ParameterValue::F32(a), ParameterValue::F32(b)) => f32_equal(a, b),
        (ParameterValue::Position(p), ParameterValue::Position(q)) => p.turns == q.turns && f32_equal(
            p.theta,
            q.theta,
        ),
        _ => x == y,
    }
}

/// Two cache entries say the same: equal values, or failures with equal text.
pub open spec fn entry_same(a: CacheEntry, b: CacheEntry) -> bool {
    match (a, b) {
        (Ok(x), Ok(y)) => value_same(x, y),
        (Err(x), Err(y)) => x@ == y@,
        _ => false,
    }
}

/// The entry holds a NaN, which never equals a later read of it.
pub open spec fn entry_has_nan(e: CacheEntry) -> bool {
    match e {
        Ok(ParameterValue::F32(a)) => f32_nan(a),
        Ok(ParameterValue::Position(p)) => f32_nan(p.theta),
        _ => false,
    }
}

proof fn lemma_entry_same_reflexive(e: CacheEntry)
    requires
        !entry_has_nan(e),
    ensures
        entry_same(e, e),
{
}

fn f32_bits_equal(a: u32, b: u32) -> (res: bool)
    ensures
        res == f32_equal(a, b),
{
    let a_nan = (a / 0x80_0000) % 0x100 == 0xff && a % 0x80_0000 != 0;
    let b_nan = (b / 0x80_0000) % 0x100 == 0xff && b % 0x80_0000 != 0;
    !a_nan && !b_nan && (a == b || (a % 0x8000_0000 == 0 && b % 0x8000_0000 == 0))
}

fn same_value(x: &ParameterValue, y: &ParameterValue) -> (res: bool)
    ensures
        res == value_same(*x, *y),
{
    match (x, y) {
        (ParameterValue::F32(a), ParameterValue::F32(b)) => f32_bits_equal(*a, *b),
        (ParameterValue::Position(p), ParameterValue::Position(q)) => p.turns == q.turns && f32_bits_equal(
            p.theta,
            q.theta,
        ),
        (ParameterValue::U8(a), ParameterValue::U8(b)) => *a == *b,
        (ParameterValue::I8(a), ParameterValue::I8(b)) => *a == *b,
        (ParameterValue::I32(a), ParameterValue::I32(b)) => *a == *b,
        (ParameterValue::U32(a), ParameterValue::U32(b)) => *a == *b,
        _ => false,
    }
}

fn same_entry(a: &CacheEntry, b: &CacheEntry) -> (res: bool)
    ensures
        res == entry_same(*a, *b),
{
    match (a, b) {
        (Ok(x), Ok(y)) => same_value(x, y),
        (Err(x), Err(y)) => same_text(x.as_str(), y.as_str()),
        _ => false,
    }
}

/// The cache after storing `entries` in turn into `m`.
pub open spec fn cache_after(m: Map<u16, CacheEntry>, entries: Seq<(u16, CacheEntry)>) -> Map<u16, CacheEntry>
    decreases entries.len(),
{
    if entries.len() == 0 {
        m
    } else {
        let before = cache_after(m, entries.drop_last());
        let (id, entry) = entries.last();
        if before.contains_key(id) && entry_same(before[id], entry) {
            before
        } else {
            before.insert(id, entry)
        }
    }
}

/// The IDs whose entry changed while storing `entries` in turn into `m`,
/// each once, in the order of their first change.
pub open spec fn changed_ids(m: Map<u16, CacheEntry>, entries: Seq<(u16, CacheEntry)>) -> Seq<u16>
    decreases entries.len(),
{
    if entries.len() == 0 {
        Seq::empty()
    } else {
        let before = cache_after(m, entries.drop_last());
        let changed = changed_ids(m, entries.drop_last());
        let (id, entry) = entries.last();
        if (before.contains_key(id) && entry_same(before[id], entry)) || changed.contains(id) {
            changed
        } else {
            changed.push(id)
        }
    }
}

/// No two entries of the group name the same parameter.
pub open spec fn distinct_ids(entries: Seq<(u16, CacheEntry)>) -> bool {
    forall|i: int, j: int| 0 <= i < j < entries.len() ==> entries[i].0 != entries[j].0
}

proof fn lemma_group_stored(m: Map<u16, CacheEntry>, entries: Seq<(u16, CacheEntry)>)
    requires
        distinct_ids(entries),
        forall|k: int| 0 <= k < entries.len() ==> !entry_has_nan(#[trigger] entries[k].1),
    ensures
        forall|k: int|
            0 <= k < entries.len() ==> cache_after(m, entries).contains_key(#[trigger] entries[k].0) && entry_same(
                cache_after(m, entries)[entries[k].0],
                entries[k].1,
            ),
    decreases entries.len(),
{
    if entries.len() > 0 {
        let prefix = entries.drop_last();
        assert(distinct_ids(prefix)) by {
            assert forall|i: int, j: int| 0 <= i < j < prefix.len() implies prefix[i].0 != prefix[j].0 by {
                assert(prefix[i] == entries[i] && prefix[j] == entries[j]);
            }
        }
        assert forall|k: int| 0 <= k < prefix.len() implies !entry_has_nan(#[trigger] prefix[k].1) by {
            assert(prefix[k] == entries[k]);
        }
        lemma_group_stored(m, prefix);
        let before = cache_after(m, prefix);
        let last = entries.last();
        lemma_entry_same_reflexive(last.1);
        assert forall|k: int| 0 <= k < entries.len() implies cache_after(m, entries).contains_key(
            #[trigger] entries[k].0,
        ) && entry_same(cache_after(m, entries)[entries[k].0], entries[k].1) by {
            if k < entries.len() - 1 {
                assert(prefix[k] == entries[k]);
                assert(entries[k].0 != last.0);
            }
        }
    }
}

proof fn lemma_group_unchanged(m: Map<u16, CacheEntry>, entries: Seq<(u16, CacheEntry)>, j: int)
    requires
        0 <= j <= entries.len(),
        forall|k: int|
            0 <= k < entries.len() ==> m.contains_key(#[trigger] entries[k].0) && entry_same(
                m[entries[k].0],
                entries[k].1,
            ),
    ensures
        cache_after(m, entries.take(j)) == m,
        changed_ids(m, entries.take(j)) == Seq::<u16>::empty(),
    decreases j,
{
    if j > 0 {
        lemma_group_unchanged(m, entries, j - 1);
        assert(entries.take(j).drop_last() == entries.take(j - 1));
        assert(entries.take(j).last() == entries[j - 1]);
    }
}

/// Storing the same group of read results twice publishes nothing the second
/// time and leaves the cache as the first time left it, when no parameter
/// occurs twice in the group and no value is a NaN (a NaN never equals the
/// NaN before it, so it is published again).
pub proof fn lemma_repeated_group_publishes_nothing(m: Map<u16, CacheEntry>, entries: Seq<(u16, CacheEntry)>)
    requires
        distinct_ids(entries),
        forall|k: int| 0 <= k < entries.len() ==> !entry_has_nan(#[trigger] entries[k].1),
    ensures
        cache_after(cache_after(m, entries), entries) == cache_after(m, entries),
        changed_ids(cache_after(m, entries), entries) == Seq::<u16>::empty(),
{
    lemma_group_stored(m, entries);
    lemma_group_unchanged(cache_after(m, entries), entries, entries.len() as int);
    assert(entries.take(entries.len() as int) == entries);
}

fn contains_u16(v: &Vec<u16>, x: u16) -> (res: bool)
    ensures
        res == v@.contains(x),
{
    let mut i: usize = 0;
    while i < v.len()
        invariant
            i <= v@.len(),
            forall|k: int| 0 <= k < i ==> v@[k] != x,
        decreases v@.len() - i,
    {
        if v[i] == x {
            assert(v@[i as int] == x);
            return true;
        }
        i = i + 1;
    }
    false
}

/// Stores a group of read results into the shared cache and returns the IDs
/// whose value or failure changed, each once. A failed read replaces a stale
/// value rather than leaving it presented as current.
pub fn update_cache(cache: &mut HashMap<u16, CacheEntry>, entries: Vec<(u16, CacheEntry)>) -> (res: Vec<u16>)
    ensures
        final(cache)@ == cache_after(old(cache)@, entries@),
        res@ == changed_ids(old(cache)@, entries@),
{
    let ghost all = entries@;
    let mut entries = entries;
    let mut changed: Vec<u16> = Vec::new();
    let ghost mut done: int = 0;
    while entries.len() > 0
        invariant
            0 <= done <= all.len(),
            entries@ == all.skip(done),
            cache@ == cache_after(old(cache)@, all.take(done)),
            changed@ == changed_ids(old(cache)@, all.take(done)),
        decreases entries@.len(),
    {
        let (id, entry) = entries.remove(0);
        proof {
            assert(all.take(done + 1).drop_last() == all.take(done));
            assert(all.take(done + 1).last() == all[done]);
            assert(entries@ == all.skip(done + 1));
        }
        let same = match cache.get(&id) {
            Some(current) => same_entry(current, &entry),
            None => false,
        };
        if !same {
            if !contains_u16(&changed, id) {
                changed.push(id);
            }
            cache.insert(id, entry);
        }
        proof {
            done = done + 1;
        }
    }
    assert(all.take(all.len() as int) == all);
    changed
}

/// The read results whose parameter the schema knows, in order.
pub open spec fn known_reads(params: Seq<ParameterMetadata>, reads: Seq<(u16, CacheEntry)>) -> Seq<
    (u16, CacheEntry),
>
    decreases reads.len(),
{
    if reads.len() == 0 {
        Seq::empty()
    } else {
        let before = known_reads(params, reads.drop_last());
        if crate::schema::first_parameter_with_id(params, reads.last().0) is Some {
            before.push(reads.last())
        } else {
            before
        }
    }
}

/// Every kept read names a parameter of the schema.
proof fn lemma_known_reads_known(params: Seq<ParameterMetadata>, reads: Seq<(u16, CacheEntry)>)
    ensures
        forall|k: int|
            0 <= k < known_reads(params, reads).len() ==> crate::schema::first_parameter_with_id(
                params,
                (#[trigger] known_reads(params, reads)[k]).0,
            ) is Some,
    decreases reads.len(),
{
    if reads.len() > 0 {
        lemma_known_reads_known(params, reads.drop_last());
    }
}

/// Storing results leaves the entry of a parameter that none of them names
/// as it was.
pub proof fn lemma_cache_after_untouched(m: Map<u16, CacheEntry>, entries: Seq<(u16, CacheEntry)>, id: u16)
    requires
        forall|k: int| 0 <= k < entries.len() ==> (#[trigger] entries[k]).0 != id,
    ensures
        cache_after(m, entries).contains_key(id) == m.contains_key(id),
        m.contains_key(id) ==> cache_after(m, entries)[id] == m[id],
    decreases entries.len(),
{
    if entries.len() > 0 {
        let prefix = entries.drop_last();
        assert forall|k: int| 0 <= k < prefix.len() implies (#[trigger] prefix[k]).0 != id by {
            assert(prefix[k] == entries[k]);
        }
        lemma_cache_after_untouched(m, prefix, id);
        assert(entries.last() == entries[entries.len() - 1]);
    }
}

/// Stores a group of read results into the cache, leaving out those whose
/// parameter the schema does not know, and returns the IDs whose value or
/// failure changed, each once. The entry of a parameter the schema does not
/// know stays as it was.
pub fn store_reads(schema: &HostSchema, cache: &mut HashMap<u16, CacheEntry>, reads: Vec<(u16, CacheEntry)>) -> (res:
    Vec<u16>)
    ensures
        final(cache)@ == cache_after(old(cache)@, known_reads(schema.parameters@, reads@)),
        res@ == changed_ids(old(cache)@, known_reads(schema.parameters@, reads@)),
        forall|id: u16|
            crate::schema::first_parameter_with_id(schema.parameters@, id) is None ==> (
            #[trigger] final(cache)@.contains_key(id) == old(cache)@.contains_key(id) && (old(
                cache,
            )@.contains_key(id) ==> final(cache)@[id] == old(cache)@[id])),
{
    let ghost all = reads@;
    let ghost params = schema.parameters@;
    let mut reads = reads;
    let mut kept: Vec<(u16, CacheEntry)> = Vec::new();
    let ghost mut done: int = 0;
    while reads.len() > 0
        invariant
            0 <= done <= all.len(),
            params == schema.parameters@,
            reads@ == all.skip(done),
            kept@ == known_reads(params, all.take(done)),
        decreases reads@.len(),
    {
        let (id, entry) = reads.remove(0);
        proof {
            assert(all.take(done + 1).drop_last() == all.take(done));
            assert(all.take(done + 1).last() == all[done]);
            assert(reads@ == all.skip(done + 1));
        }
        if schema.parameter_by_id(id).is_some() {
            kept.push((id, entry));
        }
        proof {
            done = done + 1;
        }
    }
    assert(all.take(all.len() as int) == all);
    let ghost known = kept@;
    let changed = update_cache(cache, kept);
    proof {
        lemma_known_reads_known(params, all);
        assert forall|id: u16| crate::schema::first_parameter_with_id(params, id) is None implies (
        #[trigger] cache@.contains_key(id) == old(cache)@.contains_key(id) && (old(cache)@.contains_key(id)
            ==> cache@[id] == old(cache)@[id])) by {
            assert forall|k: int| 0 <= k < known.len() implies (#[trigger] known[k]).0 != id by {
                assert(crate::schema::first_parameter_with_id(params, known[k].0) is Some);
            }
            lemma_cache_after_untouched(old(cache)@, known, id);
        }
    }
    changed
}

/// What a cache-only read of `id` answers: its cached value, the failure of
/// its last read, or nothing yet; an ID the schema does not know is refused.
pub open spec fn cached_answer_ok(
    params: Seq<ParameterMetadata>,
    cache: Map<u16, CacheEntry>,
    id: u16,
    r: Result<Option<ParameterValue>, ParameterServiceError>,
) -> bool {
    match crate::schema::first_parameter_with_id(params, id) {
        None => r matches Err(ParameterServiceError::UnknownParameter(u)) && u == id,
        Some(_) => if !cache.contains_key(id) {
            r matches Ok(None)
        } else {
            match cache[id] {
                Ok(v) => r matches Ok(Some(w)) && w == v,
                Err(m) => r matches Err(ParameterServiceError::CachedReadFailed { id: i, message }) && i == id
                    && message@ == m@,
            }
        },
    }
}

/// Reads `id` from the cache alone.
pub fn cached(schema: &HostSchema, cache: &HashMap<u16, CacheEntry>, id: u16) -> (res: Result<
    Option<ParameterValue>,
    ParameterServiceError,
>)
    ensures
        cached_answer_ok(schema.parameters@, cache@, id, res),
{
    if schema.parameter_by_id(id).is_none() {
        return Err(ParameterServiceError::UnknownParameter(id));
    }
    match cache.get(&id) {
        Some(Ok(value)) => Ok(Some(*value)),
        Some(Err(message)) => Err(ParameterServiceError::CachedReadFailed { id, message: message.clone() }),
        None => Ok(None),
    }
}

/// A row of a cache-only read of many IDs: like `cached_answer_ok`, with an
/// ID never read reported as missing.
pub open spec fn cached_row_ok(
    params: Seq<ParameterMetadata>,
    cache: Map<u16, CacheEntry>,
    id: u16,
    r: Result<ParameterValue, ParameterServiceError>,
) -> bool {
    match crate::schema::first_parameter_with_id(params, id) {
        None => r matches Err(ParameterServiceError::UnknownParameter(u)) && u == id,
        Some(_) => if !cache.contains_key(id) {
            r matches Err(ParameterServiceError::CacheMissing(u)) && u == id
        } else {
            match cache[id] {
                Ok(v) => r matches Ok(w) && w == v,
                Err(m) => r matches Err(ParameterServiceError::CachedReadFailed { id: i, message }) && i == id
                    && message@ == m@,
            }
        },
    }
}

/// Reads each of `ids` from the cache alone, in order.
pub fn cached_rows(schema: &HostSchema, cache: &HashMap<u16, CacheEntry>, ids: &[u16]) -> (res: Vec<
    (u16, Result<ParameterValue, ParameterServiceError>),
>)
    ensures
        res@.len() == ids@.len(),
        forall|i: int|
            0 <= i < ids@.len() ==> (#[trigger] res@[i]).0 == ids@[i] && cached_row_ok(
                schema.parameters@,
                cache@,
                ids@[i],
                res@[i].1,
            ),
{
    let mut rows: Vec<(u16, Result<ParameterValue, ParameterServiceError>)> = Vec::new();
    let mut i: usize = 0;
    while i < ids.len()
        invariant
            i <= ids@.len(),
            rows@.len() == i,
            forall|k: int|
                0 <= k < i ==> (#[trigger] rows@[k]).0 == ids@[k] && cached_row_ok(
                    schema.parameters@,
                    cache@,
                    ids@[k],
                    rows@[k].1,
                ),
        decreases ids@.len() - i,
    {
        let id = ids[i];
        let row = match cached(schema, cache, id) {
            Ok(Some(value)) => Ok(value),
            Ok(None) => Err(ParameterServiceError::CacheMissing(id)),
            Err(e) => Err(e),
        };
        rows.push((id, row));
        i = i + 1;
    }
    rows
}

} // verus!
