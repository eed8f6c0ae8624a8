//! How the command-line tool names parameters and actions: by schema key,
//! or by a numeric ID in decimal or `0x` hexadecimal.

use vstd::prelude::*;
use vstd::string::StringSliceAdditionalSpecFns;

use crate::mixed_scope::{hex_id, hex_id_text};
use crate::protocol::ParameterType;
use crate::schema::{
    first_action_named, first_action_with_id, first_parameter_named, first_parameter_with_id, opt_ref,
    spec_parameter_type, ActionMetadata, HostSchema, ParameterMetadata, SchemaError,
};
use crate::text::concat;

verus! {

/// `b` is a digit in `radix` (10 or 16).
pub open spec fn is_digit(b: u8, radix: nat) -> bool {
    (0x30 <= b <= 0x39) || (radix == 16 && ((0x41 <= b <= 0x46) || (0x61 <= b <= 0x66)))
}

/// The value of the digit `b`.
pub open spec fn digit_value(b: u8) -> nat {
    if 0x30 <= b <= 0x39 {
        (b - 0x30) as nat
    } else if 0x41 <= b <= 0x46 {
        (b - 0x41 + 10) as nat
    } else {
        (b - 0x61 + 10) as nat
    }
}

/// The number the digits `s` write in `radix`.
pub open spec fn number(s: Seq<u8>, radix: nat) -> nat
    decreases s.len(),
{
    if s.len() == 0 {
        0
    } else {
        number(s.drop_last(), radix) * radix + digit_value(s.last())
    }
}

/// Every byte of `s` is a digit in `radix`.
pub open spec fn all_digits(s: Seq<u8>, radix: nat) -> bool {
    forall|i: int| 0 <= i < s.len() ==> #[trigger] is_digit(s[i], radix)
}

/// std's parse of an unsigned 16-bit number in `radix`: an optional `+`,
/// then at least one digit, and a value that fits.
pub open spec fn spec_parse_radix(s: Seq<u8>, radix: nat) -> Option<u16> {
    let body = if s.len() > 0 && s[0] == 0x2b {
        s.drop_first()
    } else {
        s
    };
    if body.len() > 0 && all_digits(body, radix) && number(body, radix) <= 0xffff {
        Some(number(body, radix) as u16)
    } else {
        None
    }
}

/// An ID as the command line writes it: `0x` or `0X` and hexadecimal
/// digits, else decimal digits.
pub open spec fn spec_parse_u16(s: Seq<u8>) -> Option<u16> {
    if s.len() >= 2 && s[0] == 0x30 && (s[1] == 0x78 || s[1] == 0x58) {
        spec_parse_radix(s.skip(2), 16)
    } else {
        spec_parse_radix(s, 10)
    }
}

/// The value `x`, or 65536 for anything larger.
pub open spec fn capped(x: nat) -> nat {
    if x > 0x1_0000 {
        0x1_0000
    } else {
        x
    }
}

proof fn lemma_capped_step(n: nat, r: nat, d: nat)
    requires
        r >= 1,
    ensures
        capped(n * r + d) == capped(capped(n) * r + d),
{
    if n > 0x1_0000 {
        assert(n * r >= n) by (nonlinear_arith)
            requires
                r >= 1,
        ;
        assert(0x1_0000 * r >= 0x1_0000) by (nonlinear_arith)
            requires
                r >= 1,
        ;
    }
}

fn parse_radix(s: &[u8], radix: u32) -> (res: Option<u16>)
    requires
        radix == 10 || radix == 16,
    ensures
        res == spec_parse_radix(s@, radix as nat),
{
    let start: usize = if s.len() > 0 && s[0] == 0x2b {
        1
    } else {
        0
    };
    let ghost body = if s@.len() > 0 && s@[0] == 0x2b {
        s@.drop_first()
    } else {
        s@
    };
    assert(body == s@.skip(start as int));
    if start >= s.len() {
        return None;
    }
    let mut acc: u32 = 0;
    let mut i: usize = start;
    while i < s.len()
        invariant
            start <= i <= s@.len(),
            body == s@.skip(start as int),
            body == (if s@.len() > 0 && s@[0] == 0x2b {
                s@.drop_first()
            } else {
                s@
            }),
            body.len() > 0,
            radix == 10 || radix == 16,
            all_digits(s@.subrange(start as int, i as int), radix as nat),
            acc == capped(number(s@.subrange(start as int, i as int), radix as nat)),
        decreases s@.len() - i,
    {
        let b = s[i];
        let digit: u32 = if 0x30 <= b && b <= 0x39 {
            (b - 0x30) as u32
        } else if radix == 16 && 0x41 <= b && b <= 0x46 {
            (b - 0x41 + 10) as u32
        } else if radix == 16 && 0x61 <= b && b <= 0x66 {
            (b - 0x61 + 10) as u32
        } else {
            proof {
                assert(body[i - start] == b);
                assert(!is_digit(body[i - start], radix as nat));
                assert(!all_digits(body, radix as nat));
            }
            return None;
        };
        let ghost prefix = s@.subrange(start as int, i as int);
        let ghost next = s@.subrange(start as int, i as int + 1);
        assert(next.drop_last() == prefix);
        assert(next.last() == b);
        proof {
            let n = number(prefix, radix as nat);
            assert(number(next, radix as nat) == n * (radix as nat) + (digit as nat));
            lemma_capped_step(n, radix as nat, digit as nat);
            assert(acc * radix <= 0x1_0000 * 16) by (nonlinear_arith)
                requires
                    acc <= 0x1_0000,
                    radix <= 16,
            ;
        }
        acc = if acc * radix + digit > 0x1_0000 {
            0x1_0000
        } else {
            acc * radix + digit
        };
        i = i + 1;
    }
    assert(s@.subrange(start as int, s@.len() as int) == body);
    if acc > 0xffff {
        None
    } else {
        Some(acc as u16)
    }
}

/// Reads a numeric ID written in decimal or `0x` hexadecimal, as std parses
/// it; `None` when the text is not such a number.
pub fn parse_u16(text: &str) -> (res: Option<u16>)
    ensures
        res == spec_parse_u16(text.spec_bytes()),
{
    let s = text.as_bytes();
    if s.len() >= 2 && s[0] == 0x30 && (s[1] == 0x78 || s[1] == 0x58) {
        let mut rest: Vec<u8> = Vec::new();
        let mut i: usize = 2;
        while i < s.len()
            invariant
                2 <= i <= s@.len(),
                rest@ == s@.subrange(2, i as int),
            decreases s@.len() - i,
        {
            rest.push(s[i]);
            i = i + 1;
        }
        assert(rest@ == s@.skip(2));
        parse_radix(rest.as_slice(), 16)
    } else {
        parse_radix(s, 10)
    }
}

/// The largest magnitude a decimal parse tracks exactly; every bound it is
/// asked for lies below it.
pub const DECIMAL_CAP: u64 = 0x2_0000_0000;

/// The value `x`, or `DECIMAL_CAP` for anything larger.
pub open spec fn capped_decimal(x: nat) -> nat {
    if x > DECIMAL_CAP {
        DECIMAL_CAP as nat
    } else {
        x
    }
}

proof fn lemma_capped_decimal_step(n: nat, d: nat)
    ensures
        capped_decimal(n * 10 + d) == capped_decimal(capped_decimal(n) * 10 + d),
{
}

/// The optional sign and the digits of a decimal integer as std reads it: a
/// leading `+`, or `-` for signed types, then at least one digit.
pub open spec fn spec_parse_decimal(s: Seq<u8>, signed: bool) -> Option<int> {
    let negative = signed && s.len() > 0 && s[0] == 0x2d;
    let body = if s.len() > 0 && (s[0] == 0x2b || negative) {
        s.drop_first()
    } else {
        s
    };
    if body.len() > 0 && all_digits(body, 10) {
        Some(
            if negative {
                -number(body, 10)
            } else {
                number(body, 10) as int
            },
        )
    } else {
        None
    }
}

/// std's `from_str` for an integer type with bounds `min..=max`.
pub open spec fn spec_parse_int(s: Seq<u8>, signed: bool, min: int, max: int) -> Option<int> {
    match spec_parse_decimal(s, signed) {
        Some(v) if min <= v <= max => Some(v),
        _ => None,
    }
}

/// Reads a decimal integer as std's `from_str` does for an integer type
/// whose values are `min..=max`; `signed` types take a leading `-`. `None`
/// when the text is no such number or the number is out of range.
pub fn parse_decimal(text: &str, signed: bool, min: i64, max: i64) -> (res: Option<i64>)
    requires
        min <= 0 <= max,
        max < DECIMAL_CAP,
        -(DECIMAL_CAP as int) < min,
    ensures
        match res {
            Some(v) => spec_parse_int(text.spec_bytes(), signed, min as int, max as int) == Some(v as int),
            None => spec_parse_int(text.spec_bytes(), signed, min as int, max as int) is None,
        },
{
    let s = text.as_bytes();
    let negative = signed && s.len() > 0 && s[0] == 0x2d;
    let start: usize = if s.len() > 0 && (s[0] == 0x2b || negative) {
        1
    } else {
        0
    };
    let ghost body = if s@.len() > 0 && (s@[0] == 0x2b || negative) {
        s@.drop_first()
    } else {
        s@
    };
    assert(body == s@.skip(start as int));
    if start >= s.len() {
        return None;
    }
    let mut acc: u64 = 0;
    let mut i: usize = start;
    while i < s.len()
        invariant
            start <= i <= s@.len(),
            s@ == text.spec_bytes(),
            negative == (signed && s@.len() > 0 && s@[0] == 0x2d),
            body == (if s@.len() > 0 && (s@[0] == 0x2b || negative) {
                s@.drop_first()
            } else {
                s@
            }),
            body == s@.skip(start as int),
            body.len() > 0,
            all_digits(s@.subrange(start as int, i as int), 10),
            acc == capped_decimal(number(s@.subrange(start as int, i as int), 10)),
        decreases s@.len() - i,
    {
        let b = s[i];
        if !(0x30 <= b && b <= 0x39) {
            proof {
                assert(body[i - start] == b);
                assert(!is_digit(body[i - start], 10));
                assert(!all_digits(body, 10));
            }
            return None;
        }
        let digit: u64 = (b - 0x30) as u64;
        let ghost prefix = s@.subrange(start as int, i as int);
        let ghost next = s@.subrange(start as int, i as int + 1);
        assert(next.drop_last() == prefix);
        assert(next.last() == b);
        proof {
            let n = number(prefix, 10);
            assert(number(next, 10) == n * 10 + (digit as nat));
            lemma_capped_decimal_step(n, digit as nat);
        }
        acc = if acc * 10 + digit > DECIMAL_CAP {
            DECIMAL_CAP
        } else {
            acc * 10 + digit
        };
        i = i + 1;
    }
    assert(s@.subrange(start as int, s@.len() as int) == body);
    if acc >= DECIMAL_CAP {
        return None;
    }
    let value: i64 = if negative {
        -(acc as i64)
    } else {
        acc as i64
    };
    if value < min || value > max {
        return None;
    }
    Some(value)
}

/// The numeric ID `key` writes, if any.
pub open spec fn key_id(key: &str) -> Option<u16> {
    spec_parse_u16(key.spec_bytes())
}

/// The name `ParameterType`'s `Debug` prints.
pub open spec fn type_debug_text(t: ParameterType) -> Seq<char> {
    match t {
        ParameterType::U8 => "U8"@,
        ParameterType::I8 => "I8"@,
        ParameterType::F32 => "F32"@,
        ParameterType::I32 => "I32"@,
        ParameterType::U32 => "U32"@,
        ParameterType::Position => "Position"@,
        ParameterType::Action => "Action"@,
    }
}

fn type_debug(t: ParameterType) -> (res: &'static str)
    ensures
        res@ == type_debug_text(t),
{
    match t {
        ParameterType::U8 => "U8",
        ParameterType::I8 => "I8",
        ParameterType::F32 => "F32",
        ParameterType::I32 => "I32",
        ParameterType::U32 => "U32",
        ParameterType::Position => "Position",
        ParameterType::Action => "Action",
    }
}

/// What a parameter argument resolved to.
#[derive(Debug)]
pub struct ResolvedParameter<'a> {
    pub id: u16,
    pub ty: ParameterType,
    pub metadata: Option<&'a ParameterMetadata>,
}

/// Why a command-line argument could not be resolved.
#[derive(Debug)]
pub enum ResolveError {
    Schema(SchemaError),
    Message(String),
}

/// Resolves a parameter argument: by schema key, else by numeric ID in the
/// schema, else (with `--type`) as a raw ID; without a schema only a raw
/// numeric ID with `--type` is accepted.
pub fn resolve_parameter<'a>(
    schema: Option<&'a HostSchema>,
    key: &str,
    type_override: Option<ParameterType>,
) -> (res: Result<ResolvedParameter<'a>, ResolveError>)
    ensures
        match schema {
            Some(s) => match first_parameter_named(s.parameters@, key@) {
                Some(m) => match spec_parameter_type(m.value_type@) {
                    None => res matches Err(ResolveError::Schema(SchemaError::UnknownParameterType(t))) && t@
                        == m.value_type@,
                    Some(ty) => match type_override {
                        Some(o) if o != ty => res matches Err(ResolveError::Message(e)) && e@ == "parameter "@
                            + m.symbol@ + " type mismatch: schema="@ + m.value_type@ + ", CLI="@ + type_debug_text(o),
                        _ => res matches Ok(r) && r.id == m.id && r.ty == ty && opt_ref(r.metadata) == Some(m),
                    },
                },
                None => match key_id(key) {
                    Some(id) => match first_parameter_with_id(s.parameters@, id) {
                        Some(m) => match spec_parameter_type(m.value_type@) {
                            None => res matches Err(ResolveError::Schema(SchemaError::UnknownParameterType(t)))
                                && t@ == m.value_type@,
                            Some(ty) => res matches Ok(r) && r.id == id && r.ty == ty && opt_ref(r.metadata) == Some(m),
                        },
                        None => match type_override {
                            Some(o) => res matches Ok(r) && r.id == id && r.ty == o && r.metadata is None,
                            None => res matches Err(ResolveError::Message(e)) && e@ == "parameter ID "@
                                + hex_id_text(id) + " is not present in the loaded schema; use --type for raw access"@,
                        },
                    },
                    None => res matches Err(ResolveError::Message(e)) && e@ == "unknown parameter key '"@ + key@
                        + "' in loaded schema"@,
                },
            },
            None => match key_id(key) {
                None => res matches Err(ResolveError::Message(e)) && e@ == "parameter '"@ + key@
                    + "' requires --schema; without a schema only numeric IDs are accepted"@,
                Some(id) => match type_override {
                    Some(o) => res matches Ok(r) && r.id == id && r.ty == o && r.metadata is None,
                    None => res matches Err(ResolveError::Message(e)) && e@
                        == "--type is required for raw numeric parameter access without --schema"@,
                },
            },
        },
{
    match schema {
        Some(s) => {
            if let Some(metadata) = s.parameter_by_key(key) {
                let schema_type = match metadata.parameter_type() {
                    Ok(t) => t,
                    Err(e) => return Err(ResolveError::Schema(e)),
                };
                if let Some(o) = type_override {
                    if o != schema_type {
                        let a = concat("parameter ", metadata.symbol.as_str());
                        let b = concat(a.as_str(), " type mismatch: schema=");
                        let c = concat(b.as_str(), metadata.value_type.as_str());
                        let d = concat(c.as_str(), ", CLI=");
                        return Err(ResolveError::Message(concat(d.as_str(), type_debug(o))));
                    }
                }
                return Ok(ResolvedParameter { id: metadata.id, ty: schema_type, metadata: Some(metadata) });
            }
            match parse_u16(key) {
                Some(id) => {
                    if let Some(metadata) = s.parameter_by_id(id) {
                        let ty = match metadata.parameter_type() {
                            Ok(t) => t,
                            Err(e) => return Err(ResolveError::Schema(e)),
                        };
                        return Ok(ResolvedParameter { id, ty, metadata: Some(metadata) });
                    }
                    match type_override {
                        Some(o) => Ok(ResolvedParameter { id, ty: o, metadata: None }),
                        None => {
                            let hex = hex_id(id);
                            let a = concat("parameter ID ", hex.as_str());
                            Err(
                                ResolveError::Message(
                                    concat(a.as_str(), " is not present in the loaded schema; use --type for raw access"),
                                ),
                            )
                        },
                    }
                },
                None => {
                    let a = concat("unknown parameter key '", key);
                    Err(ResolveError::Message(concat(a.as_str(), "' in loaded schema")))
                },
            }
        },
        None => match parse_u16(key) {
            None => {
                let a = concat("parameter '", key);
                Err(
                    ResolveError::Message(
                        concat(a.as_str(), "' requires --schema; without a schema only numeric IDs are accepted"),
                    ),
                )
            },
            Some(id) => match type_override {
                Some(o) => Ok(ResolvedParameter { id, ty: o, metadata: None }),
                None => Err(
                    ResolveError::Message("--type is required for raw numeric parameter access without --schema".to_owned()),
                ),
            },
        },
    }
}

/// The name an action is shown by: its label, else its symbol.
pub open spec fn action_label(a: ActionMetadata) -> Seq<char> {
    match a.name {
        Some(n) => n@,
        None => a.symbol@,
    }
}

fn label_of(a: &ActionMetadata) -> (res: String)
    ensures
        res@ == action_label(*a),
{
    match &a.name {
        Some(n) => n.clone(),
        None => a.symbol.clone(),
    }
}

/// Resolves an action argument to its ID and the name it is shown by: by
/// schema key, else by numeric ID (named by its hexadecimal form when the
/// schema does not know it); without a schema only numeric IDs.
pub fn resolve_action(schema: Option<&HostSchema>, key: &str) -> (res: Result<(u16, String), String>)
    ensures
        match schema {
            Some(s) => match first_action_named(s.actions@, key@) {
                Some(a) => res matches Ok((id, name)) && id == a.id && name@ == action_label(a),
                None => match key_id(key) {
                    Some(id) => match first_action_with_id(s.actions@, id) {
                        Some(a) => res matches Ok((i, name)) && i == id && name@ == action_label(a),
                        None => res matches Ok((i, name)) && i == id && name@ == hex_id_text(id),
                    },
                    None => res matches Err(e) && e@ == "unknown action key '"@ + key@ + "' in loaded schema"@,
                },
            },
            None => match key_id(key) {
                Some(id) => res matches Ok((i, name)) && i == id && name@ == hex_id_text(id),
                None => res matches Err(e) && e@ == "action '"@ + key@
                    + "' requires --schema; without a schema only numeric IDs are accepted"@,
            },
        },
{
    match schema {
        Some(s) => {
            if let Some(action) = s.action_by_key(key) {
                return Ok((action.id, label_of(action)));
            }
            match parse_u16(key) {
                Some(id) => match s.action_by_id(id) {
                    Some(action) => Ok((id, label_of(action))),
                    None => Ok((id, hex_id(id))),
                },
                None => {
                    let a = concat("unknown action key '", key);
                    Err(concat(a.as_str(), "' in loaded schema"))
                },
            }
        },
        None => match parse_u16(key) {
            Some(id) => Ok((id, hex_id(id))),
            None => {
                let a = concat("action '", key);
                Err(concat(a.as_str(), "' requires --schema; without a schema only numeric IDs are accepted"))
            },
        },
    }
}

/// The metadata of the parameter `key` names, by key or numeric ID.
pub fn resolve_parameter_metadata<'a>(schema: &'a HostSchema, key: &str) -> (res: Result<&'a ParameterMetadata, String>)
    ensures
        match first_parameter_named(schema.parameters@, key@) {
            Some(m) => res matches Ok(r) && *r == m,
            None => match key_id(key) {
                Some(id) => match first_parameter_with_id(schema.parameters@, id) {
                    Some(m) => res matches Ok(r) && *r == m,
                    None => res matches Err(e) && e@ == "parameter ID "@ + hex_id_text(id)
                        + " is not present in the loaded schema"@,
                },
                None => res matches Err(e) && e@ == "unknown parameter key '"@ + key@ + "' in loaded schema"@,
            },
        },
{
    if let Some(metadata) = schema.parameter_by_key(key) {
        return Ok(metadata);
    }
    match parse_u16(key) {
        Some(id) => match schema.parameter_by_id(id) {
            Some(m) => Ok(m),
            None => {
                let hex = hex_id(id);
                let a = concat("parameter ID ", hex.as_str());
                Err(concat(a.as_str(), " is not present in the loaded schema"))
            },
        },
        None => {
            let a = concat("unknown parameter key '", key);
            Err(concat(a.as_str(), "' in loaded schema"))
        },
    }
}

/// The metadata of the action `key` names, by key or numeric ID.
pub fn resolve_action_metadata<'a>(schema: &'a HostSchema, key: &str) -> (res: Result<&'a ActionMetadata, String>)
    ensures
        match first_action_named(schema.actions@, key@) {
            Some(a) => res matches Ok(r) && *r == a,
            None => match key_id(key) {
                Some(id) => match first_action_with_id(schema.actions@, id) {
                    Some(a) => res matches Ok(r) && *r == a,
                    None => res matches Err(e) && e@ == "action ID "@ + hex_id_text(id)
                        + " is not present in the loaded schema"@,
                },
                None => res matches Err(e) && e@ == "unknown action key '"@ + key@ + "' in loaded schema"@,
            },
        },
{
    if let Some(action) = schema.action_by_key(key) {
        return Ok(action);
    }
    match parse_u16(key) {
        Some(id) => match schema.action_by_id(id) {
            Some(a) => Ok(a),
            None => {
                let hex = hex_id(id);
                let a = concat("action ID ", hex.as_str());
                Err(concat(a.as_str(), " is not present in the loaded schema"))
            },
        },
        None => {
            let a = concat("unknown action key '", key);
            Err(concat(a.as_str(), "' in loaded schema"))
        },
    }
}

} // verus!
