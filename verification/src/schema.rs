//! The Host schema: the firmware's description of its parameters and actions,
//! and the lookups the rest of the host makes in it.

use vstd::prelude::*;

use crate::protocol::ParameterType;
use crate::text::same_text;

verus! {

#[derive(Debug, Clone)]
pub enum SchemaError {
    Io(String),
    Parse(String),
    UnsupportedVersion(u32),
    UnknownParameterType(String),
}

/// Where the schema was generated from.
#[derive(Debug, Clone)]
pub struct SchemaSource {
    pub repository: String,
    pub git_sha: String,
    pub parameter_schema: u32,
}

/// A number of the schema: an integer, or a float given by its IEEE-754
/// double-precision bit pattern.
#[derive(Debug, Clone, Copy, PartialEq, Eq, Structural)]
pub enum SchemaNumber {
    Integer(i64),
    Float(u64),
}

#[derive(Debug, Clone)]
pub struct RangeMetadata {
    pub min: Option<SchemaNumber>,
    pub max: Option<SchemaNumber>,
    pub exclusive_min: bool,
    pub exclusive_max: bool,
    pub max_symbol: Option<String>,
    pub max_binding: Option<String>,
    pub max_bindings: Vec<String>,
}

#[derive(Debug, Clone)]
pub struct ParameterMetadata {
    pub symbol: String,
    pub name: Option<String>,
    pub id: u16,
    pub value_type: String,
    pub access: String,
    pub unit: Option<String>,
    pub description: String,
    pub write_state: Option<String>,
    pub range: Option<RangeMetadata>,
    pub allowed: Vec<SchemaNumber>,
    pub allowed_symbols: Vec<String>,
    /// The plot scale as an IEEE-754 double-precision bit pattern.
    pub plot_scale: Option<u64>,
}

#[derive(Debug, Clone)]
pub struct ActionMetadata {
    pub symbol: String,
    pub name: Option<String>,
    pub id: u16,
    pub description: String,
}

#[derive(Debug, Clone)]
pub struct HostSchema {
    pub schema_version: u32,
    pub protocol: String,
    pub source: SchemaSource,
    pub parameters: Vec<ParameterMetadata>,
    pub actions: Vec<ActionMetadata>,
}

/// The wire type a schema type name denotes.
pub open spec fn spec_parameter_type(value_type: Seq<char>) -> Option<ParameterType> {
    if value_type == "u8"@ {
        Some(ParameterType::U8)
    } else if value_type == "i8"@ {
        Some(ParameterType::I8)
    } else if value_type == "f32"@ {
        Some(ParameterType::F32)
    } else if value_type == "i32"@ {
        Some(ParameterType::I32)
    } else if value_type == "u32"@ {
        Some(ParameterType::U32)
    } else if value_type == "position"@ {
        Some(ParameterType::Position)
    } else {
        None
    }
}

impl ParameterMetadata {
    pub fn parameter_type(&self) -> (res: Result<ParameterType, SchemaError>)
        ensures
            match spec_parameter_type(self.value_type@) {
                Some(t) => res == Ok::<ParameterType, SchemaError>(t),
                None => res matches Err(SchemaError::UnknownParameterType(name)) && name@ == self.value_type@,
            },
    {
        let name = self.value_type.as_str();
        if same_text(name, "u8") {
            Ok(ParameterType::U8)
        } else if same_text(name, "i8") {
            Ok(ParameterType::I8)
        } else if same_text(name, "f32") {
            Ok(ParameterType::F32)
        } else if same_text(name, "i32") {
            Ok(ParameterType::I32)
        } else if same_text(name, "u32") {
            Ok(ParameterType::U32)
        } else if same_text(name, "position") {
            Ok(ParameterType::Position)
        } else {
            Err(SchemaError::UnknownParameterType(name.to_owned()))
        }
    }
}

/// `m` is named `key` by its symbol or its label.
pub open spec fn parameter_named(m: ParameterMetadata, key: Seq<char>) -> bool {
    m.symbol@ == key || (m.name matches Some(n) && n@ == key)
}

/// `a` is named `key` by its symbol or its label.
pub open spec fn action_named(a: ActionMetadata, key: Seq<char>) -> bool {
    a.symbol@ == key || (a.name matches Some(n) && n@ == key)
}

fn named(symbol: &String, name: &Option<String>, key: &str) -> (res: bool)
    ensures
        res == (symbol@ == key@ || (*name matches Some(n) && n@ == key@)),
{
    if same_text(symbol.as_str(), key) {
        return true;
    }
    match name {
        Some(n) => same_text(n.as_str(), key),
        None => false,
    }
}

impl HostSchema {
    /// Accepts a parsed schema of the one supported version.
    pub fn check_version(self) -> (res: Result<HostSchema, SchemaError>)
        ensures
            self.schema_version == 1 ==> (res matches Ok(s) && s == self),
            self.schema_version != 1 ==> (res matches Err(SchemaError::UnsupportedVersion(v)) && v
                == self.schema_version),
    {
        if self.schema_version != 1 {
            return Err(SchemaError::UnsupportedVersion(self.schema_version));
        }
        Ok(self)
    }

    /// The first parameter with ID `id`.
    pub fn parameter_by_id(&self, id: u16) -> (res: Option<&ParameterMetadata>)
        ensures
            opt_ref(res) == first_parameter_with_id(self.parameters@, id),
    {
        let mut i: usize = 0;
        assert(self.parameters@.skip(0) == self.parameters@);
        while i < self.parameters.len()
            invariant
                i <= self.parameters@.len(),
                first_parameter_with_id(self.parameters@, id) == first_parameter_with_id(
                    self.parameters@.skip(i as int),
                    id,
                ),
            decreases self.parameters@.len() - i,
        {
            assert(self.parameters@.skip(i as int).drop_first() == self.parameters@.skip(i as int + 1));
            if self.parameters[i].id == id {
                return Some(&self.parameters[i]);
            }
            i = i + 1;
        }
        None
    }

    /// The first parameter named `key` by symbol or label.
    pub fn parameter_by_key(&self, key: &str) -> (res: Option<&ParameterMetadata>)
        ensures
            opt_ref(res) == first_parameter_named(self.parameters@, key@),
    {
        let mut i: usize = 0;
        assert(self.parameters@.skip(0) == self.parameters@);
        while i < self.parameters.len()
            invariant
                i <= self.parameters@.len(),
                first_parameter_named(self.parameters@, key@) == first_parameter_named(
                    self.parameters@.skip(i as int),
                    key@,
                ),
            decreases self.parameters@.len() - i,
        {
            assert(self.parameters@.skip(i as int).drop_first() == self.parameters@.skip(i as int + 1));
            let m = &self.parameters[i];
            if named(&m.symbol, &m.name, key) {
                return Some(m);
            }
            i = i + 1;
        }
        None
    }

    /// The first action with ID `id`.
    pub fn action_by_id(&self, id: u16) -> (res: Option<&ActionMetadata>)
        ensures
            opt_ref(res) == first_action_with_id(self.actions@, id),
    {
        let mut i: usize = 0;
        assert(self.actions@.skip(0) == self.actions@);
        while i < self.actions.len()
            invariant
                i <= self.actions@.len(),
                first_action_with_id(self.actions@, id) == first_action_with_id(self.actions@.skip(i as int), id),
            decreases self.actions@.len() - i,
        {
            assert(self.actions@.skip(i as int).drop_first() == self.actions@.skip(i as int + 1));
            if self.actions[i].id == id {
                return Some(&self.actions[i]);
            }
            i = i + 1;
        }
        None
    }

    /// The first action named `key` by symbol or label.
    pub fn action_by_key(&self, key: &str) -> (res: Option<&ActionMetadata>)
        ensures
            opt_ref(res) == first_action_named(self.actions@, key@),
    {
        let mut i: usize = 0;
        assert(self.actions@.skip(0) == self.actions@);
        while i < self.actions.len()
            invariant
                i <= self.actions@.len(),
                first_action_named(self.actions@, key@) == first_action_named(self.actions@.skip(i as int), key@),
            decreases self.actions@.len() - i,
        {
            assert(self.actions@.skip(i as int).drop_first() == self.actions@.skip(i as int + 1));
            let a = &self.actions[i];
            if named(&a.symbol, &a.name, key) {
                return Some(a);
            }
            i = i + 1;
        }
        None
    }
}

/// The value an optional reference points to.
pub open spec fn opt_ref<T>(r: Option<&T>) -> Option<T> {
    match r {
        Some(x) => Some(*x),
        None => None,
    }
}

/// The first parameter of `ps` with ID `id`.
pub open spec fn first_parameter_with_id(ps: Seq<ParameterMetadata>, id: u16) -> Option<ParameterMetadata>
    decreases ps.len(),
{
    if ps.len() == 0 {
        None
    } else if ps[0].id == id {
        Some(ps[0])
    } else {
        first_parameter_with_id(ps.drop_first(), id)
    }
}

/// The first parameter of `ps` named `key` by symbol or label.
pub open spec fn first_parameter_named(ps: Seq<ParameterMetadata>, key: Seq<char>) -> Option<ParameterMetadata>
    decreases ps.len(),
{
    if ps.len() == 0 {
        None
    } else if parameter_named(ps[0], key) {
        Some(ps[0])
    } else {
        first_parameter_named(ps.drop_first(), key)
    }
}

/// The first action of `acts` with ID `id`.
pub open spec fn first_action_with_id(acts: Seq<ActionMetadata>, id: u16) -> Option<ActionMetadata>
    decreases acts.len(),
{
    if acts.len() == 0 {
        None
    } else if acts[0].id == id {
        Some(acts[0])
    } else {
        first_action_with_id(acts.drop_first(), id)
    }
}

/// The first action of `acts` named `key` by symbol or label.
pub open spec fn first_action_named(acts: Seq<ActionMetadata>, key: Seq<char>) -> Option<ActionMetadata>
    decreases acts.len(),
{
    if acts.len() == 0 {
        None
    } else if action_named(acts[0], key) {
        Some(acts[0])
    } else {
        first_action_named(acts.drop_first(), key)
    }
}

/// `2^(52 - e)` for the binary exponents `e` of 0..=7.
pub open spec fn unit_in_last_place(e: int) -> int {
    if e == 0 {
        0x10_0000_0000_0000
    } else if e == 1 {
        0x8_0000_0000_0000
    } else if e == 2 {
        0x4_0000_0000_0000
    } else if e == 3 {
        0x2_0000_0000_0000
    } else if e == 4 {
        0x1_0000_0000_0000
    } else if e == 5 {
        0x8000_0000_0000
    } else if e == 6 {
        0x4000_0000_0000
    } else {
        0x2000_0000_0000
    }
}

/// The value of the IEEE-754 double with bit pattern `bits`, if that value is
/// a whole number in 0..=255 (negative zero counts as zero).
pub open spec fn f64_small_whole(bits: u64) -> Option<u8> {
    let exponent = (bits as int / 0x10_0000_0000_0000) % 0x800;
    let fraction = bits as int % 0x10_0000_0000_0000;
    if bits == 0 || bits == 0x8000_0000_0000_0000 {
        Some(0u8)
    } else if bits >= 0x8000_0000_0000_0000 || exponent < 1023 || exponent > 1030 {
        None
    } else {
        let e = exponent - 1023;
        if fraction % unit_in_last_place(e) == 0 {
            Some(((0x10_0000_0000_0000 + fraction) / unit_in_last_place(e)) as u8)
        } else {
            None
        }
    }
}

fn ulp(e: u64) -> (res: u64)
    requires
        e <= 7,
    ensures
        res == unit_in_last_place(e as int),
{
    if e == 0 {
        0x10_0000_0000_0000
    } else if e == 1 {
        0x8_0000_0000_0000
    } else if e == 2 {
        0x4_0000_0000_0000
    } else if e == 3 {
        0x2_0000_0000_0000
    } else if e == 4 {
        0x1_0000_0000_0000
    } else if e == 5 {
        0x8000_0000_0000
    } else if e == 6 {
        0x4000_0000_0000
    } else {
        0x2000_0000_0000
    }
}

/// The whole number in 0..=255 a schema number denotes, if it denotes one.
pub open spec fn small_whole(n: SchemaNumber) -> Option<u8> {
    match n {
        SchemaNumber::Integer(v) => if 0 <= v <= 255 {
            Some(v as u8)
        } else {
            None
        },
        SchemaNumber::Float(bits) => f64_small_whole(bits),
    }
}

pub fn schema_small_whole(n: SchemaNumber) -> (res: Option<u8>)
    ensures
        res == small_whole(n),
{
    match n {
        SchemaNumber::Integer(v) => if 0 <= v && v <= 255 {
            Some(v as u8)
        } else {
            None
        },
        SchemaNumber::Float(bits) => {
            if bits == 0 || bits == 0x8000_0000_0000_0000 {
                return Some(0);
            }
            let exponent = (bits / 0x10_0000_0000_0000) % 0x800;
            let fraction = bits % 0x10_0000_0000_0000;
            if bits >= 0x8000_0000_0000_0000 || exponent < 1023 || exponent > 1030 {
                return None;
            }
            let unit = ulp(exponent - 1023);
            if fraction % unit != 0 {
                return None;
            }
            let value = (0x10_0000_0000_0000 + fraction) / unit;
            assert(value < 256) by (nonlinear_arith)
                requires
                    fraction < 0x10_0000_0000_0000,
                    unit >= 0x2000_0000_0000,
                    value as int == (0x10_0000_0000_0000 + fraction as int) / (unit as int),
            ;
            Some(value as u8)
        },
    }
}

/// Why a parameter has no u8 value for an enum symbol.
#[derive(Debug, Clone, Copy, PartialEq, Eq, Structural)]
pub enum EnumValueError {
    /// The parameter lists no such symbol.
    MissingSymbol,
    /// The symbol's value is not a whole number in 0..=255.
    NotU8,
}

/// The position of the first symbol of `symbols` equal to `wanted`.
pub open spec fn symbol_index(symbols: Seq<String>, wanted: Seq<char>) -> Option<int>
    decreases symbols.len(),
{
    if symbols.len() == 0 {
        None
    } else if symbols[0]@ == wanted {
        Some(0)
    } else {
        match symbol_index(symbols.drop_first(), wanted) {
            Some(k) => Some(k + 1),
            None => None,
        }
    }
}

proof fn lemma_symbol_index(symbols: Seq<String>, wanted: Seq<char>, i: int)
    requires
        0 <= i <= symbols.len(),
        forall|k: int| 0 <= k < i ==> (#[trigger] symbols[k])@ != wanted,
    ensures
        i < symbols.len() && symbols[i]@ == wanted ==> symbol_index(symbols, wanted) == Some(i),
        i == symbols.len() ==> symbol_index(symbols, wanted) is None,
    decreases i,
{
    if i > 0 {
        let rest = symbols.drop_first();
        assert forall|k: int| 0 <= k < i - 1 implies (#[trigger] rest[k])@ != wanted by {
            assert(rest[k] == symbols[k + 1]);
        }
        lemma_symbol_index(rest, wanted, i - 1);
        if i < symbols.len() {
            assert(rest[i - 1] == symbols[i]);
        }
    }
}

/// The wire value of enum symbol `wanted` of `m`: the allowed value at the
/// symbol's position when the schema lists one, else the position itself.
pub open spec fn spec_enum_u8(m: ParameterMetadata, wanted: Seq<char>) -> Result<u8, EnumValueError> {
    match symbol_index(m.allowed_symbols@, wanted) {
        None => Err(EnumValueError::MissingSymbol),
        Some(i) => if i < m.allowed@.len() {
            match small_whole(m.allowed@[i]) {
                Some(v) => Ok(v),
                None => Err(EnumValueError::NotU8),
            }
        } else if i <= 255 {
            Ok(i as u8)
        } else {
            Err(EnumValueError::NotU8)
        },
    }
}

/// The wire value of the enum symbol `wanted` of parameter `m`.
pub fn enum_u8(m: &ParameterMetadata, wanted: &str) -> (res: Result<u8, EnumValueError>)
    ensures
        res == spec_enum_u8(*m, wanted@),
{
    let mut i: usize = 0;
    while i < m.allowed_symbols.len()
        invariant
            i <= m.allowed_symbols@.len(),
            forall|k: int| 0 <= k < i ==> (#[trigger] m.allowed_symbols@[k])@ != wanted@,
        decreases m.allowed_symbols@.len() - i,
    {
        if same_text(m.allowed_symbols[i].as_str(), wanted) {
            proof {
                lemma_symbol_index(m.allowed_symbols@, wanted@, i as int);
            }
            return enum_value_at(m, i);
        }
        i = i + 1;
    }
    proof {
        lemma_symbol_index(m.allowed_symbols@, wanted@, m.allowed_symbols@.len() as int);
    }
    Err(EnumValueError::MissingSymbol)
}

fn enum_value_at(m: &ParameterMetadata, index: usize) -> (res: Result<u8, EnumValueError>)
    ensures
        res == (if index < m.allowed@.len() {
            match small_whole(m.allowed@[index as int]) {
                Some(v) => Ok(v),
                None => Err(EnumValueError::NotU8),
            }
        } else if index <= 255 {
            Ok(index as u8)
        } else {
            Err(EnumValueError::NotU8)
        }),
{
    if index < m.allowed.len() {
        return match schema_small_whole(m.allowed[index]) {
            Some(v) => Ok(v),
            None => Err(EnumValueError::NotU8),
        };
    }
    if index <= 255 {
        Ok(index as u8)
    } else {
        Err(EnumValueError::NotU8)
    }
}

} // verus!
