//! The field capturer: walks the structured fields attached to one log call
//! and copies each into an owned entry, preserving emission order.
//!
//! Every supported kind maps to exactly one owned variant; there is no
//! "unsupported kind" failure path, so a capture step cannot fail.

use vstd::prelude::*;

use crate::value::{kvs_model, lemma_kvs_model_push, KVModel, OwnedKV, OwnedValue, ValueModel};

verus! {

/// Accumulates the owned key/value entries captured from one log call.
///
/// Its view is the ordered sequence of captured entry models; each `emit_*`
/// step appends exactly one entry, copying the value with no loss.
pub struct ToSendSerializer {
    record_values: Vec<OwnedKV>,
}

impl View for ToSendSerializer {
    type V = Seq<KVModel>;

    closed spec fn view(&self) -> Seq<KVModel> {
        kvs_model(self.record_values@)
    }
}

impl ToSendSerializer {
    /// Creates a capturer with no entries.
    pub fn new() -> (s: Self)
        ensures
            s@ == Seq::<KVModel>::empty(),
    {
        let s = ToSendSerializer { record_values: Vec::new() };
        proof {
            assert(s@ =~= Seq::<KVModel>::empty());
        }
        s
    }

    /// Hands back the captured entries, in emission order.
    pub fn finish(self) -> (r: Vec<OwnedKV>)
        ensures
            kvs_model(r@) == self@,
    {
        self.record_values
    }

    /// Appends one captured entry.
    fn push_entry(&mut self, kv: OwnedKV)
        ensures
            final(self)@ == old(self)@.push(kv@),
    {
        proof {
            lemma_kvs_model_push(self.record_values@, kv);
        }
        self.record_values.push(kv);
    }

    /// Captures a boolean field.
    pub fn emit_bool(&mut self, key: &str, val: bool)
        ensures
            final(self)@ == old(self)@.push((KVModel { key: key@, value: ValueModel::Bool(val) })),
    {
        self.push_entry(OwnedKV { key: key.to_owned(), value: OwnedValue::Bool(val) });
    }

    /// Captures a unit field.
    pub fn emit_unit(&mut self, key: &str)
        ensures
            final(self)@ == old(self)@.push((KVModel { key: key@, value: ValueModel::Unit })),
    {
        self.push_entry(OwnedKV { key: key.to_owned(), value: OwnedValue::Unit });
    }

    /// Captures an absent optional field.
    pub fn emit_none(&mut self, key: &str)
        ensures
            final(self)@ == old(self)@.push((KVModel { key: key@, value: ValueModel::Absent })),
    {
        self.push_entry(OwnedKV { key: key.to_owned(), value: OwnedValue::Absent });
    }

    /// Captures a character field.
    pub fn emit_char(&mut self, key: &str, val: char)
        ensures
            final(self)@ == old(self)@.push((KVModel { key: key@, value: ValueModel::Char(val) })),
    {
        self.push_entry(OwnedKV { key: key.to_owned(), value: OwnedValue::Char(val) });
    }

    /// Captures an unsigned 8-bit integer field.
    pub fn emit_u8(&mut self, key: &str, val: u8)
        ensures
            final(self)@ == old(self)@.push((KVModel { key: key@, value: ValueModel::U8(val) })),
    {
        self.push_entry(OwnedKV { key: key.to_owned(), value: OwnedValue::U8(val) });
    }

    /// Captures a signed 8-bit integer field.
    pub fn emit_i8(&mut self, key: &str, val: i8)
        ensures
            final(self)@ == old(self)@.push((KVModel { key: key@, value: ValueModel::I8(val) })),
    {
        self.push_entry(OwnedKV { key: key.to_owned(), value: OwnedValue::I8(val) });
    }

    /// Captures an unsigned 16-bit integer field.
    pub fn emit_u16(&mut self, key: &str, val: u16)
        ensures
            final(self)@ == old(self)@.push((KVModel { key: key@, value: ValueModel::U16(val) })),
    {
        self.push_entry(OwnedKV { key: key.to_owned(), value: OwnedValue::U16(val) });
    }

    /// Captures a signed 16-bit integer field.
    pub fn emit_i16(&mut self, key: &str, val: i16)
        ensures
            final(self)@ == old(self)@.push((KVModel { key: key@, value: ValueModel::I16(val) })),
    {
        self.push_entry(OwnedKV { key: key.to_owned(), value: OwnedValue::I16(val) });
    }

    /// Captures an unsigned 32-bit integer field.
    pub fn emit_u32(&mut self, key: &str, val: u32)
        ensures
            final(self)@ == old(self)@.push((KVModel { key: key@, value: ValueModel::U32(val) })),
    {
        self.push_entry(OwnedKV { key: key.to_owned(), value: OwnedValue::U32(val) });
    }

    /// Captures a signed 32-bit integer field.
    pub fn emit_i32(&mut self, key: &str, val: i32)
        ensures
            final(self)@ == old(self)@.push((KVModel { key: key@, value: ValueModel::I32(val) })),
    {
        self.push_entry(OwnedKV { key: key.to_owned(), value: OwnedValue::I32(val) });
    }

    /// Captures an unsigned 64-bit integer field.
    pub fn emit_u64(&mut self, key: &str, val: u64)
        ensures
            final(self)@ == old(self)@.push((KVModel { key: key@, value: ValueModel::U64(val) })),
    {
        self.push_entry(OwnedKV { key: key.to_owned(), value: OwnedValue::U64(val) });
    }

    /// Captures a signed 64-bit integer field.
    pub fn emit_i64(&mut self, key: &str, val: i64)
        ensures
            final(self)@ == old(self)@.push((KVModel { key: key@, value: ValueModel::I64(val) })),
    {
        self.push_entry(OwnedKV { key: key.to_owned(), value: OwnedValue::I64(val) });
    }

    /// Captures a pointer-sized unsigned integer field.
    pub fn emit_usize(&mut self, key: &str, val: usize)
        ensures
            final(self)@ == old(self)@.push((KVModel { key: key@, value: ValueModel::Usize(val) })),
    {
        self.push_entry(OwnedKV { key: key.to_owned(), value: OwnedValue::Usize(val) });
    }

    /// Captures a pointer-sized signed integer field.
    pub fn emit_isize(&mut self, key: &str, val: isize)
        ensures
            final(self)@ == old(self)@.push((KVModel { key: key@, value: ValueModel::Isize(val) })),
    {
        self.push_entry(OwnedKV { key: key.to_owned(), value: OwnedValue::Isize(val) });
    }

    /// Captures a 32-bit floating-point field, given as its bit pattern.
    pub fn emit_f32_bits(&mut self, key: &str, bits: u32)
        ensures
            final(self)@ == old(self)@.push(
                (KVModel { key: key@, value: ValueModel::F32Bits(bits) }),
            ),
    {
        self.push_entry(OwnedKV { key: key.to_owned(), value: OwnedValue::F32Bits(bits) });
    }

    /// Captures a 64-bit floating-point field, given as its bit pattern.
    pub fn emit_f64_bits(&mut self, key: &str, bits: u64)
        ensures
            final(self)@ == old(self)@.push(
                (KVModel { key: key@, value: ValueModel::F64Bits(bits) }),
            ),
    {
        self.push_entry(OwnedKV { key: key.to_owned(), value: OwnedValue::F64Bits(bits) });
    }

    /// Captures a text field, copying the text into an owned string.
    pub fn emit_str(&mut self, key: &str, val: &str)
        ensures
            final(self)@ == old(self)@.push((KVModel { key: key@, value: ValueModel::Str(val@) })),
    {
        self.push_entry(OwnedKV { key: key.to_owned(), value: OwnedValue::Str(val.to_owned()) });
    }

    /// Captures a field whose value was rendered from format arguments
    /// before capture; the rendered text is owned and crosses the thread
    /// boundary in place of the arguments.
    pub fn emit_rendered(&mut self, key: &str, val: String)
        ensures
            final(self)@ == old(self)@.push(
                (KVModel { key: key@, value: ValueModel::Rendered(val@) }),
            ),
    {
        self.push_entry(OwnedKV { key: key.to_owned(), value: OwnedValue::Rendered(val) });
    }
}

} // verus!
