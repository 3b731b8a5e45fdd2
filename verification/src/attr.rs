//! Named attribute values.
//!
//! Plugin-level, topology and device metadata comes as arrays of named
//! values: a name span plus a tagged union over a string, a 64-bit integer, a
//! list of 64-bit integers, a 32-bit float (kept here as its raw bits), and a
//! boolean. The decoder checks every span against the null-with-nonzero-size
//! rule and rejects an unrecognized tag as a protocol violation rather than
//! guessing at an unknown ABI extension.

use vstd::prelude::*;

use crate::error::PJRTError;
use crate::error::PJRTErrorKind;
use crate::raw::clone_bytes;
use crate::raw::clone_i64s;
use crate::raw::RawArray;

verus! {

/// Tag values of the named-value union in the plugin ABI.
pub const NAMED_VALUE_TAG_STRING: i64 = 0;

pub const NAMED_VALUE_TAG_INT64: i64 = 1;

pub const NAMED_VALUE_TAG_INT64_LIST: i64 = 2;

pub const NAMED_VALUE_TAG_FLOAT: i64 = 3;

pub const NAMED_VALUE_TAG_BOOL: i64 = 4;

/// The union member of one raw named value, read for the tag the record
/// declared; a tag outside the closed set keeps only the tag number.
#[derive(Debug)]
pub enum RawAttrPayload {
    Str(RawArray<u8>),
    I64(i64),
    I64List(RawArray<i64>),
    FloatBits(u32),
    Boolean(bool),
    Unrecognized(i64),
}

impl RawAttrPayload {
    pub open spec fn wf(&self) -> bool {
        match self {
            RawAttrPayload::Str(b) => b.wf(),
            RawAttrPayload::I64List(l) => l.wf(),
            _ => true,
        }
    }
}

/// One named value as the shell observed it.
#[derive(Debug)]
pub struct RawNamedValue {
    pub name: RawArray<u8>,
    pub payload: RawAttrPayload,
}

impl RawNamedValue {
    pub open spec fn wf(&self) -> bool {
        self.name.wf() && self.payload.wf()
    }
}

/// A decoded attribute value: the closed tagged union the adapter exposes.
/// The float case carries the raw bits of the 32-bit value.
#[derive(Debug)]
pub enum PJRTNamedValue {
    String(Vec<u8>),
    Int64(i64),
    Int64List(Vec<i64>),
    Float(u32),
    Bool(bool),
}

/// A decoded name/value pair.
#[derive(Debug)]
pub struct PJRTNamedAttribute {
    pub name: Vec<u8>,
    pub value: PJRTNamedValue,
}

/// A raw named value the decoder accepts: every span obeys the
/// null-with-nonzero-size rule and the tag is one of the closed set.
pub open spec fn valid_named_value(v: RawNamedValue) -> bool {
    &&& (v.name.present || v.name.count == 0)
    &&& match v.payload {
        RawAttrPayload::Str(b) => b.present || b.count == 0,
        RawAttrPayload::I64List(l) => l.present || l.count == 0,
        RawAttrPayload::Unrecognized(_) => false,
        _ => true,
    }
}

/// The decoded attribute carries the observed name and exactly the observed
/// payload, variant for variant.
pub open spec fn decoded_matches(v: RawNamedValue, a: PJRTNamedAttribute) -> bool {
    &&& a.name@ == v.name.items@
    &&& match (v.payload, a.value) {
        (RawAttrPayload::Str(b), PJRTNamedValue::String(s)) => s@ == b.items@,
        (RawAttrPayload::I64(x), PJRTNamedValue::Int64(y)) => x == y,
        (RawAttrPayload::I64List(l), PJRTNamedValue::Int64List(m)) => m@ == l.items@,
        (RawAttrPayload::FloatBits(x), PJRTNamedValue::Float(y)) => x == y,
        (RawAttrPayload::Boolean(x), PJRTNamedValue::Bool(y)) => x == y,
        _ => false,
    }
}

/// Decodes one named value, or reports the protocol violation it carries.
pub fn decode_named_value(v: &RawNamedValue) -> (r: Result<PJRTNamedAttribute, PJRTError>)
    requires
        v.wf(),
    ensures
        r is Ok <==> valid_named_value(*v),
        r is Ok ==> decoded_matches(*v, r->Ok_0),
        r is Err ==> r->Err_0.kind == PJRTErrorKind::ProtocolViolation,
{
    if !v.name.present && v.name.count != 0 {
        return Err(PJRTError::protocol("named value has a null name with nonzero size"));
    }
    let name = clone_bytes(&v.name.items);
    match &v.payload {
        RawAttrPayload::Str(b) => {
            if !b.present && b.count != 0 {
                Err(PJRTError::protocol("named value has a null string with nonzero size"))
            } else {
                Ok(
                    PJRTNamedAttribute {
                        name,
                        value: PJRTNamedValue::String(clone_bytes(&b.items)),
                    },
                )
            }
        },
        RawAttrPayload::I64(x) => Ok(
            PJRTNamedAttribute { name, value: PJRTNamedValue::Int64(*x) },
        ),
        RawAttrPayload::I64List(l) => {
            if !l.present && l.count != 0 {
                Err(PJRTError::protocol("named value has a null integer list with nonzero size"))
            } else {
                Ok(
                    PJRTNamedAttribute {
                        name,
                        value: PJRTNamedValue::Int64List(clone_i64s(&l.items)),
                    },
                )
            }
        },
        RawAttrPayload::FloatBits(x) => Ok(
            PJRTNamedAttribute { name, value: PJRTNamedValue::Float(*x) },
        ),
        RawAttrPayload::Boolean(x) => Ok(
            PJRTNamedAttribute { name, value: PJRTNamedValue::Bool(*x) },
        ),
        RawAttrPayload::Unrecognized(_) => Err(
            PJRTError::protocol("named value has an unrecognized type tag"),
        ),
    }
}

/// Decodes an array of named values in order. Empty is valid; a null array
/// beside a nonzero count, any span violation, or any unrecognized tag is a
/// protocol violation.
pub fn decode_named_values(attrs: &RawArray<RawNamedValue>) -> (r: Result<
    Vec<PJRTNamedAttribute>,
    PJRTError,
>)
    requires
        attrs.wf(),
        forall|i: int| 0 <= i < attrs.items@.len() ==> (#[trigger] attrs.items@[i]).wf(),
    ensures
        r is Ok <==> ((attrs.present || attrs.count == 0) && (forall|i: int|
            0 <= i < attrs.items@.len() ==> valid_named_value(#[trigger] attrs.items@[i]))),
        r is Ok ==> r->Ok_0@.len() == attrs.items@.len(),
        r is Ok ==> (forall|i: int|
            0 <= i < attrs.items@.len() ==> decoded_matches(
                attrs.items@[i],
                #[trigger] r->Ok_0@[i],
            )),
        r is Err ==> r->Err_0.kind == PJRTErrorKind::ProtocolViolation,
{
    if !attrs.present && attrs.count != 0 {
        return Err(PJRTError::protocol("named value array is null with nonzero count"));
    }
    let mut out: Vec<PJRTNamedAttribute> = Vec::new();
    let mut i: usize = 0;
    while i < attrs.items.len()
        invariant
            i <= attrs.items@.len(),
            out@.len() == i,
            forall|j: int| 0 <= j < attrs.items@.len() ==> (#[trigger] attrs.items@[j]).wf(),
            forall|j: int| 0 <= j < i ==> valid_named_value(#[trigger] attrs.items@[j]),
            forall|j: int| 0 <= j < i ==> decoded_matches(attrs.items@[j], #[trigger] out@[j]),
        decreases attrs.items@.len() - i,
    {
        let a = decode_named_value(&attrs.items[i])?;
        out.push(a);
        i = i + 1;
    }
    Ok(out)
}

} // verus!
