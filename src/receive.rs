//! Marshaling of native results and out-parameters back into dynamic values,
//! with the ownership rule each descriptor declares.

use vstd::prelude::*;

use crate::marshal::{marshals, Acquire, MarshalError, NativeValue, OwnedPtr};
use crate::registry::ObjectKind;
use crate::types::{integer_native_type, spec_is_borrowed, IntegerType, ListType, NativeType, Type};
use crate::value::{int_of, Number, Value};

verus! {

/// What a native result becomes. Values that need native memory read or
/// objects registered say what is to be done, and with which ownership.
#[derive(Debug)]
pub enum Incoming {
    /// A value complete as it is.
    Ready(Value),
    /// An object to wrap and register. With `acquire` set, one reference or
    /// copy is taken first, since the result was only borrowed; without it
    /// the reference or copy the call handed over is taken as it is, and a
    /// floating reference is sunk when `sink_floating` is set.
    Object { address: usize, kind: ObjectKind, acquire: Option<Acquire>, sink_floating: bool },
    /// A C string to copy, then free when `free` is set.
    String { address: usize, free: bool },
    /// A null-terminated vector of C strings to copy, then free when `free` is set.
    StringVector { address: usize, free: bool },
    /// A linked list whose items are read as borrowed values of the item
    /// descriptor; its nodes are freed afterwards when `free_nodes` is set.
    List { address: usize, list_type: ListType, free_nodes: bool },
    /// The C strings (each with its NUL) of a string array passed in, to decode.
    CStrings(Vec<Vec<u8>>),
}

/// The number a numeric native value stands for.
pub open spec fn number_of(n: NativeValue) -> Option<Number> {
    match n {
        NativeValue::U8(v) => Some(Number::Integer(v as i128)),
        NativeValue::I8(v) => Some(Number::Integer(v as i128)),
        NativeValue::U16(v) => Some(Number::Integer(v as i128)),
        NativeValue::I16(v) => Some(Number::Integer(v as i128)),
        NativeValue::U32(v) => Some(Number::Integer(v as i128)),
        NativeValue::I32(v) => Some(Number::Integer(v as i128)),
        NativeValue::U64(v) => Some(Number::Integer(v as i128)),
        NativeValue::I64(v) => Some(Number::Integer(v as i128)),
        NativeValue::F32(x) => Some(x),
        NativeValue::F64(x) => Some(x),
        _ => None,
    }
}

pub open spec fn object_kind_of(t: Type) -> ObjectKind {
    match t {
        Type::Boxed(_) => ObjectKind::Boxed,
        Type::GVariant(_) => ObjectKind::GVariant,
        _ => ObjectKind::GObject,
    }
}

pub open spec fn acquire_of(t: Type) -> Acquire {
    match t {
        Type::Boxed(_) => Acquire::Copy,
        _ => Acquire::Ref,
    }
}

/// What an object pointer result becomes: null is `null`; a borrowed result
/// is acquired once, an owned one is taken over as it is.
pub open spec fn object_received(
    n: NativeValue,
    t: Type,
    borrowed: bool,
    r: Result<Incoming, MarshalError>,
) -> bool {
    match n {
        NativeValue::Ptr(a) => if a == 0 {
            r == Ok::<Incoming, MarshalError>(Incoming::Ready(Value::Null))
        } else {
            r == Ok::<Incoming, MarshalError>(
                Incoming::Object {
                    address: a,
                    kind: object_kind_of(t),
                    acquire: if borrowed {
                        Some(acquire_of(t))
                    } else {
                        None
                    },
                    sink_floating: !borrowed && t is GObject,
                },
            )
        },
        _ => r == Err::<Incoming, MarshalError>(MarshalError::TypeMismatch),
    }
}

/// The dynamic value of one item of a contiguous buffer.
pub open spec fn buffer_item(n: NativeValue, item: Type) -> Option<Value> {
    match item {
        Type::Boolean => match n {
            NativeValue::U8(v) => Some(Value::Boolean(v != 0)),
            _ => None,
        },
        _ => match number_of(n) {
            Some(x) => Some(Value::Number(x)),
            None => None,
        },
    }
}

pub open spec fn array_received(
    n: NativeValue,
    item: Type,
    list_type: ListType,
    borrowed: bool,
    r: Result<Incoming, MarshalError>,
) -> bool {
    let mismatch = Err::<Incoming, MarshalError>(MarshalError::TypeMismatch);
    match n {
        NativeValue::Ptr(a) => if list_type != ListType::Array {
            if a == 0 {
                r matches Ok(Incoming::Ready(Value::Array(vs))) && vs@.len() == 0
            } else {
                r == Ok::<Incoming, MarshalError>(
                    Incoming::List { address: a, list_type, free_nodes: !borrowed },
                )
            }
        } else if a == 0 {
            r matches Ok(Incoming::Ready(Value::Array(vs))) && vs@.len() == 0
        } else if item is String {
            r == Ok::<Incoming, MarshalError>(Incoming::StringVector { address: a, free: !borrowed })
        } else {
            r == Err::<Incoming, MarshalError>(MarshalError::UnsupportedItemType)
        },
        NativeValue::OwnedPtr(OwnedPtr::Strings(bufs)) => if list_type != ListType::Array || !(item is String) {
            r == mismatch
        } else {
            match r {
                Ok(Incoming::CStrings(cs)) => cs@.len() == bufs@.len() && forall|i: int|
                    0 <= i < bufs@.len() ==> (#[trigger] cs@[i])@ == bufs@[i]@,
                _ => false,
            }
        },
        NativeValue::OwnedPtr(OwnedPtr::Objects { ids, .. }) => if list_type != ListType::Array || !(item is GObject
            || item is Boxed || item is GVariant) {
            r == mismatch
        } else {
            match r {
                Ok(Incoming::Ready(Value::Array(vs))) => vs@.len() == ids@.len() && forall|i: int|
                    0 <= i < ids@.len() ==> #[trigger] vs@[i] == Value::Object(ids@[i]),
                _ => false,
            }
        },
        NativeValue::OwnedPtr(OwnedPtr::Buffer { values, .. }) => if list_type != ListType::Array {
            r == mismatch
        } else if forall|i: int| 0 <= i < values@.len() ==> #[trigger] buffer_item(values@[i], item) is Some {
            match r {
                Ok(Incoming::Ready(Value::Array(vs))) => {
                    &&& vs@.len() == values@.len()
                    &&& forall|i: int|
                        0 <= i < values@.len() ==> Some(#[trigger] vs@[i]) == buffer_item(values@[i], item)
                },
                _ => false,
            }
        } else {
            r == mismatch
        },
        _ => r == mismatch,
    }
}

/// What a native value becomes under a descriptor.
pub open spec fn receives(n: NativeValue, t: Type, r: Result<Incoming, MarshalError>) -> bool
    decreases t,
{
    let mismatch = Err::<Incoming, MarshalError>(MarshalError::TypeMismatch);
    match t {
        Type::Null => r == Ok::<Incoming, MarshalError>(Incoming::Ready(Value::Null)),
        Type::Undefined => r == Ok::<Incoming, MarshalError>(Incoming::Ready(Value::Undefined)),
        Type::Integer(_) | Type::Float(_) => match number_of(n) {
            Some(x) => r == Ok::<Incoming, MarshalError>(Incoming::Ready(Value::Number(x))),
            None => r == mismatch,
        },
        Type::String(st) => match n {
            NativeValue::Ptr(a) => if a == 0 {
                r == Ok::<Incoming, MarshalError>(Incoming::Ready(Value::Null))
            } else {
                r == Ok::<Incoming, MarshalError>(Incoming::String { address: a, free: !st.is_borrowed })
            },
            _ => r == mismatch,
        },
        Type::Boolean => match n {
            NativeValue::U8(v) => r == Ok::<Incoming, MarshalError>(Incoming::Ready(Value::Boolean(v != 0))),
            _ => r == mismatch,
        },
        Type::GObject(g) => object_received(n, t, g.is_borrowed, r),
        Type::Boxed(b) => object_received(n, t, b.is_borrowed, r),
        Type::GVariant(g) => object_received(n, t, g.is_borrowed, r),
        Type::Array(a) => array_received(n, *a.item_type, a.list_type, a.is_borrowed, r),
        Type::Ref(rt) => match *rt.inner_type {
            Type::GObject(_) | Type::Boxed(_) | Type::GVariant(_) | Type::Integer(_) | Type::Float(_) => receives(
                n,
                *rt.inner_type,
                r,
            ),
            _ => r == Err::<Incoming, MarshalError>(MarshalError::UnsupportedType),
        },
        Type::Callback(_) => r == Err::<Incoming, MarshalError>(MarshalError::UnsupportedType),
    }
}

fn number_from_native(n: &NativeValue) -> (r: Option<Number>)
    ensures
        r == number_of(*n),
{
    match n {
        NativeValue::U8(v) => Some(Number::Integer(*v as i128)),
        NativeValue::I8(v) => Some(Number::Integer(*v as i128)),
        NativeValue::U16(v) => Some(Number::Integer(*v as i128)),
        NativeValue::I16(v) => Some(Number::Integer(*v as i128)),
        NativeValue::U32(v) => Some(Number::Integer(*v as i128)),
        NativeValue::I32(v) => Some(Number::Integer(*v as i128)),
        NativeValue::U64(v) => Some(Number::Integer(*v as i128)),
        NativeValue::I64(v) => Some(Number::Integer(*v as i128)),
        NativeValue::F32(x) => Some(*x),
        NativeValue::F64(x) => Some(*x),
        _ => None,
    }
}

pub(crate) fn object_from_native(n: &NativeValue, t: &Type, borrowed: bool) -> (r: Result<Incoming, MarshalError>)
    requires
        t is GObject || t is Boxed || t is GVariant,
    ensures
        object_received(*n, *t, borrowed, r),
{
    let (kind, acquire, is_gobject) = match t {
        Type::Boxed(_) => (ObjectKind::Boxed, Acquire::Copy, false),
        Type::GVariant(_) => (ObjectKind::GVariant, Acquire::Ref, false),
        _ => (ObjectKind::GObject, Acquire::Ref, true),
    };
    match n {
        NativeValue::Ptr(a) => if *a == 0 {
            Ok(Incoming::Ready(Value::Null))
        } else {
            Ok(Incoming::Object {
                address: *a,
                kind,
                acquire: if borrowed { Some(acquire) } else { None },
                sink_floating: !borrowed && is_gobject,
            })
        },
        _ => Err(MarshalError::TypeMismatch),
    }
}

fn buffer_item_from_native(n: &NativeValue, item: &Type) -> (r: Option<Value>)
    ensures
        r == buffer_item(*n, *item),
{
    match item {
        Type::Boolean => match n {
            NativeValue::U8(v) => Some(Value::Boolean(*v != 0)),
            _ => None,
        },
        _ => match number_from_native(n) {
            Some(x) => Some(Value::Number(x)),
            None => None,
        },
    }
}

fn copy_bytes(b: &Vec<u8>) -> (r: Vec<u8>)
    ensures
        r@ == b@,
{
    let mut out: Vec<u8> = Vec::new();
    let mut i: usize = 0;
    while i < b.len()
        invariant
            0 <= i <= b@.len(),
            out@ == b@.take(i as int),
        decreases b@.len() - i,
    {
        out.push(b[i]);
        i += 1;
        proof {
            assert(out@ =~= b@.take(i as int));
        }
    }
    proof {
        assert(b@.take(b@.len() as int) =~= b@);
    }
    out
}

fn array_from_native(n: &NativeValue, item: &Type, list_type: ListType, borrowed: bool) -> (r: Result<
    Incoming,
    MarshalError,
>)
    ensures
        array_received(*n, *item, list_type, borrowed, r),
{
    match n {
        NativeValue::Ptr(a) => if list_type != ListType::Array {
            if *a == 0 {
                Ok(Incoming::Ready(Value::Array(Vec::new())))
            } else {
                Ok(Incoming::List { address: *a, list_type, free_nodes: !borrowed })
            }
        } else if *a == 0 {
            Ok(Incoming::Ready(Value::Array(Vec::new())))
        } else {
            match item {
                Type::String(_) => Ok(Incoming::StringVector { address: *a, free: !borrowed }),
                _ => Err(MarshalError::UnsupportedItemType),
            }
        },
        NativeValue::OwnedPtr(OwnedPtr::Strings(bufs)) => {
            let is_string = match item {
                Type::String(_) => true,
                _ => false,
            };
            if list_type != ListType::Array || !is_string {
                return Err(MarshalError::TypeMismatch);
            }
            let mut cs: Vec<Vec<u8>> = Vec::new();
            let mut i: usize = 0;
            while i < bufs.len()
                invariant
                    0 <= i <= bufs@.len(),
                    cs@.len() == i,
                    forall|j: int| 0 <= j < i ==> (#[trigger] cs@[j])@ == bufs@[j]@,
                decreases bufs@.len() - i,
            {
                cs.push(copy_bytes(&bufs[i]));
                i += 1;
            }
            Ok(Incoming::CStrings(cs))
        },
        NativeValue::OwnedPtr(OwnedPtr::Objects { ids, .. }) => {
            let is_object = match item {
                Type::GObject(_) | Type::Boxed(_) | Type::GVariant(_) => true,
                _ => false,
            };
            if list_type != ListType::Array || !is_object {
                return Err(MarshalError::TypeMismatch);
            }
            let mut vs: Vec<Value> = Vec::new();
            let mut i: usize = 0;
            while i < ids.len()
                invariant
                    0 <= i <= ids@.len(),
                    vs@.len() == i,
                    forall|j: int| 0 <= j < i ==> #[trigger] vs@[j] == Value::Object(ids@[j]),
                decreases ids@.len() - i,
            {
                vs.push(Value::Object(ids[i]));
                i += 1;
            }
            Ok(Incoming::Ready(Value::Array(vs)))
        },
        NativeValue::OwnedPtr(OwnedPtr::Buffer { values, .. }) => {
            if list_type != ListType::Array {
                return Err(MarshalError::TypeMismatch);
            }
            let mut vs: Vec<Value> = Vec::new();
            let mut i: usize = 0;
            while i < values.len()
                invariant
                    *n matches NativeValue::OwnedPtr(OwnedPtr::Buffer { values: vv, .. }) && vv@ == values@,
                    list_type == ListType::Array,
                    0 <= i <= values@.len(),
                    vs@.len() == i,
                    forall|j: int| 0 <= j < i ==> buffer_item(#[trigger] values@[j], *item) is Some,
                    forall|j: int| 0 <= j < i ==> Some(#[trigger] vs@[j]) == buffer_item(values@[j], *item),
                decreases values@.len() - i,
            {
                match buffer_item_from_native(&values[i], item) {
                    Some(v) => {
                        vs.push(v);
                    },
                    None => {
                        proof {
                            assert(!(buffer_item(values@[i as int], *item) is Some));

                        }
                        return Err(MarshalError::TypeMismatch);
                    },
                }
                i += 1;
            }
            Ok(Incoming::Ready(Value::Array(vs)))
        },
        _ => Err(MarshalError::TypeMismatch),
    }
}

impl Value {
    /// Converts a native result, or an out-parameter read back after the call,
    /// under its descriptor.
    pub fn from_cif_value(n: &NativeValue, t: &Type) -> (r: Result<Incoming, MarshalError>)
        ensures
            receives(*n, *t, r),
        decreases t,
    {
        match t {
            Type::Null => Ok(Incoming::Ready(Value::Null)),
            Type::Undefined => Ok(Incoming::Ready(Value::Undefined)),
            Type::Integer(_) | Type::Float(_) => match number_from_native(n) {
                Some(x) => Ok(Incoming::Ready(Value::Number(x))),
                None => Err(MarshalError::TypeMismatch),
            },
            Type::String(st) => match n {
                NativeValue::Ptr(a) => if *a == 0 {
                    Ok(Incoming::Ready(Value::Null))
                } else {
                    Ok(Incoming::String { address: *a, free: !st.is_borrowed })
                },
                _ => Err(MarshalError::TypeMismatch),
            },
            Type::Boolean => match n {
                NativeValue::U8(v) => Ok(Incoming::Ready(Value::Boolean(*v != 0))),
                _ => Err(MarshalError::TypeMismatch),
            },
            Type::GObject(g) => object_from_native(n, t, g.is_borrowed),
            Type::Boxed(b) => object_from_native(n, t, b.is_borrowed),
            Type::GVariant(g) => object_from_native(n, t, g.is_borrowed),
            Type::Array(a) => array_from_native(n, &a.item_type, a.list_type, a.is_borrowed),
            Type::Ref(rt) => match &*rt.inner_type {
                Type::GObject(_) | Type::Boxed(_) | Type::GVariant(_) | Type::Integer(_) | Type::Float(_) => Value::from_cif_value(
                    n,
                    &rt.inner_type,
                ),
                _ => Err(MarshalError::UnsupportedType),
            },
            Type::Callback(_) => Err(MarshalError::UnsupportedType),
        }
    }
}

/// Converts one item of a linked list; items are borrowed from the list.
pub fn list_item_from_native(data: usize, item: &Type) -> (r: Result<Incoming, MarshalError>)
    ensures
        match *item {
            Type::GObject(_) | Type::Boxed(_) => object_received(NativeValue::Ptr(data), *item, true, r),
            Type::String(_) => r == if data == 0 {
                Ok::<Incoming, MarshalError>(Incoming::Ready(Value::Null))
            } else {
                Ok::<Incoming, MarshalError>(Incoming::String { address: data, free: false })
            },
            _ => r == Err::<Incoming, MarshalError>(MarshalError::UnsupportedItemType),
        },
{
    match item {
        Type::GObject(_) | Type::Boxed(_) => object_from_native(&NativeValue::Ptr(data), item, true),
        Type::String(_) => if data == 0 {
            Ok(Incoming::Ready(Value::Null))
        } else {
            Ok(Incoming::String { address: data, free: false })
        },
        _ => Err(MarshalError::UnsupportedItemType),
    }
}

/// The integer an integer descriptor keeps of `i`: its low bits, read with
/// the descriptor's signedness.
pub open spec fn wrapped(i: int, t: IntegerType) -> int {
    match integer_native_type(t) {
        NativeType::U8 => (i as u8) as int,
        NativeType::I8 => (i as i8) as int,
        NativeType::U16 => (i as u16) as int,
        NativeType::I16 => (i as i16) as int,
        NativeType::U32 => (i as u32) as int,
        NativeType::I32 => (i as i32) as int,
        NativeType::U64 => (i as u64) as int,
        _ => (i as i64) as int,
    }
}

/// Whether `i` is representable in the descriptor's width and signedness.
pub open spec fn in_range(i: int, t: IntegerType) -> bool {
    match integer_native_type(t) {
        NativeType::U8 => 0 <= i <= u8::MAX,
        NativeType::I8 => i8::MIN <= i <= i8::MAX,
        NativeType::U16 => 0 <= i <= u16::MAX,
        NativeType::I16 => i16::MIN <= i <= i16::MAX,
        NativeType::U32 => 0 <= i <= u32::MAX,
        NativeType::I32 => i32::MIN <= i <= i32::MAX,
        NativeType::U64 => 0 <= i <= u64::MAX,
        _ => i64::MIN <= i <= i64::MAX,
    }
}

proof fn lemma_wrapped_in_range(i: i128, t: IntegerType)
    requires
        in_range(i as int, t),
    ensures
        wrapped(i as int, t) == i as int,
{
    match integer_native_type(t) {
        NativeType::U8 => {
            assert((i as u8) as i128 == i) by (bit_vector)
                requires
                    0 <= i <= 0xff,
            ;
        },
        NativeType::I8 => {
            assert((i as i8) as i128 == i) by (bit_vector)
                requires
                    -0x80 <= i <= 0x7f,
            ;
        },
        NativeType::U16 => {
            assert((i as u16) as i128 == i) by (bit_vector)
                requires
                    0 <= i <= 0xffff,
            ;
        },
        NativeType::I16 => {
            assert((i as i16) as i128 == i) by (bit_vector)
                requires
                    -0x8000 <= i <= 0x7fff,
            ;
        },
        NativeType::U32 => {
            assert((i as u32) as i128 == i) by (bit_vector)
                requires
                    0 <= i <= 0xffff_ffff,
            ;
        },
        NativeType::I32 => {
            assert((i as i32) as i128 == i) by (bit_vector)
                requires
                    -0x8000_0000 <= i <= 0x7fff_ffff,
            ;
        },
        NativeType::U64 => {
            assert((i as u64) as i128 == i) by (bit_vector)
                requires
                    0 <= i <= 0xffff_ffff_ffff_ffff,
            ;
        },
        _ => {
            assert((i as i64) as i128 == i) by (bit_vector)
                requires
                    -0x8000_0000_0000_0000 <= i <= 0x7fff_ffff_ffff_ffff,
            ;
        },
    }
}

/// A scalar marshaled and converted back under the same descriptor: floats
/// and booleans come back unchanged; an integer comes back as its low bits in
/// the descriptor's width, which is the integer itself whenever it fits.
pub proof fn law_scalar_round_trip(
    v: Value,
    t: Type,
    optional: bool,
    objs: Map<usize, usize>,
    nv: NativeValue,
    back: Result<Incoming, MarshalError>,
)
    requires
        (t is Integer && v is Number) || (t is Float && v is Number) || (t is Boolean && v is Boolean),
        marshals(v, t, optional, objs, Ok(nv)),
        receives(nv, t, back),
    ensures
        t is Float || t is Boolean ==> back == Ok::<Incoming, MarshalError>(Incoming::Ready(v)),
        t is Integer ==> back == Ok::<Incoming, MarshalError>(
            Incoming::Ready(Value::Number(Number::Integer(wrapped(int_of(v->Number_0), t->Integer_0) as i128))),
        ),
        t is Integer && v->Number_0 is Integer && in_range(int_of(v->Number_0), t->Integer_0) ==> back
            == Ok::<Incoming, MarshalError>(Incoming::Ready(v)),
{
    if t is Integer {
        let n = v->Number_0;
        if n is Integer && in_range(int_of(n), t->Integer_0) {
            lemma_wrapped_in_range(n->Integer_0, t->Integer_0);
        }
    }
}

/// A non-null object result is registered without a new reference or copy
/// when the descriptor says ownership was transferred, and with exactly one
/// when the result was only borrowed.
pub proof fn law_object_result_ownership(n: NativeValue, t: Type, r: Result<Incoming, MarshalError>)
    requires
        t is GObject || t is Boxed || t is GVariant,
        n is Ptr,
        n->Ptr_0 != 0,
        receives(n, t, r),
    ensures
        r matches Ok(Incoming::Object { address, acquire, .. }) && address == n->Ptr_0 && (
        spec_is_borrowed(t) ==> acquire == Some(acquire_of(t))) && (!spec_is_borrowed(t)
            ==> acquire == None::<Acquire>),
{
}

} // verus!
