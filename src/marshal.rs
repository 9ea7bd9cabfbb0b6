//! Marshaling of dynamic values into native-call-ready values that own the
//! transient storage a call needs.

use vstd::prelude::*;
use vstd::utf8::encode_utf8;

use crate::registry::{ObjectId, ObjectMap};
use crate::types::{
    integer_native_type, spec_data_first, spec_is_borrowed, spec_has_destroy_notify, CallbackTrampoline,
    FloatSize, FloatType, IntegerSign, IntegerSize, IntegerType, NativeType, Type,
};
use crate::value::{int_of, CallbackHandle, Number, Value};

verus! {

/// Why a value could not be marshaled.
#[derive(Debug, Clone, Copy, PartialEq, Eq, Structural)]
pub enum MarshalError {
    /// The value's kind does not fit the descriptor.
    TypeMismatch,
    /// The object identity was removed from the registry.
    ObjectGone,
    /// A string holds a NUL character and cannot become a C string.
    InteriorNul,
    /// The array's item descriptor cannot be laid out in a native array.
    UnsupportedItemType,
    /// The descriptor cannot appear where it was used.
    UnsupportedType,
}

/// What the native call is handed in place of a non-borrowed object: one
/// new reference, or one copy, that the callee consumes.
#[derive(Debug, Clone, Copy, PartialEq, Eq, Structural)]
pub enum Acquire {
    Ref,
    Copy,
}

/// Storage owned by a marshaled value for the duration of the call; its
/// address is what the native call receives.
#[derive(Debug)]
pub enum OwnedPtr {
    /// A NUL-terminated string buffer.
    CString(Vec<u8>),
    /// A contiguous buffer of numbers of one native type.
    Buffer { item: NativeType, values: Vec<NativeValue> },
    /// NUL-terminated strings, passed as an array of pointers ending in null.
    Strings(Vec<Vec<u8>>),
    /// Objects, passed as an array of their addresses; the identities are kept.
    Objects { ids: Vec<ObjectId>, addresses: Vec<usize> },
    /// One pointer-sized slot, null at first, that the callee fills.
    PointerSlot,
    /// Storage for a primitive out-parameter, holding its initial value.
    Slot(Box<NativeValue>),
}

/// A callback handed to native code: the trampoline kind and how its
/// pointers are laid out.
#[derive(Debug, Clone, Copy, PartialEq, Eq, Structural)]
pub struct TrampolineCallbackValue {
    pub trampoline: CallbackTrampoline,
    pub callback: CallbackHandle,
    pub data_first: bool,
    pub has_destroy_notify: bool,
}

/// A value ready for a native call.
#[derive(Debug)]
pub enum NativeValue {
    U8(u8),
    I8(i8),
    U16(u16),
    I16(i16),
    U32(u32),
    I32(i32),
    U64(u64),
    I64(i64),
    /// A single-precision float, narrowed from the number when passed.
    F32(Number),
    F64(Number),
    /// A borrowed address; 0 is the null pointer.
    Ptr(usize),
    /// An object whose address is passed after one reference or copy is taken.
    Acquired { address: usize, acquire: Acquire },
    OwnedPtr(OwnedPtr),
    TrampolineCallback(TrampolineCallbackValue),
    Void,
}

/// A typed argument of a native call.
#[derive(Debug)]
pub struct Arg {
    pub type_: Type,
    pub value: Value,
    /// Whether `null` or `undefined` stands for zero or a null callback.
    pub optional: bool,
}

impl Arg {
    pub fn new(type_: Type, value: Value) -> (r: Arg)
        ensures
            r.type_ == type_,
            r.value == value,
            !r.optional,
    {
        Arg { type_, value, optional: false }
    }
}

/// The bytes of a C string holding `s`.
pub open spec fn cstring_bytes(s: Seq<char>) -> Seq<u8> {
    encode_utf8(s).push(0u8)
}

pub open spec fn has_nul(s: Seq<char>) -> bool {
    encode_utf8(s).contains(0u8)
}

/// An integer marshaled with truncating cast semantics.
pub open spec fn integer_value(n: Number, t: IntegerType) -> NativeValue {
    let v = int_of(n);
    match integer_native_type(t) {
        NativeType::U8 => NativeValue::U8(v as u8),
        NativeType::I8 => NativeValue::I8(v as i8),
        NativeType::U16 => NativeValue::U16(v as u16),
        NativeType::I16 => NativeValue::I16(v as i16),
        NativeType::U32 => NativeValue::U32(v as u32),
        NativeType::I32 => NativeValue::I32(v as i32),
        NativeType::U64 => NativeValue::U64(v as u64),
        _ => NativeValue::I64(v as i64),
    }
}

pub open spec fn float_value(n: Number, t: FloatType) -> NativeValue {
    match t.size {
        FloatSize::_32 => NativeValue::F32(n),
        FloatSize::_64 => NativeValue::F64(n),
    }
}

pub open spec fn bool_value(b: bool) -> NativeValue {
    NativeValue::U8(if b { 1u8 } else { 0u8 })
}

pub open spec fn spec_callback_value(h: CallbackHandle, t: CallbackTrampoline) -> TrampolineCallbackValue {
    TrampolineCallbackValue {
        trampoline: t,
        callback: h,
        data_first: spec_data_first(t),
        has_destroy_notify: spec_has_destroy_notify(t),
    }
}

/// What an object argument marshals to.
pub open spec fn object_marshals(
    v: Value,
    borrowed: bool,
    acquire: Acquire,
    objs: Map<usize, usize>,
    r: Result<NativeValue, MarshalError>,
) -> bool {
    match v {
        Value::Object(id) => if !objs.contains_key(id.0) {
            r == Err::<NativeValue, MarshalError>(MarshalError::ObjectGone)
        } else if borrowed || objs[id.0] == 0 {
            r == Ok::<NativeValue, MarshalError>(NativeValue::Ptr(objs[id.0]))
        } else {
            r == Ok::<NativeValue, MarshalError>(
                NativeValue::Acquired { address: objs[id.0], acquire },
            )
        },
        Value::Null | Value::Undefined => r == Ok::<NativeValue, MarshalError>(NativeValue::Ptr(0)),
        _ => r == Err::<NativeValue, MarshalError>(MarshalError::TypeMismatch),
    }
}

/// Whether the item descriptor can be laid out in a native array.
pub open spec fn supported_item(item: Type) -> bool {
    match item {
        Type::Integer(_) | Type::Float(_) | Type::Boolean | Type::String(_) | Type::GObject(_)
        | Type::Boxed(_) => true,
        _ => false,
    }
}

/// The error an array item raises, if any.
pub open spec fn item_error(v: Value, item: Type, objs: Map<usize, usize>) -> Option<MarshalError> {
    match item {
        Type::Integer(_) | Type::Float(_) => if v is Number {
            None
        } else {
            Some(MarshalError::TypeMismatch)
        },
        Type::Boolean => if v is Boolean {
            None
        } else {
            Some(MarshalError::TypeMismatch)
        },
        Type::String(_) => match v {
            Value::String(s) => if has_nul(s@) {
                Some(MarshalError::InteriorNul)
            } else {
                None
            },
            _ => Some(MarshalError::TypeMismatch),
        },
        _ => match v {
            Value::Object(id) => if objs.contains_key(id.0) {
                None
            } else {
                Some(MarshalError::ObjectGone)
            },
            _ => Some(MarshalError::TypeMismatch),
        },
    }
}

/// The error of the first failing item, if any.
pub open spec fn first_item_error(items: Seq<Value>, item: Type, objs: Map<usize, usize>) -> Option<
    MarshalError,
>
    decreases items.len(),
{
    if items.len() == 0 {
        None
    } else {
        match first_item_error(items.drop_last(), item, objs) {
            Some(e) => Some(e),
            None => item_error(items.last(), item, objs),
        }
    }
}

/// The native value of a numeric or boolean array item.
pub open spec fn numeric_item(v: Value, item: Type) -> NativeValue {
    match item {
        Type::Integer(it) => integer_value(v->Number_0, it),
        Type::Float(ft) => float_value(v->Number_0, ft),
        _ => bool_value(v->Boolean_0),
    }
}

pub open spec fn item_native_type(item: Type) -> NativeType {
    match item {
        Type::Integer(it) => integer_native_type(it),
        Type::Float(ft) => match ft.size {
            FloatSize::_32 => NativeType::F32,
            FloatSize::_64 => NativeType::F64,
        },
        _ => NativeType::U8,
    }
}

/// What the items of an array marshal to, once every item passed.
pub open spec fn array_items_marshaled(
    items: Seq<Value>,
    item: Type,
    objs: Map<usize, usize>,
    r: NativeValue,
) -> bool {
    match item {
        Type::String(_) => match r {
            NativeValue::OwnedPtr(OwnedPtr::Strings(bufs)) => {
                &&& bufs@.len() == items.len()
                &&& forall|i: int|
                    0 <= i < items.len() ==> #[trigger] bufs@[i]@ == cstring_bytes(
                        items[i]->String_0@,
                    )
            },
            _ => false,
        },
        Type::GObject(_) | Type::Boxed(_) => match r {
            NativeValue::OwnedPtr(OwnedPtr::Objects { ids, addresses }) => {
                &&& ids@.len() == items.len()
                &&& addresses@.len() == items.len()
                &&& forall|i: int|
                    0 <= i < items.len() ==> #[trigger] ids@[i] == items[i]->Object_0
                        && addresses@[i] == objs[ids@[i].0]
            },
            _ => false,
        },
        _ => match r {
            NativeValue::OwnedPtr(OwnedPtr::Buffer { item: nt, values }) => {
                &&& nt == item_native_type(item)
                &&& values@.len() == items.len()
                &&& forall|i: int|
                    0 <= i < items.len() ==> #[trigger] values@[i] == numeric_item(items[i], item)
            },
            _ => false,
        },
    }
}

pub open spec fn array_marshals(
    items: Seq<Value>,
    item: Type,
    objs: Map<usize, usize>,
    r: Result<NativeValue, MarshalError>,
) -> bool {
    if !supported_item(item) {
        r == Err::<NativeValue, MarshalError>(MarshalError::UnsupportedItemType)
    } else {
        match first_item_error(items, item, objs) {
            Some(e) => r == Err::<NativeValue, MarshalError>(e),
            None => r is Ok && array_items_marshaled(items, item, objs, r->Ok_0),
        }
    }
}

/// What a value marshals to under a descriptor, given the address each live
/// object identity resolves to.
pub open spec fn marshals(
    v: Value,
    t: Type,
    optional: bool,
    objs: Map<usize, usize>,
    r: Result<NativeValue, MarshalError>,
) -> bool
    decreases t,
{
    let mismatch = Err::<NativeValue, MarshalError>(MarshalError::TypeMismatch);
    let null = Ok::<NativeValue, MarshalError>(NativeValue::Ptr(0));
    match t {
        Type::Integer(it) => match v {
            Value::Number(n) => r == Ok::<NativeValue, MarshalError>(integer_value(n, it)),
            Value::Null | Value::Undefined => if optional {
                r == Ok::<NativeValue, MarshalError>(integer_value(Number::Integer(0), it))
            } else {
                r == mismatch
            },
            _ => r == mismatch,
        },
        Type::Float(ft) => match v {
            Value::Number(n) => r == Ok::<NativeValue, MarshalError>(float_value(n, ft)),
            _ => r == mismatch,
        },
        Type::String(_) => match v {
            Value::String(s) => if has_nul(s@) {
                r == Err::<NativeValue, MarshalError>(MarshalError::InteriorNul)
            } else {
                match r {
                    Ok(NativeValue::OwnedPtr(OwnedPtr::CString(b))) => b@ == cstring_bytes(s@),
                    _ => false,
                }
            },
            Value::Null | Value::Undefined => r == null,
            _ => r == mismatch,
        },
        Type::Boolean => match v {
            Value::Boolean(b) => r == Ok::<NativeValue, MarshalError>(bool_value(b)),
            _ => r == mismatch,
        },
        Type::Null | Type::Undefined => r == null,
        Type::GObject(g) => object_marshals(v, g.is_borrowed, Acquire::Ref, objs, r),
        Type::Boxed(b) => object_marshals(v, b.is_borrowed, Acquire::Copy, objs, r),
        Type::GVariant(g) => object_marshals(v, g.is_borrowed, Acquire::Ref, objs, r),
        Type::Array(a) => match v {
            Value::Array(items) => array_marshals(items@, *a.item_type, objs, r),
            _ => r == mismatch,
        },
        Type::Callback(c) => match v {
            Value::Callback(h) => r == Ok::<NativeValue, MarshalError>(
                NativeValue::TrampolineCallback(spec_callback_value(h, c.trampoline)),
            ),
            Value::Null | Value::Undefined => if optional {
                r == null
            } else {
                r == mismatch
            },
            _ => r == mismatch,
        },
        Type::Ref(rt) => match v {
            Value::Ref(rf) => match *rt.inner_type {
                Type::Boxed(_) | Type::GObject(_) => match *rf.value {
                    Value::Object(id) => if objs.contains_key(id.0) {
                        r == Ok::<NativeValue, MarshalError>(NativeValue::Ptr(objs[id.0]))
                    } else {
                        r == Err::<NativeValue, MarshalError>(MarshalError::ObjectGone)
                    },
                    Value::Null | Value::Undefined => r == Ok::<NativeValue, MarshalError>(
                        NativeValue::OwnedPtr(OwnedPtr::PointerSlot),
                    ),
                    _ => r == mismatch,
                },
                _ => match r {
                    Ok(NativeValue::OwnedPtr(OwnedPtr::Slot(inner))) => marshals(
                        *rf.value,
                        *rt.inner_type,
                        false,
                        objs,
                        Ok(*inner),
                    ),
                    Err(e) => marshals(*rf.value, *rt.inner_type, false, objs, Err(e)),
                    _ => false,
                },
            },
            Value::Null | Value::Undefined => r == null,
            _ => r == mismatch,
        },
    }
}

/// The C string bytes of `s`, or `InteriorNul` when `s` holds a NUL.
fn cstring(s: &String) -> (r: Result<Vec<u8>, MarshalError>)
    ensures
        match r {
            Ok(b) => !has_nul(s@) && b@ == cstring_bytes(s@),
            Err(e) => has_nul(s@) && e == MarshalError::InteriorNul,
        },
{
    let bytes = s.as_str().as_bytes();
    let mut out: Vec<u8> = Vec::new();
    let mut i: usize = 0;
    while i < bytes.len()
        invariant
            0 <= i <= bytes@.len(),
            bytes@ == encode_utf8(s@),
            out@ == bytes@.take(i as int),
            forall|j: int| 0 <= j < i ==> bytes@[j] != 0u8,
        decreases bytes@.len() - i,
    {
        if bytes[i] == 0u8 {
            return Err(MarshalError::InteriorNul);
        }
        out.push(bytes[i]);
        i += 1;
        proof {
            assert(out@ =~= bytes@.take(i as int));
        }
    }
    proof {
        assert(out@ =~= bytes@);
    }
    out.push(0u8);
    Ok(out)
}

/// An integer in the native width and sign of `t`, truncated.
pub fn integer_to_native(n: &Number, t: &IntegerType) -> (r: NativeValue)
    ensures
        r == integer_value(*n, *t),
{
    let v = n.as_integer();
    match (t.size, t.sign) {
        (IntegerSize::_8, IntegerSign::Unsigned) => NativeValue::U8(#[verifier::truncate] (v as u8)),
        (IntegerSize::_8, IntegerSign::Signed) => NativeValue::I8(#[verifier::truncate] (v as i8)),
        (IntegerSize::_16, IntegerSign::Unsigned) => NativeValue::U16(#[verifier::truncate] (v as u16)),
        (IntegerSize::_16, IntegerSign::Signed) => NativeValue::I16(#[verifier::truncate] (v as i16)),
        (IntegerSize::_32, IntegerSign::Unsigned) => NativeValue::U32(#[verifier::truncate] (v as u32)),
        (IntegerSize::_32, IntegerSign::Signed) => NativeValue::I32(#[verifier::truncate] (v as i32)),
        (IntegerSize::_64, IntegerSign::Unsigned) => NativeValue::U64(#[verifier::truncate] (v as u64)),
        (IntegerSize::_64, IntegerSign::Signed) => NativeValue::I64(#[verifier::truncate] (v as i64)),
    }
}

fn float_to_native(n: &Number, t: &FloatType) -> (r: NativeValue)
    ensures
        r == float_value(*n, *t),
{
    match t.size {
        FloatSize::_32 => NativeValue::F32(*n),
        FloatSize::_64 => NativeValue::F64(*n),
    }
}

fn object_to_native<T>(
    v: &Value,
    borrowed: bool,
    acquire: Acquire,
    objs: &ObjectMap<T>,
) -> (r: Result<NativeValue, MarshalError>)
    ensures
        object_marshals(*v, borrowed, acquire, objs.addresses(), r),
{
    match v {
        Value::Object(id) => match objs.resolve(*id) {
            None => Err(MarshalError::ObjectGone),
            Some(address) => if borrowed || address == 0 {
                Ok(NativeValue::Ptr(address))
            } else {
                Ok(NativeValue::Acquired { address, acquire })
            },
        },
        Value::Null | Value::Undefined => Ok(NativeValue::Ptr(0)),
        _ => Err(MarshalError::TypeMismatch),
    }
}

fn numeric_item_to_native(v: &Value, item: &Type, Ghost(m): Ghost<Map<usize, usize>>) -> (r: Result<NativeValue, MarshalError>)
    requires
        item is Integer || item is Float || item is Boolean,
    ensures
        match r {
            Ok(n) => item_error(*v, *item, m) == None::<MarshalError> && n == numeric_item(*v, *item),
            Err(e) => item_error(*v, *item, m) == Some(e),
        },
{
    match (item, v) {
        (Type::Integer(it), Value::Number(n)) => Ok(integer_to_native(n, it)),
        (Type::Float(ft), Value::Number(n)) => Ok(float_to_native(n, ft)),
        (Type::Boolean, Value::Boolean(b)) => Ok(NativeValue::U8(if *b { 1u8 } else { 0u8 })),
        _ => Err(MarshalError::TypeMismatch),
    }
}

fn item_native_type_of(item: &Type) -> (r: NativeType)
    ensures
        r == item_native_type(*item),
{
    match item {
        Type::Integer(it) => it.native_type(),
        Type::Float(ft) => match ft.size {
            FloatSize::_32 => NativeType::F32,
            FloatSize::_64 => NativeType::F64,
        },
        _ => NativeType::U8,
    }
}

proof fn lemma_first_item_error_step(items: Seq<Value>, i: int, item: Type, objs: Map<usize, usize>)
    requires
        0 <= i < items.len(),
    ensures
        first_item_error(items.take(i + 1), item, objs) == (match first_item_error(items.take(i), item, objs) {
            Some(e) => Some(e),
            None => item_error(items[i], item, objs),
        }),
{
    assert(items.take(i + 1).drop_last() =~= items.take(i));
}

proof fn lemma_first_item_error_extends(items: Seq<Value>, k: int, item: Type, objs: Map<usize, usize>)
    requires
        0 <= k <= items.len(),
        first_item_error(items.take(k), item, objs) is Some,
    ensures
        first_item_error(items, item, objs) == first_item_error(items.take(k), item, objs),
    decreases items.len() - k,
{
    if k == items.len() {
        assert(items.take(k) =~= items);
    } else {
        lemma_first_item_error_step(items, k, item, objs);
        lemma_first_item_error_extends(items, k + 1, item, objs);
    }
}

/// Marshals the items of an array argument into one owned native array.
fn array_to_native<T>(items: &Vec<Value>, item: &Type, objs: &ObjectMap<T>) -> (r: Result<
    NativeValue,
    MarshalError,
>)
    ensures
        array_marshals(items@, *item, objs.addresses(), r),
{
    let ghost m = objs.addresses();
    proof {
        assert(items@.take(items@.len() as int) =~= items@);
    }
    match item {
        Type::Integer(_) | Type::Float(_) | Type::Boolean => {
            let nt = item_native_type_of(item);
            let mut values: Vec<NativeValue> = Vec::new();
            let mut i: usize = 0;
            while i < items.len()
                invariant
                    item is Integer || item is Float || item is Boolean,
                    m == objs.addresses(),
                    0 <= i <= items@.len(),
                    first_item_error(items@.take(i as int), *item, m) == None::<MarshalError>,
                    values@.len() == i,
                    forall|j: int| 0 <= j < i ==> #[trigger] values@[j] == numeric_item(items@[j], *item),
                decreases items@.len() - i,
            {
                proof {
                    lemma_first_item_error_step(items@, i as int, *item, m);
                }
                match numeric_item_to_native(&items[i], item, Ghost(m)) {
                    Ok(n) => {
                        values.push(n);
                    },
                    Err(e) => {
                        proof {
                            lemma_first_item_error_extends(items@, i as int + 1, *item, m);
                        }
                        return Err(e);
                    },
                }
                i += 1;
            }
            Ok(NativeValue::OwnedPtr(OwnedPtr::Buffer { item: nt, values }))
        },
        Type::String(_) => {
            let mut bufs: Vec<Vec<u8>> = Vec::new();
            let mut i: usize = 0;
            while i < items.len()
                invariant
                    item is String,
                    m == objs.addresses(),
                    0 <= i <= items@.len(),
                    first_item_error(items@.take(i as int), *item, m) == None::<MarshalError>,
                    bufs@.len() == i,
                    forall|j: int| 0 <= j < i ==> #[trigger] bufs@[j]@ == cstring_bytes(items@[j]->String_0@),
                decreases items@.len() - i,
            {
                proof {
                    lemma_first_item_error_step(items@, i as int, *item, m);
                }
                match &items[i] {
                    Value::String(s) => match cstring(s) {
                        Ok(b) => {
                            bufs.push(b);
                        },
                        Err(e) => {
                            proof {
                                lemma_first_item_error_extends(items@, i as int + 1, *item, m);
                            }
                            return Err(e);
                        },
                    },
                    _ => {
                        proof {
                            lemma_first_item_error_extends(items@, i as int + 1, *item, m);
                        }
                        return Err(MarshalError::TypeMismatch);
                    },
                }
                i += 1;
            }
            Ok(NativeValue::OwnedPtr(OwnedPtr::Strings(bufs)))
        },
        Type::GObject(_) | Type::Boxed(_) => {
            let mut ids: Vec<ObjectId> = Vec::new();
            let mut addresses: Vec<usize> = Vec::new();
            let mut i: usize = 0;
            while i < items.len()
                invariant
                    item is GObject || item is Boxed,
                    m == objs.addresses(),
                    0 <= i <= items@.len(),
                    first_item_error(items@.take(i as int), *item, m) == None::<MarshalError>,
                    forall|j: int| 0 <= j < i ==> m.contains_key(#[trigger] ids@[j].0),
                    ids@.len() == i,
                    addresses@.len() == i,
                    forall|j: int|
                        0 <= j < i ==> #[trigger] ids@[j] == items@[j]->Object_0 && addresses@[j]
                            == m[ids@[j].0],
                decreases items@.len() - i,
            {
                proof {
                    lemma_first_item_error_step(items@, i as int, *item, m);
                }
                match &items[i] {
                    Value::Object(id) => match objs.resolve(*id) {
                        Some(address) => {
                            ids.push(*id);
                            addresses.push(address);
                        },
                        None => {
                            proof {
                                lemma_first_item_error_extends(items@, i as int + 1, *item, m);
                            }
                            return Err(MarshalError::ObjectGone);
                        },
                    },
                    _ => {
                        proof {
                            lemma_first_item_error_extends(items@, i as int + 1, *item, m);
                        }
                        return Err(MarshalError::TypeMismatch);
                    },
                }
                i += 1;
            }
            Ok(NativeValue::OwnedPtr(OwnedPtr::Objects { ids, addresses }))
        },
        _ => Err(MarshalError::UnsupportedItemType),
    }
}

/// Marshals `value` under the descriptor `type_`.
pub fn marshal<T>(value: &Value, type_: &Type, optional: bool, objs: &ObjectMap<T>) -> (r: Result<
    NativeValue,
    MarshalError,
>)
    ensures
        marshals(*value, *type_, optional, objs.addresses(), r),
    decreases type_,
{
    match type_ {
        Type::Integer(it) => match value {
            Value::Number(n) => Ok(integer_to_native(n, it)),
            Value::Null | Value::Undefined => if optional {
                Ok(integer_to_native(&Number::Integer(0), it))
            } else {
                Err(MarshalError::TypeMismatch)
            },
            _ => Err(MarshalError::TypeMismatch),
        },
        Type::Float(ft) => match value {
            Value::Number(n) => Ok(float_to_native(n, ft)),
            _ => Err(MarshalError::TypeMismatch),
        },
        Type::String(_) => match value {
            Value::String(s) => match cstring(s) {
                Ok(b) => Ok(NativeValue::OwnedPtr(OwnedPtr::CString(b))),
                Err(e) => Err(e),
            },
            Value::Null | Value::Undefined => Ok(NativeValue::Ptr(0)),
            _ => Err(MarshalError::TypeMismatch),
        },
        Type::Boolean => match value {
            Value::Boolean(b) => Ok(NativeValue::U8(if *b { 1u8 } else { 0u8 })),
            _ => Err(MarshalError::TypeMismatch),
        },
        Type::Null | Type::Undefined => Ok(NativeValue::Ptr(0)),
        Type::GObject(g) => object_to_native(value, g.is_borrowed, Acquire::Ref, objs),
        Type::Boxed(b) => object_to_native(value, b.is_borrowed, Acquire::Copy, objs),
        Type::GVariant(g) => object_to_native(value, g.is_borrowed, Acquire::Ref, objs),
        Type::Array(a) => match value {
            Value::Array(items) => array_to_native(items, &a.item_type, objs),
            _ => Err(MarshalError::TypeMismatch),
        },
        Type::Callback(c) => match value {
            Value::Callback(h) => Ok(NativeValue::TrampolineCallback(TrampolineCallbackValue {
                trampoline: c.trampoline,
                callback: *h,
                data_first: c.trampoline.data_first(),
                has_destroy_notify: c.trampoline.has_destroy_notify(),
            })),
            Value::Null | Value::Undefined => if optional {
                Ok(NativeValue::Ptr(0))
            } else {
                Err(MarshalError::TypeMismatch)
            },
            _ => Err(MarshalError::TypeMismatch),
        },
        Type::Ref(rt) => match value {
            Value::Ref(rf) => match &*rt.inner_type {
                Type::Boxed(_) | Type::GObject(_) => match &*rf.value {
                    Value::Object(id) => match objs.resolve(*id) {
                        Some(address) => Ok(NativeValue::Ptr(address)),
                        None => Err(MarshalError::ObjectGone),
                    },
                    Value::Null | Value::Undefined => Ok(NativeValue::OwnedPtr(OwnedPtr::PointerSlot)),
                    _ => Err(MarshalError::TypeMismatch),
                },
                inner => match marshal(&rf.value, inner, false, objs) {
                    Ok(n) => Ok(NativeValue::OwnedPtr(OwnedPtr::Slot(Box::new(n)))),
                    Err(e) => Err(e),
                },
            },
            Value::Null | Value::Undefined => Ok(NativeValue::Ptr(0)),
            _ => Err(MarshalError::TypeMismatch),
        },
    }
}

impl NativeValue {
    /// Marshals a call argument.
    pub fn try_from_arg<T>(arg: &Arg, objs: &ObjectMap<T>) -> (r: Result<NativeValue, MarshalError>)
        ensures
            marshals(arg.value, arg.type_, arg.optional, objs.addresses(), r),
    {
        marshal(&arg.value, &arg.type_, arg.optional, objs)
    }
}

/// A live, non-null object marshaled under a descriptor that transfers
/// ownership is handed over as exactly one new reference (or one copy, for a
/// boxed struct); under a borrowing descriptor its address is passed as it is,
/// with no reference or copy taken.
pub proof fn law_object_argument_ownership(
    v: Value,
    t: Type,
    optional: bool,
    objs: Map<usize, usize>,
    r: Result<NativeValue, MarshalError>,
)
    requires
        t is GObject || t is Boxed || t is GVariant,
        v is Object,
        objs.contains_key(v->Object_0.0),
        objs[v->Object_0.0] != 0,
        marshals(v, t, optional, objs, r),
    ensures
        spec_is_borrowed(t) ==> r == Ok::<NativeValue, MarshalError>(
            NativeValue::Ptr(objs[v->Object_0.0]),
        ),
        !spec_is_borrowed(t) ==> r == Ok::<NativeValue, MarshalError>(
            NativeValue::Acquired {
                address: objs[v->Object_0.0],
                acquire: if t is Boxed {
                    Acquire::Copy
                } else {
                    Acquire::Ref
                },
            },
        ),
{
}

} // verus!
