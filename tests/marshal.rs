use gtkx_native::marshal::{Acquire, Arg, MarshalError, NativeValue, OwnedPtr};
use gtkx_native::receive::{list_item_from_native, Incoming};
use gtkx_native::registry::{ObjectId, ObjectKind, ObjectMap};
use gtkx_native::types::{
    ArrayType, BoxedType, CallbackTrampoline, CallbackType, FloatSize, FloatType, GObjectType,
    GVariantType, IntegerSign, IntegerSize, IntegerType, ListType, NativeType, RefType, StringType,
    Type,
};
use gtkx_native::value::{CallbackHandle, Number, Ref, RefHandle, Value};

fn integer(size: IntegerSize, sign: IntegerSign) -> Type {
    Type::Integer(IntegerType::new(size, sign))
}

fn empty() -> ObjectMap<()> {
    ObjectMap::new()
}

fn marshal(value: Value, type_: Type, objs: &ObjectMap<()>) -> Result<NativeValue, MarshalError> {
    NativeValue::try_from_arg(&Arg::new(type_, value), objs)
}

fn back(n: &NativeValue, t: &Type) -> Incoming {
    Value::from_cif_value(n, t).unwrap()
}

#[test]
fn integer_round_trip_in_range() {
    let objs = empty();
    let t = integer(IntegerSize::_32, IntegerSign::Signed);
    let n = marshal(Value::Number(Number::Integer(-123)), integer(IntegerSize::_32, IntegerSign::Signed), &objs).unwrap();
    assert!(matches!(n, NativeValue::I32(-123)));
    assert!(matches!(back(&n, &t), Incoming::Ready(Value::Number(Number::Integer(-123)))));
}

#[test]
fn integer_marshaled_narrower_truncates() {
    let objs = empty();
    let v = (1i128 << 32) + 5;
    let n = marshal(Value::Number(Number::Integer(v)), integer(IntegerSize::_32, IntegerSign::Signed), &objs).unwrap();
    assert!(matches!(n, NativeValue::I32(5)));
    let n = marshal(Value::Number(Number::Integer(300)), integer(IntegerSize::_8, IntegerSign::Unsigned), &objs).unwrap();
    assert!(matches!(n, NativeValue::U8(44)));
    let n = marshal(Value::Number(Number::Integer(-1)), integer(IntegerSize::_16, IntegerSign::Unsigned), &objs).unwrap();
    assert!(matches!(n, NativeValue::U16(65535)));
    let n = marshal(Value::Number(Number::Integer(-1)), integer(IntegerSize::_64, IntegerSign::Unsigned), &objs).unwrap();
    assert!(matches!(n, NativeValue::U64(u64::MAX)));
    let t = integer(IntegerSize::_64, IntegerSign::Unsigned);
    assert!(matches!(back(&n, &t), Incoming::Ready(Value::Number(Number::Integer(v))) if v == u64::MAX as i128));
}

#[test]
fn real_number_uses_truncated_value_for_integers() {
    let objs = empty();
    let v = Value::Number(Number::Real { bits: 2.75f64.to_bits(), truncated: 2 });
    let n = marshal(v, integer(IntegerSize::_8, IntegerSign::Signed), &objs).unwrap();
    assert!(matches!(n, NativeValue::I8(2)));
}

#[test]
fn float_and_boolean_round_trip() {
    let objs = empty();
    let x = Number::Real { bits: 1.5f64.to_bits(), truncated: 1 };
    let t = Type::Float(FloatType::new(FloatSize::_64));
    let n = marshal(Value::Number(x), Type::Float(FloatType::new(FloatSize::_64)), &objs).unwrap();
    assert!(matches!(back(&n, &t), Incoming::Ready(Value::Number(y)) if y == x));
    let n = marshal(Value::Boolean(true), Type::Boolean, &objs).unwrap();
    assert!(matches!(n, NativeValue::U8(1)));
    assert!(matches!(back(&n, &Type::Boolean), Incoming::Ready(Value::Boolean(true))));
    let n = marshal(Value::Boolean(false), Type::Boolean, &objs).unwrap();
    assert!(matches!(back(&n, &Type::Boolean), Incoming::Ready(Value::Boolean(false))));
}

#[test]
fn type_mismatch_is_an_error() {
    let objs = empty();
    let r = marshal(Value::String("7".to_string()), integer(IntegerSize::_32, IntegerSign::Signed), &objs);
    assert_eq!(r.unwrap_err(), MarshalError::TypeMismatch);
    let r = marshal(Value::Number(Number::Integer(1)), Type::Boolean, &objs);
    assert_eq!(r.unwrap_err(), MarshalError::TypeMismatch);
    let r = marshal(Value::Null, integer(IntegerSize::_32, IntegerSign::Signed), &objs);
    assert_eq!(r.unwrap_err(), MarshalError::TypeMismatch);
}

#[test]
fn optional_null_integer_is_zero() {
    let objs = empty();
    let arg = Arg { type_: integer(IntegerSize::_32, IntegerSign::Unsigned), value: Value::Undefined, optional: true };
    assert!(matches!(NativeValue::try_from_arg(&arg, &objs), Ok(NativeValue::U32(0))));
}

#[test]
fn string_argument_owns_nul_terminated_buffer() {
    let objs = empty();
    let n = marshal(Value::String("hello".to_string()), Type::String(StringType { is_borrowed: false }), &objs).unwrap();
    match n {
        NativeValue::OwnedPtr(OwnedPtr::CString(b)) => assert_eq!(b, b"hello\0".to_vec()),
        _ => panic!("expected an owned C string"),
    }
    let n = marshal(Value::Null, Type::String(StringType { is_borrowed: true }), &objs).unwrap();
    assert!(matches!(n, NativeValue::Ptr(0)));
}

#[test]
fn string_with_nul_is_rejected() {
    let objs = empty();
    let r = marshal(Value::String("a\0b".to_string()), Type::String(StringType { is_borrowed: false }), &objs);
    assert_eq!(r.unwrap_err(), MarshalError::InteriorNul);
}

#[test]
fn owned_object_argument_is_acquired_once() {
    let mut objs = empty();
    let id = objs.register((), ObjectKind::GObject, 0x4000);
    let n = marshal(Value::Object(id), Type::GObject(GObjectType::new(false)), &objs).unwrap();
    assert!(matches!(n, NativeValue::Acquired { address: 0x4000, acquire: Acquire::Ref }));
    let n = marshal(Value::Object(id), Type::GObject(GObjectType::new(true)), &objs).unwrap();
    assert!(matches!(n, NativeValue::Ptr(0x4000)));
    let boxed = Type::Boxed(BoxedType::new(false, "GdkRGBA".to_string(), None));
    let n = marshal(Value::Object(id), boxed, &objs).unwrap();
    assert!(matches!(n, NativeValue::Acquired { address: 0x4000, acquire: Acquire::Copy }));
    let n = marshal(Value::Object(id), Type::GVariant(GVariantType::new(false)), &objs).unwrap();
    assert!(matches!(n, NativeValue::Acquired { address: 0x4000, acquire: Acquire::Ref }));
}

#[test]
fn removed_object_argument_is_gone() {
    let mut objs = empty();
    let id = objs.register((), ObjectKind::GObject, 0x4000);
    objs.remove(id);
    let r = marshal(Value::Object(id), Type::GObject(GObjectType::new(true)), &objs);
    assert_eq!(r.unwrap_err(), MarshalError::ObjectGone);
}

#[test]
fn numeric_array_becomes_buffer() {
    let objs = empty();
    let items = vec![Value::Number(Number::Integer(1)), Value::Number(Number::Integer(256 + 2))];
    let t = Type::Array(ArrayType::new(integer(IntegerSize::_8, IntegerSign::Unsigned)));
    match marshal(Value::Array(items), t, &objs).unwrap() {
        NativeValue::OwnedPtr(OwnedPtr::Buffer { item, values }) => {
            assert_eq!(item, NativeType::U8);
            assert!(matches!(values[0], NativeValue::U8(1)));
            assert!(matches!(values[1], NativeValue::U8(2)));
        }
        _ => panic!("expected a buffer"),
    }
}

#[test]
fn string_and_object_arrays() {
    let mut objs = empty();
    let a = objs.register((), ObjectKind::GObject, 0x10);
    let b = objs.register((), ObjectKind::GObject, 0x20);
    let t = Type::Array(ArrayType::new(Type::String(StringType { is_borrowed: true })));
    let items = vec![Value::String("hello".to_string()), Value::String("world".to_string())];
    match marshal(Value::Array(items), t, &objs).unwrap() {
        NativeValue::OwnedPtr(OwnedPtr::Strings(bufs)) => {
            assert_eq!(bufs, vec![b"hello\0".to_vec(), b"world\0".to_vec()]);
        }
        _ => panic!("expected strings"),
    }
    let t = Type::Array(ArrayType::new(Type::GObject(GObjectType::new(true))));
    match marshal(Value::Array(vec![Value::Object(a), Value::Object(b)]), t, &objs).unwrap() {
        NativeValue::OwnedPtr(OwnedPtr::Objects { ids, addresses }) => {
            assert_eq!(ids, vec![a, b]);
            assert_eq!(addresses, vec![0x10, 0x20]);
        }
        _ => panic!("expected objects"),
    }
}

#[test]
fn array_errors() {
    let objs = empty();
    let t = Type::Array(ArrayType::new(Type::Null));
    assert_eq!(marshal(Value::Array(vec![]), t, &objs).unwrap_err(), MarshalError::UnsupportedItemType);
    let t = Type::Array(ArrayType::new(Type::Boolean));
    let items = vec![Value::Boolean(true), Value::Number(Number::Integer(1))];
    assert_eq!(marshal(Value::Array(items), t, &objs).unwrap_err(), MarshalError::TypeMismatch);
    let t = Type::Array(ArrayType::new(Type::GObject(GObjectType::new(true))));
    let items = vec![Value::Object(ObjectId(99))];
    assert_eq!(marshal(Value::Array(items), t, &objs).unwrap_err(), MarshalError::ObjectGone);
}

#[test]
fn out_parameters() {
    let mut objs = empty();
    let id = objs.register((), ObjectKind::Boxed, 0x900);
    let boxed = || Type::Ref(RefType::new(Type::Boxed(BoxedType::new(true, "X".to_string(), None))));
    let caller_allocated = Value::Ref(Ref::new(Value::Object(id), RefHandle(1)));
    assert!(matches!(marshal(caller_allocated, boxed(), &objs), Ok(NativeValue::Ptr(0x900))));
    let callee_allocated = Value::Ref(Ref::new(Value::Null, RefHandle(1)));
    assert!(matches!(marshal(callee_allocated, boxed(), &objs), Ok(NativeValue::OwnedPtr(OwnedPtr::PointerSlot))));
    let t = Type::Ref(RefType::new(integer(IntegerSize::_32, IntegerSign::Signed)));
    let prim = Value::Ref(Ref::new(Value::Number(Number::Integer(9)), RefHandle(2)));
    match marshal(prim, t, &objs).unwrap() {
        NativeValue::OwnedPtr(OwnedPtr::Slot(inner)) => assert!(matches!(*inner, NativeValue::I32(9))),
        _ => panic!("expected a slot"),
    }
}

#[test]
fn callback_argument_layout() {
    let objs = empty();
    let cb = |t: CallbackTrampoline| {
        Type::Callback(CallbackType { trampoline: t, arg_types: None, return_type: None, source_type: None, result_type: None })
    };
    match marshal(Value::Callback(CallbackHandle(5)), cb(CallbackTrampoline::Destroy), &objs).unwrap() {
        NativeValue::TrampolineCallback(tc) => {
            assert!(tc.data_first);
            assert!(!tc.has_destroy_notify);
            assert_eq!(tc.callback, CallbackHandle(5));
        }
        _ => panic!("expected a trampoline"),
    }
    match marshal(Value::Callback(CallbackHandle(5)), cb(CallbackTrampoline::DrawFunc), &objs).unwrap() {
        NativeValue::TrampolineCallback(tc) => {
            assert!(!tc.data_first);
            assert!(tc.has_destroy_notify);
        }
        _ => panic!("expected a trampoline"),
    }
    assert_eq!(marshal(Value::Null, cb(CallbackTrampoline::Closure), &objs).unwrap_err(), MarshalError::TypeMismatch);
}

#[test]
fn gobject_null_returns_null_value() {
    let t = Type::GObject(GObjectType::new(false));
    assert!(matches!(back(&NativeValue::Ptr(0), &t), Incoming::Ready(Value::Null)));
}

#[test]
fn string_null_returns_null_value() {
    let t = Type::String(StringType { is_borrowed: false });
    assert!(matches!(back(&NativeValue::Ptr(0), &t), Incoming::Ready(Value::Null)));
}

#[test]
fn boxed_null_returns_null_value() {
    let t = Type::Boxed(BoxedType::new(false, "GdkRGBA".to_string(), None));
    assert!(matches!(back(&NativeValue::Ptr(0), &t), Incoming::Ready(Value::Null)));
}

#[test]
fn glist_null_returns_empty_array() {
    let t = Type::Array(ArrayType {
        item_type: Box::new(Type::GObject(GObjectType::new(true))),
        list_type: ListType::GList,
        is_borrowed: false,
    });
    match back(&NativeValue::Ptr(0), &t) {
        Incoming::Ready(Value::Array(v)) => assert!(v.is_empty()),
        _ => panic!("Expected Value::Array"),
    }
}

#[test]
fn gobject_borrowed_does_not_take_ownership() {
    let t = Type::GObject(GObjectType::new(true));
    assert!(matches!(
        back(&NativeValue::Ptr(0x40), &t),
        Incoming::Object { address: 0x40, kind: ObjectKind::GObject, acquire: Some(Acquire::Ref), sink_floating: false }
    ));
}

#[test]
fn gobject_full_transfer_takes_ownership() {
    let t = Type::GObject(GObjectType::new(false));
    assert!(matches!(
        back(&NativeValue::Ptr(0x40), &t),
        Incoming::Object { address: 0x40, kind: ObjectKind::GObject, acquire: None, sink_floating: true }
    ));
}

#[test]
fn boxed_borrowed_creates_copy() {
    let t = Type::Boxed(BoxedType::new(true, "GdkRGBA".to_string(), None));
    assert!(matches!(
        back(&NativeValue::Ptr(0x80), &t),
        Incoming::Object { address: 0x80, kind: ObjectKind::Boxed, acquire: Some(Acquire::Copy), .. }
    ));
}

#[test]
fn boxed_full_transfer_takes_ownership() {
    let t = Type::Boxed(BoxedType::new(false, "GdkRGBA".to_string(), None));
    assert!(matches!(back(&NativeValue::Ptr(0x80), &t), Incoming::Object { acquire: None, .. }));
}

#[test]
fn gvariant_results_follow_the_borrow_flag() {
    let t = Type::GVariant(GVariantType::new(true));
    assert!(matches!(back(&NativeValue::Ptr(0x8), &t), Incoming::Object { kind: ObjectKind::GVariant, acquire: Some(Acquire::Ref), .. }));
    let t = Type::GVariant(GVariantType::new(false));
    assert!(matches!(back(&NativeValue::Ptr(0x8), &t), Incoming::Object { acquire: None, sink_floating: false, .. }));
}

#[test]
fn string_borrowed_does_not_free() {
    let t = Type::String(StringType { is_borrowed: true });
    assert!(matches!(back(&NativeValue::Ptr(0x99), &t), Incoming::String { address: 0x99, free: false }));
}

#[test]
fn string_full_transfer_frees_memory() {
    let t = Type::String(StringType { is_borrowed: false });
    assert!(matches!(back(&NativeValue::Ptr(0x99), &t), Incoming::String { address: 0x99, free: true }));
}

#[test]
fn glist_borrowed_does_not_free_list() {
    let t = Type::Array(ArrayType {
        item_type: Box::new(Type::String(StringType { is_borrowed: true })),
        list_type: ListType::GList,
        is_borrowed: true,
    });
    assert!(matches!(back(&NativeValue::Ptr(0x70), &t), Incoming::List { address: 0x70, list_type: ListType::GList, free_nodes: false }));
}

#[test]
fn glist_full_transfer_frees_list() {
    let t = Type::Array(ArrayType {
        item_type: Box::new(Type::GObject(GObjectType::new(true))),
        list_type: ListType::GSList,
        is_borrowed: false,
    });
    assert!(matches!(back(&NativeValue::Ptr(0x70), &t), Incoming::List { free_nodes: true, .. }));
}

#[test]
fn strv_borrowed_does_not_free() {
    let t = Type::Array(ArrayType {
        item_type: Box::new(Type::String(StringType { is_borrowed: true })),
        list_type: ListType::Array,
        is_borrowed: true,
    });
    assert!(matches!(back(&NativeValue::Ptr(0x60), &t), Incoming::StringVector { address: 0x60, free: false }));
}

#[test]
fn strv_full_transfer_frees_strings() {
    let t = Type::Array(ArrayType::new(Type::String(StringType { is_borrowed: false })));
    assert!(matches!(back(&NativeValue::Ptr(0x60), &t), Incoming::StringVector { address: 0x60, free: true }));
}

#[test]
fn list_items_are_borrowed() {
    let r = list_item_from_native(0x10, &Type::GObject(GObjectType::new(false))).unwrap();
    assert!(matches!(r, Incoming::Object { acquire: Some(Acquire::Ref), .. }));
    let r = list_item_from_native(0x10, &Type::String(StringType { is_borrowed: false })).unwrap();
    assert!(matches!(r, Incoming::String { free: false, .. }));
    assert!(list_item_from_native(0x10, &Type::Boolean).is_err());
}

#[test]
fn buffer_read_back_as_array() {
    let t = Type::Array(ArrayType::new(Type::Boolean));
    let n = NativeValue::OwnedPtr(OwnedPtr::Buffer { item: NativeType::U8, values: vec![NativeValue::U8(0), NativeValue::U8(3)] });
    match back(&n, &t) {
        Incoming::Ready(Value::Array(v)) => {
            assert!(matches!(v[0], Value::Boolean(false)));
            assert!(matches!(v[1], Value::Boolean(true)));
        }
        _ => panic!("Expected Value::Array"),
    }
}

#[test]
fn unsupported_results() {
    let cb = Type::Callback(CallbackType { trampoline: CallbackTrampoline::Closure, arg_types: None, return_type: None, source_type: None, result_type: None });
    assert_eq!(Value::from_cif_value(&NativeValue::Ptr(1), &cb).unwrap_err(), MarshalError::UnsupportedType);
    let t = Type::Boolean;
    assert_eq!(Value::from_cif_value(&NativeValue::I32(1), &t).unwrap_err(), MarshalError::TypeMismatch);
}

#[test]
fn owned_arrays_read_back() {
    let t = Type::Array(ArrayType::new(Type::String(StringType { is_borrowed: true })));
    let n = NativeValue::OwnedPtr(OwnedPtr::Strings(vec![b"hello\0".to_vec(), b"world\0".to_vec()]));
    match back(&n, &t) {
        Incoming::CStrings(cs) => assert_eq!(cs, vec![b"hello\0".to_vec(), b"world\0".to_vec()]),
        _ => panic!("Expected strings"),
    }
    let t = Type::Array(ArrayType::new(Type::GObject(GObjectType::new(true))));
    let n = NativeValue::OwnedPtr(OwnedPtr::Objects { ids: vec![ObjectId(3), ObjectId(4)], addresses: vec![0x1, 0x2] });
    match back(&n, &t) {
        Incoming::Ready(Value::Array(vs)) => {
            assert!(matches!(vs[0], Value::Object(ObjectId(3))));
            assert!(matches!(vs[1], Value::Object(ObjectId(4))));
        }
        _ => panic!("Expected Value::Array"),
    }
    let t = Type::Array(ArrayType::new(Type::Boolean));
    assert_eq!(Value::from_cif_value(&n, &t).unwrap_err(), MarshalError::TypeMismatch);
}
