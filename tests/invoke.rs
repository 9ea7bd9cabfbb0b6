use gtkx_native::gtype::get_type_fn_name;
use gtkx_native::field::{field_value, read_field, write_field, FieldError};
use gtkx_native::invoke::{finish_call, prepare_batch, prepare_call, return_type, signature, BatchCallDescriptor, CallError, Slot};
use gtkx_native::marshal::{Arg, MarshalError, NativeValue, OwnedPtr};
use gtkx_native::receive::Incoming;
use gtkx_native::registry::{ObjectId, ObjectKind, ObjectMap};
use gtkx_native::state::{library_candidates, LibraryCache};
use gtkx_native::types::{
    BoxedType, CallbackTrampoline, CallbackType, GObjectType, IntegerSign, IntegerSize,
    IntegerType, NativeType, RefType, StringType, Type,
};
use gtkx_native::value::{CallbackHandle, Number, Ref, RefHandle, Value};

fn i32_type() -> Type {
    Type::Integer(IntegerType::new(IntegerSize::_32, IntegerSign::Signed))
}

fn callback_type(t: CallbackTrampoline) -> Type {
    Type::Callback(CallbackType { trampoline: t, arg_types: None, return_type: None, source_type: None, result_type: None })
}

#[test]
fn owned_string_argument_lives_until_call_is_finished() {
    let objs: ObjectMap<()> = ObjectMap::new();
    let args = vec![Arg::new(Type::String(StringType { is_borrowed: false }), Value::String("hello".to_string()))];
    let prepared = prepare_call(&args, &i32_type(), &objs).unwrap();
    assert_eq!(prepared.arg_types, vec![NativeType::Pointer]);
    assert_eq!(prepared.return_type, NativeType::I32);
    assert_eq!(prepared.slots, vec![Slot::Value(0)]);
    let outcome = finish_call(&args, &prepared.out_params, &vec![], &NativeValue::I32(5), &i32_type()).unwrap();
    assert!(matches!(outcome.value, Incoming::Ready(Value::Number(Number::Integer(5)))));
    // the buffer is still owned by the prepared call after the result was read
    match &prepared.values[0] {
        NativeValue::OwnedPtr(OwnedPtr::CString(b)) => assert_eq!(b, &b"hello\0".to_vec()),
        _ => panic!("expected an owned C string"),
    }
}

#[test]
fn callback_arguments_fill_several_slots() {
    let objs: ObjectMap<()> = ObjectMap::new();
    let args = vec![
        Arg::new(i32_type(), Value::Number(Number::Integer(1))),
        Arg::new(callback_type(CallbackTrampoline::SourceFunc), Value::Callback(CallbackHandle(1))),
        Arg::new(callback_type(CallbackTrampoline::Destroy), Value::Callback(CallbackHandle(2))),
        Arg::new(callback_type(CallbackTrampoline::Closure), Value::Callback(CallbackHandle(3))),
    ];
    let p = prepare_call(&args, &Type::Undefined, &objs).unwrap();
    assert_eq!(p.arg_types.len(), 7);
    assert_eq!(p.arg_types[0], NativeType::I32);
    assert_eq!(p.return_type, NativeType::Void);
    assert_eq!(
        p.slots,
        vec![
            Slot::Value(0),
            Slot::Trampoline(1),
            Slot::Data(1),
            Slot::DestroyNotify(1),
            Slot::Data(2),
            Slot::Trampoline(2),
            Slot::Data(3),
        ]
    );
    assert_eq!(signature(&args).len(), p.slots.len());
}

#[test]
fn absent_optional_callback_fills_its_slots_with_null() {
    let objs: ObjectMap<()> = ObjectMap::new();
    let args = vec![Arg { type_: callback_type(CallbackTrampoline::TickFunc), value: Value::Null, optional: true }];
    let p = prepare_call(&args, &Type::Undefined, &objs).unwrap();
    assert_eq!(p.slots, vec![Slot::Value(0), Slot::Null, Slot::Null]);
    assert_eq!(p.arg_types.len(), 3);
}

#[test]
fn argument_errors_name_the_argument() {
    let objs: ObjectMap<()> = ObjectMap::new();
    let args = vec![
        Arg::new(i32_type(), Value::Number(Number::Integer(1))),
        Arg::new(i32_type(), Value::Boolean(true)),
    ];
    let e = prepare_call(&args, &Type::Undefined, &objs).unwrap_err();
    assert_eq!(e, CallError::Argument { index: 1, error: MarshalError::TypeMismatch });
    let e = prepare_call(&args, &callback_type(CallbackTrampoline::Closure), &objs).unwrap_err();
    assert_eq!(e, CallError::UnsupportedReturnType);
    assert_eq!(return_type(&Type::Null), Ok(NativeType::Void));
    assert_eq!(return_type(&Type::Boolean), Ok(NativeType::U8));
}

#[test]
fn out_parameters_are_read_back() {
    let mut objs: ObjectMap<()> = ObjectMap::new();
    let id = objs.register((), ObjectKind::Boxed, 0x500);
    let boxed = Type::Boxed(BoxedType::new(false, "X".to_string(), None));
    let args = vec![
        Arg::new(Type::Ref(RefType::new(i32_type())), Value::Ref(Ref::new(Value::Number(Number::Integer(0)), RefHandle(10)))),
        Arg::new(Type::Ref(RefType::new(Type::Boxed(BoxedType::new(false, "X".to_string(), None)))), Value::Ref(Ref::new(Value::Object(id), RefHandle(11)))),
        Arg::new(Type::Ref(RefType::new(boxed)), Value::Ref(Ref::new(Value::Null, RefHandle(12)))),
    ];
    let p = prepare_call(&args, &Type::Undefined, &objs).unwrap();
    assert_eq!(p.out_params, vec![0, 2]);
    let read = vec![NativeValue::I32(42), NativeValue::Ptr(0x777)];
    let outcome = finish_call(&args, &p.out_params, &read, &NativeValue::Void, &Type::Undefined).unwrap();
    assert!(matches!(outcome.value, Incoming::Ready(Value::Undefined)));
    assert_eq!(outcome.ref_updates.len(), 2);
    assert_eq!(outcome.ref_updates[0].0, RefHandle(10));
    assert!(matches!(outcome.ref_updates[0].1, Incoming::Ready(Value::Number(Number::Integer(42)))));
    assert_eq!(outcome.ref_updates[1].0, RefHandle(12));
    assert!(matches!(outcome.ref_updates[1].1, Incoming::Object { address: 0x777, acquire: None, .. }));
}

#[test]
fn allocated_boxed_field_write_then_read() {
    let mut objs: ObjectMap<Vec<u8>> = ObjectMap::new();
    let base: usize = 0x10_0000;
    let id = objs.register(vec![0u8; 16], ObjectKind::Boxed, base);
    let t = i32_type();
    let (address, stored) = write_field(&objs, id, &t, 0, &Value::Number(Number::Integer(42))).unwrap();
    assert_eq!(address, base);
    assert!(matches!(stored, NativeValue::I32(42)));
    let (address, native) = read_field(&objs, id, &t, 0).unwrap();
    assert_eq!(address, base);
    assert_eq!(native, NativeType::I32);
    // memory at `address` holds what was stored
    match field_value(&stored, &t).unwrap() {
        Incoming::Ready(Value::Number(Number::Integer(n))) => assert_eq!(n, 42),
        _ => panic!("expected a number"),
    }
}

#[test]
fn field_errors() {
    let mut objs: ObjectMap<()> = ObjectMap::new();
    let null = objs.register((), ObjectKind::Boxed, 0);
    let live = objs.register((), ObjectKind::Boxed, usize::MAX - 1);
    assert_eq!(read_field(&objs, ObjectId(77), &Type::Boolean, 0).unwrap_err(), FieldError::ObjectGone);
    assert_eq!(read_field(&objs, null, &Type::Boolean, 0).unwrap_err(), FieldError::NullObject);
    assert_eq!(read_field(&objs, live, &Type::Boolean, 8).unwrap_err(), FieldError::OffsetOverflow);
    assert_eq!(read_field(&objs, live, &Type::Null, 0).unwrap_err(), FieldError::UnsupportedType);
    assert_eq!(write_field(&objs, live, &Type::Boolean, 0, &Value::Null).unwrap_err(), FieldError::TypeMismatch);
    assert_eq!(write_field(&objs, live, &Type::String(StringType { is_borrowed: true }), 0, &Value::Null).unwrap_err(), FieldError::UnsupportedType);
    let obj = field_value(&NativeValue::Ptr(0x30), &Type::GObject(GObjectType::new(false))).unwrap();
    assert!(matches!(obj, Incoming::Object { acquire: Some(_), .. }));
}

#[test]
fn library_names_split_on_commas() {
    let names = library_candidates("libgtk-4.so.1,libgtk-4.so");
    assert_eq!(names, vec!["libgtk-4.so.1".to_string(), "libgtk-4.so".to_string()]);
    assert_eq!(library_candidates("libc.so.6"), vec!["libc.so.6".to_string()]);
    assert_eq!(library_candidates(""), vec!["".to_string()]);
    assert_eq!(library_candidates("a,,b,"), vec!["a".to_string(), "".to_string(), "b".to_string(), "".to_string()]);
}

#[test]
fn library_cache_finds_what_was_loaded() {
    let mut cache: LibraryCache<u32> = LibraryCache::new();
    assert!(cache.get("libx.so").is_none());
    cache.insert("libx.so".to_string(), 9);
    assert_eq!(cache.get("libx.so"), Some(&9));
    assert!(cache.get("liby.so").is_none());
}

#[test]
fn boxed_type_registration_function_name() {
    assert_eq!(get_type_fn_name("GdkRGBA"), "gdk_r_g_b_a_get_type");
    assert_eq!(get_type_fn_name("GtkTextIter"), "gtk_text_iter_get_type");
    assert_eq!(get_type_fn_name("plain"), "plain_get_type");
    assert_eq!(get_type_fn_name(""), "_get_type");
}

#[test]
fn batch_fails_as_a_whole_naming_the_first_failing_call() {
    let objs: ObjectMap<()> = ObjectMap::new();
    let call = |v: Value| BatchCallDescriptor {
        library_name: "libx.so".to_string(),
        symbol_name: "f".to_string(),
        args: vec![Arg::new(i32_type(), v)],
    };
    let good = vec![call(Value::Number(Number::Integer(1))), call(Value::Number(Number::Integer(2)))];
    let prepared = prepare_batch(&good, &objs).unwrap();
    assert_eq!(prepared.len(), 2);
    assert!(matches!(prepared[1].values[0], NativeValue::I32(2)));
    assert_eq!(prepared[0].return_type, NativeType::Void);
    let bad = vec![call(Value::Number(Number::Integer(1))), call(Value::Null), call(Value::Boolean(true))];
    let (index, e) = prepare_batch(&bad, &objs).unwrap_err();
    assert_eq!(index, 1);
    assert_eq!(e, CallError::Argument { index: 0, error: MarshalError::TypeMismatch });
}
