use gtkx_native::dispatch::{Dispatcher, Poll, Route, WaitStep};
use gtkx_native::marshal::{Acquire, MarshalError};
use gtkx_native::receive::Incoming;
use gtkx_native::trampoline::{callback_return, disconnect_policy, invocation_args, CallbackReturn, DisconnectPolicy, GlibArg};
use gtkx_native::types::{
    ArrayType, BoxedType, CallbackTrampoline, CallbackType, FloatSize, FloatType, GObjectType, IntegerSign,
    IntegerSize, IntegerType, RefType, StringType, Type,
};
use gtkx_native::value::{CallbackHandle, Number, Value};

fn i32_type() -> Type {
    Type::Integer(IntegerType::new(IntegerSize::_32, IntegerSign::Signed))
}

fn closure(args: Option<Vec<Type>>, ret: Option<Type>) -> CallbackType {
    CallbackType {
        trampoline: CallbackTrampoline::Closure,
        arg_types: args,
        return_type: ret.map(Box::new),
        source_type: None,
        result_type: None,
    }
}

fn kind(t: CallbackTrampoline) -> CallbackType {
    CallbackType { trampoline: t, arg_types: None, return_type: None, source_type: None, result_type: None }
}

#[test]
fn reentrant_closure_callback_uses_the_synchronous_queue() {
    let cb = closure(Some(vec![i32_type()]), Some(Type::Boolean));
    let received = vec![GlibArg::I32(7)];
    let args = invocation_args(&cb, &received).unwrap().unwrap();
    assert_eq!(args.len(), 1);
    assert!(matches!(args[0], Incoming::Ready(Value::Number(Number::Integer(7)))));
    let mut d: Dispatcher<u32, (CallbackHandle, Vec<Incoming>)> = Dispatcher::new();
    d.enter_js_wait();
    assert_eq!(d.queue_callback((CallbackHandle(1), args)), Route::Sync);
    let (drained, step) = d.js_wait_turn(Poll::Empty);
    assert_eq!(drained.len(), 1);
    assert_eq!(drained[0].0, CallbackHandle(1));
    assert_eq!(step, WaitStep::Continue);
    let answer = callback_return(&cb, Some(Value::Boolean(true)));
    assert!(matches!(answer, CallbackReturn::Boolean(true)));
}

#[test]
fn closure_defaults_for_undefined_and_failure() {
    let cb = closure(None, Some(Type::Boolean));
    assert!(matches!(callback_return(&cb, None), CallbackReturn::Boolean(false)));
    let cb = closure(None, Some(i32_type()));
    assert!(matches!(callback_return(&cb, Some(Value::Undefined)), CallbackReturn::Int(0)));
    let cb = closure(None, None);
    assert!(matches!(callback_return(&cb, None), CallbackReturn::Nothing));
    assert!(matches!(callback_return(&cb, Some(Value::String("x".to_string()))), CallbackReturn::String(s) if s == "x"));
}

#[test]
fn kind_specific_results() {
    assert!(matches!(callback_return(&kind(CallbackTrampoline::SourceFunc), None), CallbackReturn::Boolean(false)));
    assert!(matches!(callback_return(&kind(CallbackTrampoline::TickFunc), Some(Value::Boolean(true))), CallbackReturn::Boolean(true)));
    let cmp = kind(CallbackTrampoline::CompareDataFunc);
    assert!(matches!(callback_return(&cmp, Some(Value::Number(Number::Integer(-3)))), CallbackReturn::Int(-3)));
    assert!(matches!(callback_return(&cmp, Some(Value::Null)), CallbackReturn::Int(0)));
    assert!(matches!(callback_return(&cmp, None), CallbackReturn::Int(0)));
    assert!(matches!(callback_return(&kind(CallbackTrampoline::Destroy), Some(Value::Boolean(true))), CallbackReturn::Nothing));
    assert!(matches!(callback_return(&kind(CallbackTrampoline::AsyncReady), None), CallbackReturn::Nothing));
}

#[test]
fn disconnect_is_fatal_only_where_a_result_is_needed() {
    assert_eq!(disconnect_policy(CallbackTrampoline::Closure), DisconnectPolicy::Fatal);
    assert_eq!(disconnect_policy(CallbackTrampoline::CompareDataFunc), DisconnectPolicy::Fatal);
    assert_eq!(disconnect_policy(CallbackTrampoline::Destroy), DisconnectPolicy::Ignore);
    assert_eq!(disconnect_policy(CallbackTrampoline::AsyncReady), DisconnectPolicy::Ignore);
    assert_eq!(disconnect_policy(CallbackTrampoline::DrawFunc), DisconnectPolicy::Ignore);
}

#[test]
fn async_ready_arguments() {
    let mut cb = kind(CallbackTrampoline::AsyncReady);
    cb.source_type = Some(Box::new(Type::GObject(GObjectType::new(true))));
    let args = invocation_args(&cb, &vec![GlibArg::Pointer(0x10)]).unwrap().unwrap();
    assert_eq!(args.len(), 2);
    assert!(matches!(args[0], Incoming::Object { address: 0x10, .. }));
    assert!(matches!(args[1], Incoming::Ready(Value::Null)));
    let bad = invocation_args(&cb, &vec![GlibArg::I32(1)]).unwrap_err();
    assert_eq!(bad, MarshalError::TypeMismatch);
}

#[test]
fn untyped_and_argumentless_invocations() {
    assert!(invocation_args(&kind(CallbackTrampoline::DrawFunc), &vec![GlibArg::I32(1)]).unwrap().is_none());
    let none = invocation_args(&kind(CallbackTrampoline::Destroy), &vec![GlibArg::I32(1)]).unwrap().unwrap();
    assert!(none.is_empty());
    let cb = closure(Some(vec![i32_type(), i32_type()]), None);
    let args = invocation_args(&cb, &vec![GlibArg::I32(1)]).unwrap().unwrap();
    assert_eq!(args.len(), 1);
}

#[test]
fn from_glib_value_gobject_borrowed() {
    let t = Type::GObject(GObjectType { is_borrowed: true });
    let result = Value::from_glib_value(&GlibArg::Pointer(0x4242), &t);
    assert!(result.is_ok());
    // one new reference is taken, so the count never drops
    assert!(matches!(result.unwrap(), Incoming::Object { address: 0x4242, acquire: Some(Acquire::Ref), .. }));
}

#[test]
fn from_glib_value_string() {
    let test_string = "test value";
    let t = Type::String(StringType { is_borrowed: true });
    let result = Value::from_glib_value(&GlibArg::Text(Some(test_string.to_string())), &t);
    assert!(result.is_ok());
    if let Incoming::Ready(Value::String(s)) = result.unwrap() {
        assert_eq!(s, test_string);
    } else {
        panic!("Expected Value::String");
    }
}

#[test]
fn from_glib_value_boolean() {
    let result_true = Value::from_glib_value(&GlibArg::Bool(true), &Type::Boolean);
    let result_false = Value::from_glib_value(&GlibArg::Bool(false), &Type::Boolean);
    assert!(result_true.is_ok());
    assert!(result_false.is_ok());
    assert!(matches!(result_true.unwrap(), Incoming::Ready(Value::Boolean(true))));
    assert!(matches!(result_false.unwrap(), Incoming::Ready(Value::Boolean(false))));
}

#[test]
fn from_glib_value_integers() {
    let t = Type::Integer(IntegerType { size: IntegerSize::_32, sign: IntegerSign::Signed });
    let result = Value::from_glib_value(&GlibArg::I32(42), &t);
    assert!(result.is_ok());
    if let Incoming::Ready(Value::Number(Number::Integer(n))) = result.unwrap() {
        assert_eq!(n as f64, 42.0);
    } else {
        panic!("Expected Value::Number");
    }
}

#[test]
fn from_glib_value_floats() {
    let t = Type::Float(FloatType { size: FloatSize::_64 });
    let x = Number::Real { bits: 3.14159f64.to_bits(), truncated: 3 };
    let result = Value::from_glib_value(&GlibArg::F64(x), &t);
    assert!(result.is_ok());
    if let Incoming::Ready(Value::Number(Number::Real { bits, .. })) = result.unwrap() {
        assert!((f64::from_bits(bits) - 3.14159).abs() < 0.0001);
    } else {
        panic!("Expected Value::Number");
    }
}

#[test]
fn callback_arguments_follow_their_own_rules() {
    // an object argument gets one new reference even when declared owned
    let owned = Type::GObject(GObjectType::new(false));
    assert!(matches!(Value::from_glib_value(&GlibArg::Pointer(0x10), &owned), Ok(Incoming::Object { acquire: Some(Acquire::Ref), sink_floating: false, .. })));
    assert!(matches!(Value::from_glib_value(&GlibArg::Pointer(0), &owned), Ok(Incoming::Ready(Value::Null))));
    // boxed structs and variants follow their flag
    let boxed = Type::Boxed(BoxedType::new(false, "GdkRGBA".to_string(), None));
    assert!(matches!(Value::from_glib_value(&GlibArg::Pointer(0x10), &boxed), Ok(Incoming::Object { acquire: None, .. })));
    // a string declared owned is copied, never freed
    let s = Type::String(StringType { is_borrowed: false });
    assert!(matches!(Value::from_glib_value(&GlibArg::Text(Some("x".to_string())), &s), Ok(Incoming::Ready(Value::String(_)))));
    assert_eq!(Value::from_glib_value(&GlibArg::Text(None), &s).unwrap_err(), MarshalError::TypeMismatch);
    // null and undefined give null
    assert!(matches!(Value::from_glib_value(&GlibArg::I32(1), &Type::Undefined), Ok(Incoming::Ready(Value::Null))));
    assert!(matches!(Value::from_glib_value(&GlibArg::I32(1), &Type::Null), Ok(Incoming::Ready(Value::Null))));
    // array, out-parameter and callback types are refused
    let arr = Type::Array(ArrayType::new(Type::String(StringType { is_borrowed: true })));
    assert_eq!(Value::from_glib_value(&GlibArg::Pointer(0x10), &arr).unwrap_err(), MarshalError::UnsupportedType);
    let r = Type::Ref(RefType::new(Type::Boolean));
    assert_eq!(Value::from_glib_value(&GlibArg::Bool(true), &r).unwrap_err(), MarshalError::UnsupportedType);
    assert_eq!(Value::from_glib_value(&GlibArg::Pointer(1), &Type::Callback(kind(CallbackTrampoline::Closure))).unwrap_err(), MarshalError::UnsupportedType);
    // the runtime type must match the declared one
    assert_eq!(Value::from_glib_value(&GlibArg::Text(Some("t".to_string())), &Type::Boolean).unwrap_err(), MarshalError::TypeMismatch);
    let i16_t = Type::Integer(IntegerType::new(IntegerSize::_16, IntegerSign::Signed));
    assert!(matches!(Value::from_glib_value(&GlibArg::I32(70000), &i16_t), Ok(Incoming::Ready(Value::Number(Number::Integer(4464))))));
}
