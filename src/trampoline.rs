//! Callback trampolines: what a native invocation of a callback hands to the
//! scripting side, what the scripting side's answer turns into for native
//! code, and what happens when the scripting side cannot answer.

use vstd::prelude::*;

use crate::marshal::{MarshalError, NativeValue};
use crate::receive::{object_from_native, object_received, Incoming};
use crate::types::{spec_expects_result, CallbackTrampoline, CallbackType, FloatSize, IntegerSign, IntegerSize, Type};
use crate::value::{int_of, Number, Value};

verus! {

/// What native code gets back from a callback.
#[derive(Debug)]
pub enum CallbackReturn {
    /// No value.
    Nothing,
    Number(Number),
    String(String),
    Boolean(bool),
    /// A 32-bit integer: an ordering, or the default of an integer result.
    Int(i32),
}

/// What the loop thread does when the scripting side disconnects while a
/// trampoline waits for it.
#[derive(Debug, Clone, Copy, PartialEq, Eq, Structural)]
pub enum DisconnectPolicy {
    /// The native call cannot go on without a value.
    Fatal,
    /// Nothing waits for a value: the disconnect is logged and ignored.
    Ignore,
}

/// A value as a native result, the default standing in for `undefined`
/// where the declared result type needs one.
pub open spec fn spec_closure_return(v: Value, return_type: Option<Type>) -> CallbackReturn {
    match v {
        Value::Undefined => match return_type {
            Some(Type::Boolean) => CallbackReturn::Boolean(false),
            Some(Type::Integer(_)) => CallbackReturn::Int(0),
            _ => CallbackReturn::Nothing,
        },
        _ => spec_plain_return(v),
    }
}

pub open spec fn spec_plain_return(v: Value) -> CallbackReturn {
    match v {
        Value::Number(n) => CallbackReturn::Number(n),
        Value::String(s) => CallbackReturn::String(s),
        Value::Boolean(b) => CallbackReturn::Boolean(b),
        _ => CallbackReturn::Nothing,
    }
}

pub open spec fn opt_type(t: Option<Box<Type>>) -> Option<Type> {
    match t {
        Some(b) => Some(*b),
        None => None,
    }
}

/// What native code gets back from a callback of the given kind, when the
/// scripting side answered `result` (`None`: it threw or could not be reached).
pub open spec fn spec_callback_return(cb: CallbackType, result: Option<Value>) -> CallbackReturn {
    match cb.trampoline {
        CallbackTrampoline::Closure => match result {
            Some(v) => spec_closure_return(v, opt_type(cb.return_type)),
            None => spec_closure_return(Value::Undefined, opt_type(cb.return_type)),
        },
        CallbackTrampoline::SourceFunc | CallbackTrampoline::TickFunc => match result {
            Some(v) => spec_plain_return(v),
            None => CallbackReturn::Boolean(false),
        },
        CallbackTrampoline::CompareDataFunc => match result {
            Some(Value::Number(n)) => CallbackReturn::Int(int_of(n) as i32),
            _ => CallbackReturn::Int(0),
        },
        _ => CallbackReturn::Nothing,
    }
}

fn plain_return(v: Value) -> (r: CallbackReturn)
    ensures
        r == spec_plain_return(v),
{
    match v {
        Value::Number(n) => CallbackReturn::Number(n),
        Value::String(s) => CallbackReturn::String(s),
        Value::Boolean(b) => CallbackReturn::Boolean(b),
        _ => CallbackReturn::Nothing,
    }
}

/// Converts a scripting value into a native result of the declared type.
pub fn into_native_return_with_default(v: Value, return_type: Option<&Type>) -> (r: CallbackReturn)
    ensures
        r == spec_closure_return(
            v,
            match return_type {
                Some(t) => Some(*t),
                None => None,
            },
        ),
{
    match v {
        Value::Undefined => match return_type {
            Some(Type::Boolean) => CallbackReturn::Boolean(false),
            Some(Type::Integer(_)) => CallbackReturn::Int(0),
            _ => CallbackReturn::Nothing,
        },
        other => plain_return(other),
    }
}

/// What a callback of kind `cb` returns to native code for `result`. A
/// failed round trip gives the kind's neutral value: `false` for boolean
/// kinds, `0` for comparisons, nothing for the rest.
pub fn callback_return(cb: &CallbackType, result: Option<Value>) -> (r: CallbackReturn)
    ensures
        r == spec_callback_return(*cb, result),
{
    let return_type: Option<&Type> = match &cb.return_type {
        Some(b) => Some(&**b),
        None => None,
    };
    match cb.trampoline {
        CallbackTrampoline::Closure => match result {
            Some(v) => into_native_return_with_default(v, return_type),
            None => into_native_return_with_default(Value::Undefined, return_type),
        },
        CallbackTrampoline::SourceFunc | CallbackTrampoline::TickFunc => match result {
            Some(v) => plain_return(v),
            None => CallbackReturn::Boolean(false),
        },
        CallbackTrampoline::CompareDataFunc => match result {
            Some(Value::Number(n)) => CallbackReturn::Int(#[verifier::truncate] (n.as_integer() as i32)),
            _ => CallbackReturn::Int(0),
        },
        _ => CallbackReturn::Nothing,
    }
}

/// What a disconnect of the scripting side does to a waiting trampoline.
pub open spec fn spec_disconnect_policy(t: CallbackTrampoline) -> DisconnectPolicy {
    if spec_expects_result(t) {
        DisconnectPolicy::Fatal
    } else {
        DisconnectPolicy::Ignore
    }
}

pub fn disconnect_policy(t: CallbackTrampoline) -> (r: DisconnectPolicy)
    ensures
        r == spec_disconnect_policy(t),
{
    if t.expects_result() {
        DisconnectPolicy::Fatal
    } else {
        DisconnectPolicy::Ignore
    }
}

/// The content of one argument native code passes to a callback, as read by
/// its own runtime type: integers by their native width, floats as numbers,
/// strings copied, and objects, boxed structs and variants by address.
#[derive(Debug)]
pub enum GlibArg {
    I8(i8),
    U8(u8),
    I32(i32),
    U32(u32),
    I64(i64),
    U64(u64),
    F32(Number),
    F64(Number),
    Bool(bool),
    /// A string; `None` for a null string.
    Text(Option<String>),
    /// The address of an object, boxed struct or variant; 0 for null.
    Pointer(usize),
}

/// What a callback argument becomes under its declared type. Integers and
/// floats are read at the declared width, strings are copied (never freed),
/// an object gets one new reference whatever its flag, boxed structs and
/// variants follow their flag, `null` and `undefined` give `null`, and
/// array, out-parameter and callback types are refused.
pub open spec fn glib_received(g: GlibArg, t: Type, r: Result<Incoming, MarshalError>) -> bool {
    let mismatch = Err::<Incoming, MarshalError>(MarshalError::TypeMismatch);
    let number = |i: int| Ok::<Incoming, MarshalError>(Incoming::Ready(Value::Number(Number::Integer(i as i128))));
    match t {
        Type::Integer(it) => match (it.size, it.sign, g) {
            (IntegerSize::_8, IntegerSign::Signed, GlibArg::I8(v)) => r == number(v as int),
            (IntegerSize::_8, IntegerSign::Unsigned, GlibArg::U8(v)) => r == number(v as int),
            (IntegerSize::_16, IntegerSign::Signed, GlibArg::I32(v)) => r == number((v as i16) as int),
            (IntegerSize::_16, IntegerSign::Unsigned, GlibArg::U32(v)) => r == number((v as u16) as int),
            (IntegerSize::_32, IntegerSign::Signed, GlibArg::I32(v)) => r == number(v as int),
            (IntegerSize::_32, IntegerSign::Unsigned, GlibArg::U32(v)) => r == number(v as int),
            (IntegerSize::_64, IntegerSign::Signed, GlibArg::I64(v)) => r == number(v as int),
            (IntegerSize::_64, IntegerSign::Unsigned, GlibArg::U64(v)) => r == number(v as int),
            _ => r == mismatch,
        },
        Type::Float(ft) => match (ft.size, g) {
            (FloatSize::_32, GlibArg::F32(x)) => r == Ok::<Incoming, MarshalError>(Incoming::Ready(Value::Number(x))),
            (FloatSize::_64, GlibArg::F64(x)) => r == Ok::<Incoming, MarshalError>(Incoming::Ready(Value::Number(x))),
            _ => r == mismatch,
        },
        Type::String(_) => match g {
            GlibArg::Text(Some(s)) => r matches Ok(Incoming::Ready(Value::String(c))) && c@ == s@,
            _ => r == mismatch,
        },
        Type::Boolean => match g {
            GlibArg::Bool(b) => r == Ok::<Incoming, MarshalError>(Incoming::Ready(Value::Boolean(b))),
            _ => r == mismatch,
        },
        Type::GObject(_) => match g {
            GlibArg::Pointer(a) => object_received(NativeValue::Ptr(a), t, true, r),
            _ => r == mismatch,
        },
        Type::Boxed(b) => match g {
            GlibArg::Pointer(a) => object_received(NativeValue::Ptr(a), t, b.is_borrowed, r),
            _ => r == mismatch,
        },
        Type::GVariant(v) => match g {
            GlibArg::Pointer(a) => object_received(NativeValue::Ptr(a), t, v.is_borrowed, r),
            _ => r == mismatch,
        },
        Type::Null | Type::Undefined => r == Ok::<Incoming, MarshalError>(Incoming::Ready(Value::Null)),
        _ => r == Err::<Incoming, MarshalError>(MarshalError::UnsupportedType),
    }
}

impl Value {
    /// Converts one callback argument under its declared type.
    pub fn from_glib_value(g: &GlibArg, t: &Type) -> (r: Result<Incoming, MarshalError>)
        ensures
            glib_received(*g, *t, r),
    {
        match t {
            Type::Integer(it) => {
                let v: Option<i128> = match (it.size, it.sign, g) {
                    (IntegerSize::_8, IntegerSign::Signed, GlibArg::I8(v)) => Some(*v as i128),
                    (IntegerSize::_8, IntegerSign::Unsigned, GlibArg::U8(v)) => Some(*v as i128),
                    (IntegerSize::_16, IntegerSign::Signed, GlibArg::I32(v)) => Some(
                        (#[verifier::truncate] (*v as i16)) as i128,
                    ),
                    (IntegerSize::_16, IntegerSign::Unsigned, GlibArg::U32(v)) => Some(
                        (#[verifier::truncate] (*v as u16)) as i128,
                    ),
                    (IntegerSize::_32, IntegerSign::Signed, GlibArg::I32(v)) => Some(*v as i128),
                    (IntegerSize::_32, IntegerSign::Unsigned, GlibArg::U32(v)) => Some(*v as i128),
                    (IntegerSize::_64, IntegerSign::Signed, GlibArg::I64(v)) => Some(*v as i128),
                    (IntegerSize::_64, IntegerSign::Unsigned, GlibArg::U64(v)) => Some(*v as i128),
                    _ => None,
                };
                match v {
                    Some(i) => Ok(Incoming::Ready(Value::Number(Number::Integer(i)))),
                    None => Err(MarshalError::TypeMismatch),
                }
            },
            Type::Float(ft) => match (ft.size, g) {
                (FloatSize::_32, GlibArg::F32(x)) => Ok(Incoming::Ready(Value::Number(*x))),
                (FloatSize::_64, GlibArg::F64(x)) => Ok(Incoming::Ready(Value::Number(*x))),
                _ => Err(MarshalError::TypeMismatch),
            },
            Type::String(_) => match g {
                GlibArg::Text(Some(s)) => Ok(Incoming::Ready(Value::String(s.clone()))),
                _ => Err(MarshalError::TypeMismatch),
            },
            Type::Boolean => match g {
                GlibArg::Bool(b) => Ok(Incoming::Ready(Value::Boolean(*b))),
                _ => Err(MarshalError::TypeMismatch),
            },
            Type::GObject(_) => match g {
                GlibArg::Pointer(a) => object_from_native(&NativeValue::Ptr(*a), t, true),
                _ => Err(MarshalError::TypeMismatch),
            },
            Type::Boxed(b) => match g {
                GlibArg::Pointer(a) => object_from_native(&NativeValue::Ptr(*a), t, b.is_borrowed),
                _ => Err(MarshalError::TypeMismatch),
            },
            Type::GVariant(v) => match g {
                GlibArg::Pointer(a) => object_from_native(&NativeValue::Ptr(*a), t, v.is_borrowed),
                _ => Err(MarshalError::TypeMismatch),
            },
            Type::Null | Type::Undefined => Ok(Incoming::Ready(Value::Null)),
            _ => Err(MarshalError::UnsupportedType),
        }
    }
}

/// The descriptor of the `i`-th argument an async-ready callback receives:
/// its source, then its result, each `null` where not declared.
pub open spec fn async_arg_type(cb: CallbackType, i: int) -> Type {
    let t = if i == 0 {
        cb.source_type
    } else {
        cb.result_type
    };
    match t {
        Some(b) => *b,
        None => Type::Null,
    }
}

/// The `i`-th argument of an async-ready invocation fails to convert with `e`.
pub open spec fn async_fails_at(cb: CallbackType, received: Seq<GlibArg>, e: MarshalError, i: int) -> bool {
    0 <= i < 2 && i < received.len() && glib_received(received[i], async_arg_type(cb, i), Err(e))
}

/// The `i`-th argument fails to convert with `e` under its declared type.
pub open spec fn typed_fails_at(types: Seq<Type>, received: Seq<GlibArg>, e: MarshalError, i: int) -> bool {
    0 <= i < types.len() && i < received.len() && glib_received(received[i], types[i], Err(e))
}

fn async_arg(received: &Vec<GlibArg>, i: usize, t: &Option<Box<Type>>) -> (r: Result<Incoming, MarshalError>)
    ensures
        i < received@.len() ==> match *t {
            Some(b) => glib_received(received@[i as int], *b, r),
            None => glib_received(received@[i as int], Type::Null, r),
        },
        i >= received@.len() ==> r == Ok::<Incoming, MarshalError>(Incoming::Ready(Value::Null)),
{
    if i >= received.len() {
        return Ok(Incoming::Ready(Value::Null));
    }
    match t {
        Some(b) => Value::from_glib_value(&received[i], &**b),
        None => Ok(Incoming::Ready(Value::Null)),
    }
}

/// The arguments a native invocation of the callback hands to the scripting
/// side, converted by the declared argument types. `None` when the kind
/// declares argument types but none were given: the arguments are then
/// converted by their own runtime types.
pub fn invocation_args(cb: &CallbackType, received: &Vec<GlibArg>) -> (r: Result<
    Option<Vec<Incoming>>,
    MarshalError,
>)
    ensures
        match cb.trampoline {
            CallbackTrampoline::Destroy | CallbackTrampoline::SourceFunc => r matches Ok(Some(v)) && v@.len()
                == 0,
            CallbackTrampoline::AsyncReady => match r {
                Ok(Some(v)) => {
                    &&& v@.len() == 2
                    &&& forall|i: int|
                        0 <= i < 2 ==> if i < received@.len() {
                            glib_received(received@[i], async_arg_type(*cb, i), Ok(#[trigger] v@[i]))
                        } else {
                            v@[i] == Incoming::Ready(Value::Null)
                        }
                },
                Err(e) => exists|i: int| #[trigger] async_fails_at(*cb, received@, e, i),
                _ => false,
            },
            _ => match cb.arg_types {
                None => r matches Ok(None),
                Some(types) => match r {
                    Ok(Some(v)) => {
                        &&& v@.len() == (if types@.len() < received@.len() {
                            types@.len()
                        } else {
                            received@.len()
                        })
                        &&& forall|i: int|
                            0 <= i < v@.len() ==> glib_received(received@[i], types@[i], Ok(#[trigger] v@[i]))
                    },
                    Err(e) => exists|i: int| #[trigger] typed_fails_at(types@, received@, e, i),
                    _ => false,
                },
            },
        },
{
    match cb.trampoline {
        CallbackTrampoline::Destroy | CallbackTrampoline::SourceFunc => Ok(Some(Vec::new())),
        CallbackTrampoline::AsyncReady => {
            let source = match async_arg(received, 0, &cb.source_type) {
                Ok(v) => v,
                Err(e) => {
                    proof {
                        assert(async_fails_at(*cb, received@, e, 0));
                    }
                    return Err(e);
                },
            };
            let result = match async_arg(received, 1, &cb.result_type) {
                Ok(v) => v,
                Err(e) => {
                    proof {
                        assert(async_fails_at(*cb, received@, e, 1));
                    }
                    return Err(e);
                },
            };
            let mut v: Vec<Incoming> = Vec::new();
            v.push(source);
            v.push(result);
            Ok(Some(v))
        },
        _ => match &cb.arg_types {
            None => Ok(None),
            Some(types) => {
                let n = if types.len() < received.len() {
                    types.len()
                } else {
                    received.len()
                };
                let mut v: Vec<Incoming> = Vec::new();
                let mut i: usize = 0;
                while i < n
                    invariant
                        cb.trampoline != CallbackTrampoline::Destroy,
                        cb.trampoline != CallbackTrampoline::SourceFunc,
                        cb.trampoline != CallbackTrampoline::AsyncReady,
                        cb.arg_types matches Some(ts) && ts@ == types@,
                        n == (if types@.len() < received@.len() {
                            types@.len()
                        } else {
                            received@.len()
                        }),
                        0 <= i <= n,
                        v@.len() == i,
                        forall|j: int| 0 <= j < i ==> glib_received(received@[j], types@[j], Ok(#[trigger] v@[j])),
                    decreases n - i,
                {
                    match Value::from_glib_value(&received[i], &types[i]) {
                        Ok(inc) => {
                            v.push(inc);
                        },
                        Err(e) => {
                            proof {
                                assert(typed_fails_at(types@, received@, e, i as int));
                            }
                            return Err(e);
                        },
                    }
                    i += 1;
                }
                Ok(Some(v))
            },
        },
    }
}

} // verus!
