//! Field access on registered objects: which address and native type a read
//! or a write touches, and what the bytes found there mean.

use vstd::prelude::*;

use crate::marshal::{bool_value, float_value, integer_value, MarshalError, NativeValue};
use crate::receive::{object_from_native, object_received, receives, Incoming};
use crate::registry::{ObjectId, ObjectMap};
use crate::types::{integer_native_type, FloatSize, NativeType, Type};
use crate::value::Value;

verus! {

/// Why a field cannot be read or written.
#[derive(Debug, Clone, Copy, PartialEq, Eq, Structural)]
pub enum FieldError {
    /// The object identity was removed from the registry.
    ObjectGone,
    /// The object's address is null.
    NullObject,
    /// The field's address does not fit in the address space.
    OffsetOverflow,
    /// The descriptor cannot be read or written as a field.
    UnsupportedType,
    /// The value's kind does not fit the descriptor.
    TypeMismatch,
}

/// The native type a field of the descriptor is stored as, if it can be read.
pub open spec fn readable_native_type(t: Type) -> Option<NativeType> {
    match t {
        Type::Integer(it) => Some(integer_native_type(it)),
        Type::Float(ft) => match ft.size {
            FloatSize::_32 => Some(NativeType::F32),
            FloatSize::_64 => Some(NativeType::F64),
        },
        Type::Boolean => Some(NativeType::U8),
        Type::String(_) | Type::GObject(_) | Type::Boxed(_) => Some(NativeType::Pointer),
        _ => None,
    }
}

/// The address of the field at `offset` of object `id`.
pub open spec fn spec_field_address(objs: Map<usize, usize>, id: ObjectId, offset: usize) -> Result<
    usize,
    FieldError,
> {
    if !objs.contains_key(id.0) {
        Err(FieldError::ObjectGone)
    } else if objs[id.0] == 0 {
        Err(FieldError::NullObject)
    } else if objs[id.0] + offset > usize::MAX {
        Err(FieldError::OffsetOverflow)
    } else {
        Ok((objs[id.0] + offset) as usize)
    }
}

pub fn field_address<T>(objs: &ObjectMap<T>, id: ObjectId, offset: usize) -> (r: Result<usize, FieldError>)
    ensures
        r == spec_field_address(objs.addresses(), id, offset),
{
    match objs.resolve(id) {
        None => Err(FieldError::ObjectGone),
        Some(base) => if base == 0 {
            Err(FieldError::NullObject)
        } else {
            match base.checked_add(offset) {
                Some(a) => Ok(a),
                None => Err(FieldError::OffsetOverflow),
            }
        },
    }
}

/// Where to read a field of the descriptor, and as which native type.
pub fn read_field<T>(objs: &ObjectMap<T>, id: ObjectId, type_: &Type, offset: usize) -> (r: Result<
    (usize, NativeType),
    FieldError,
>)
    ensures
        match spec_field_address(objs.addresses(), id, offset) {
            Err(e) => r == Err::<(usize, NativeType), FieldError>(e),
            Ok(a) => match readable_native_type(*type_) {
                Some(nt) => r == Ok::<(usize, NativeType), FieldError>((a, nt)),
                None => r == Err::<(usize, NativeType), FieldError>(FieldError::UnsupportedType),
            },
        },
{
    let address = match field_address(objs, id, offset) {
        Ok(a) => a,
        Err(e) => {
            return Err(e);
        },
    };
    match type_ {
        Type::Integer(it) => Ok((address, it.native_type())),
        Type::Float(ft) => match ft.size {
            FloatSize::_32 => Ok((address, NativeType::F32)),
            FloatSize::_64 => Ok((address, NativeType::F64)),
        },
        Type::Boolean => Ok((address, NativeType::U8)),
        Type::String(_) | Type::GObject(_) | Type::Boxed(_) => Ok((address, NativeType::Pointer)),
        _ => Err(FieldError::UnsupportedType),
    }
}

/// What a field value read from memory means. Fields are borrowed from
/// their object: strings are copied and never freed, objects get one new
/// reference or copy.
pub open spec fn field_received(n: NativeValue, t: Type, r: Result<Incoming, MarshalError>) -> bool {
    match t {
        Type::Integer(_) | Type::Float(_) | Type::Boolean => receives(n, t, r),
        Type::String(_) => match n {
            NativeValue::Ptr(a) => r == if a == 0 {
                Ok::<Incoming, MarshalError>(Incoming::Ready(Value::Null))
            } else {
                Ok::<Incoming, MarshalError>(Incoming::String { address: a, free: false })
            },
            _ => r == Err::<Incoming, MarshalError>(MarshalError::TypeMismatch),
        },
        Type::GObject(_) | Type::Boxed(_) => object_received(n, t, true, r),
        _ => r == Err::<Incoming, MarshalError>(MarshalError::UnsupportedType),
    }
}

pub fn field_value(n: &NativeValue, type_: &Type) -> (r: Result<Incoming, MarshalError>)
    ensures
        field_received(*n, *type_, r),
{
    match type_ {
        Type::Integer(_) | Type::Float(_) | Type::Boolean => Value::from_cif_value(n, type_),
        Type::String(_) => match n {
            NativeValue::Ptr(a) => if *a == 0 {
                Ok(Incoming::Ready(Value::Null))
            } else {
                Ok(Incoming::String { address: *a, free: false })
            },
            _ => Err(MarshalError::TypeMismatch),
        },
        Type::GObject(_) | Type::Boxed(_) => object_from_native(n, type_, true),
        _ => Err(MarshalError::UnsupportedType),
    }
}

/// The native value a field write stores, if the descriptor and value allow it.
pub open spec fn spec_field_store(t: Type, v: Value) -> Result<NativeValue, FieldError> {
    match t {
        Type::Integer(it) => match v {
            Value::Number(n) => Ok(integer_value(n, it)),
            _ => Err(FieldError::TypeMismatch),
        },
        Type::Float(ft) => match v {
            Value::Number(n) => Ok(float_value(n, ft)),
            _ => Err(FieldError::TypeMismatch),
        },
        Type::Boolean => match v {
            Value::Boolean(b) => Ok(bool_value(b)),
            _ => Err(FieldError::TypeMismatch),
        },
        _ => Err(FieldError::UnsupportedType),
    }
}

/// Where to write a field, and the native value to store there.
pub fn write_field<T>(objs: &ObjectMap<T>, id: ObjectId, type_: &Type, offset: usize, value: &Value) -> (r: Result<
    (usize, NativeValue),
    FieldError,
>)
    ensures
        match spec_field_address(objs.addresses(), id, offset) {
            Err(e) => r == Err::<(usize, NativeValue), FieldError>(e),
            Ok(a) => match spec_field_store(*type_, *value) {
                Ok(n) => r == Ok::<(usize, NativeValue), FieldError>((a, n)),
                Err(e) => r == Err::<(usize, NativeValue), FieldError>(e),
            },
        },
{
    let address = match field_address(objs, id, offset) {
        Ok(a) => a,
        Err(e) => {
            return Err(e);
        },
    };
    match (type_, value) {
        (Type::Integer(it), Value::Number(n)) => Ok((address, crate::marshal::integer_to_native(n, it))),
        (Type::Float(ft), Value::Number(n)) => Ok((
            address,
            match ft.size {
                FloatSize::_32 => NativeValue::F32(*n),
                FloatSize::_64 => NativeValue::F64(*n),
            },
        )),
        (Type::Boolean, Value::Boolean(b)) => Ok((address, NativeValue::U8(if *b { 1u8 } else { 0u8 }))),
        (Type::Integer(_), _) | (Type::Float(_), _) | (Type::Boolean, _) => Err(FieldError::TypeMismatch),
        _ => Err(FieldError::UnsupportedType),
    }
}

} // verus!
