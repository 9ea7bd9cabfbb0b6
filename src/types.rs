//! Type descriptors: the closed set of C-ABI types that values crossing the
//! native boundary are declared with, and the native call-interface type each
//! of them is passed as.

use vstd::prelude::*;

verus! {

/// Width in bits of a native integer.
#[derive(Debug, Clone, Copy, PartialEq, Eq, Structural)]
pub enum IntegerSize {
    _8,
    _16,
    _32,
    _64,
}

/// Signedness of a native integer.
#[derive(Debug, Clone, Copy, PartialEq, Eq, Structural)]
pub enum IntegerSign {
    Unsigned,
    Signed,
}

#[derive(Debug, Clone, Copy, PartialEq, Eq, Structural)]
pub struct IntegerType {
    pub size: IntegerSize,
    pub sign: IntegerSign,
}

/// Width in bits of a native floating-point number.
#[derive(Debug, Clone, Copy, PartialEq, Eq, Structural)]
pub enum FloatSize {
    _32,
    _64,
}

#[derive(Debug, Clone, Copy, PartialEq, Eq, Structural)]
pub struct FloatType {
    pub size: FloatSize,
}

/// A NUL-terminated string; `is_borrowed` is false when ownership of the
/// buffer crosses the boundary.
#[derive(Debug, Clone, Copy, PartialEq, Eq, Structural)]
pub struct StringType {
    pub is_borrowed: bool,
}

/// A reference-counted native object.
#[derive(Debug, Clone, Copy, PartialEq, Eq, Structural)]
pub struct GObjectType {
    pub is_borrowed: bool,
}

/// A heap-boxed struct, named by its registered type name and, optionally,
/// by the library that registers that type.
#[derive(Debug, Clone)]
pub struct BoxedType {
    pub is_borrowed: bool,
    pub type_: String,
    pub lib: Option<String>,
}

/// A reference-counted variant value.
#[derive(Debug, Clone, Copy, PartialEq, Eq, Structural)]
pub struct GVariantType {
    pub is_borrowed: bool,
}

/// How the items of an array travel: one contiguous buffer, or a singly- or
/// doubly-linked list of nodes.
#[derive(Debug, Clone, Copy, PartialEq, Eq, Structural)]
pub enum ListType {
    Array,
    GList,
    GSList,
}

#[derive(Debug)]
pub struct ArrayType {
    pub item_type: Box<Type>,
    pub list_type: ListType,
    pub is_borrowed: bool,
}

/// The calling convention of a callback: which trampoline native code calls,
/// and how its pointers are laid out in the native call.
#[derive(Debug, Clone, Copy, PartialEq, Eq, Structural)]
pub enum CallbackTrampoline {
    /// A generic closure (signal handlers): typed arguments, typed result.
    Closure,
    /// An async-ready callback: a source and a result, no return value.
    AsyncReady,
    /// A destroy notification: no arguments, no return value.
    Destroy,
    /// A drawing function: typed arguments, no return value.
    DrawFunc,
    /// A tick function: typed arguments, a boolean result.
    TickFunc,
    /// A source function: no arguments, a boolean result.
    SourceFunc,
    /// A comparison function: typed arguments, an ordering integer.
    CompareDataFunc,
}

#[derive(Debug)]
pub struct CallbackType {
    pub trampoline: CallbackTrampoline,
    pub arg_types: Option<Vec<Type>>,
    pub return_type: Option<Box<Type>>,
    pub source_type: Option<Box<Type>>,
    pub result_type: Option<Box<Type>>,
}

/// An out-parameter: the argument is passed by address.
#[derive(Debug)]
pub struct RefType {
    pub inner_type: Box<Type>,
}

/// A type descriptor for values crossing the native boundary.
#[derive(Debug)]
pub enum Type {
    Integer(IntegerType),
    Float(FloatType),
    String(StringType),
    Null,
    Undefined,
    Boolean,
    GObject(GObjectType),
    Boxed(BoxedType),
    GVariant(GVariantType),
    Array(ArrayType),
    Callback(CallbackType),
    Ref(RefType),
}

/// The native call-interface type of one argument slot or of a result.
#[derive(Debug, Clone, Copy, PartialEq, Eq, Structural)]
pub enum NativeType {
    Void,
    U8,
    I8,
    U16,
    I16,
    U32,
    I32,
    U64,
    I64,
    F32,
    F64,
    Pointer,
}

pub open spec fn integer_native_type(t: IntegerType) -> NativeType {
    match (t.size, t.sign) {
        (IntegerSize::_8, IntegerSign::Unsigned) => NativeType::U8,
        (IntegerSize::_8, IntegerSign::Signed) => NativeType::I8,
        (IntegerSize::_16, IntegerSign::Unsigned) => NativeType::U16,
        (IntegerSize::_16, IntegerSign::Signed) => NativeType::I16,
        (IntegerSize::_32, IntegerSign::Unsigned) => NativeType::U32,
        (IntegerSize::_32, IntegerSign::Signed) => NativeType::I32,
        (IntegerSize::_64, IntegerSign::Unsigned) => NativeType::U64,
        (IntegerSize::_64, IntegerSign::Signed) => NativeType::I64,
    }
}

/// The native type of a descriptor: integers and floats by width and sign,
/// booleans as one byte, void as no value, everything else as a pointer.
pub open spec fn spec_native_type(t: Type) -> NativeType {
    match t {
        Type::Integer(i) => integer_native_type(i),
        Type::Float(f) => match f.size {
            FloatSize::_32 => NativeType::F32,
            FloatSize::_64 => NativeType::F64,
        },
        Type::Boolean => NativeType::U8,
        Type::Undefined => NativeType::Void,
        _ => NativeType::Pointer,
    }
}

impl IntegerType {
    pub fn native_type(&self) -> (r: NativeType)
        ensures
            r == integer_native_type(*self),
    {
        match (self.size, self.sign) {
            (IntegerSize::_8, IntegerSign::Unsigned) => NativeType::U8,
            (IntegerSize::_8, IntegerSign::Signed) => NativeType::I8,
            (IntegerSize::_16, IntegerSign::Unsigned) => NativeType::U16,
            (IntegerSize::_16, IntegerSign::Signed) => NativeType::I16,
            (IntegerSize::_32, IntegerSign::Unsigned) => NativeType::U32,
            (IntegerSize::_32, IntegerSign::Signed) => NativeType::I32,
            (IntegerSize::_64, IntegerSign::Unsigned) => NativeType::U64,
            (IntegerSize::_64, IntegerSign::Signed) => NativeType::I64,
        }
    }
}

impl IntegerType {
    pub fn new(size: IntegerSize, sign: IntegerSign) -> (r: IntegerType)
        ensures
            r == (IntegerType { size, sign }),
    {
        IntegerType { size, sign }
    }
}

impl FloatType {
    pub fn new(size: FloatSize) -> (r: FloatType)
        ensures
            r == (FloatType { size }),
    {
        FloatType { size }
    }
}

impl GObjectType {
    pub fn new(is_borrowed: bool) -> (r: GObjectType)
        ensures
            r == (GObjectType { is_borrowed }),
    {
        GObjectType { is_borrowed }
    }
}

impl GVariantType {
    pub fn new(is_borrowed: bool) -> (r: GVariantType)
        ensures
            r == (GVariantType { is_borrowed }),
    {
        GVariantType { is_borrowed }
    }
}

impl BoxedType {
    pub fn new(is_borrowed: bool, type_: String, lib: Option<String>) -> (r: BoxedType)
        ensures
            r == (BoxedType { is_borrowed, type_, lib }),
    {
        BoxedType { is_borrowed, type_, lib }
    }
}

impl ArrayType {
    /// A contiguous array, its items owned by whoever receives it.
    pub fn new(item_type: Type) -> (r: ArrayType)
        ensures
            *r.item_type == item_type,
            r.list_type == ListType::Array,
            !r.is_borrowed,
    {
        ArrayType { item_type: Box::new(item_type), list_type: ListType::Array, is_borrowed: false }
    }
}

impl RefType {
    pub fn new(inner_type: Type) -> (r: RefType)
        ensures
            *r.inner_type == inner_type,
    {
        RefType { inner_type: Box::new(inner_type) }
    }
}

impl Type {
    /// The native call-interface type this descriptor is passed or returned as.
    pub fn native_type(&self) -> (r: NativeType)
        ensures
            r == spec_native_type(*self),
    {
        match self {
            Type::Integer(i) => i.native_type(),
            Type::Float(f) => match f.size {
                FloatSize::_32 => NativeType::F32,
                FloatSize::_64 => NativeType::F64,
            },
            Type::Boolean => NativeType::U8,
            Type::Undefined => NativeType::Void,
            _ => NativeType::Pointer,
        }
    }
}

/// Whether native code is also handed a destroy-notify pointer that releases
/// the closure once it is no longer needed.
pub open spec fn spec_has_destroy_notify(t: CallbackTrampoline) -> bool {
    match t {
        CallbackTrampoline::DrawFunc | CallbackTrampoline::TickFunc
        | CallbackTrampoline::SourceFunc | CallbackTrampoline::CompareDataFunc => true,
        _ => false,
    }
}

/// Whether an object descriptor borrows the object rather than transfer it.
pub open spec fn spec_is_borrowed(t: Type) -> bool {
    match t {
        Type::GObject(g) => g.is_borrowed,
        Type::Boxed(b) => b.is_borrowed,
        Type::GVariant(g) => g.is_borrowed,
        Type::String(s) => s.is_borrowed,
        Type::Array(a) => a.is_borrowed,
        _ => true,
    }
}

/// Whether the kind needs a trampoline pointer beside the closure's data
/// pointer; a generic closure is passed as one pointer.
pub open spec fn spec_uses_trampoline(t: CallbackTrampoline) -> bool {
    t != CallbackTrampoline::Closure
}

/// Whether the data pointer precedes the trampoline pointer.
pub open spec fn spec_data_first(t: CallbackTrampoline) -> bool {
    t == CallbackTrampoline::Destroy
}

/// Whether the scripting side is asked for a result.
pub open spec fn spec_expects_result(t: CallbackTrampoline) -> bool {
    match t {
        CallbackTrampoline::Closure | CallbackTrampoline::TickFunc
        | CallbackTrampoline::SourceFunc | CallbackTrampoline::CompareDataFunc => true,
        _ => false,
    }
}

/// Number of positional native-call slots an argument of the kind takes.
pub open spec fn spec_slot_count(t: CallbackTrampoline) -> nat {
    if !spec_uses_trampoline(t) {
        1
    } else if spec_has_destroy_notify(t) {
        3
    } else {
        2
    }
}

impl CallbackTrampoline {
    pub fn has_destroy_notify(&self) -> (r: bool)
        ensures
            r == spec_has_destroy_notify(*self),
    {
        match self {
            CallbackTrampoline::DrawFunc | CallbackTrampoline::TickFunc
            | CallbackTrampoline::SourceFunc | CallbackTrampoline::CompareDataFunc => true,
            _ => false,
        }
    }

    pub fn uses_trampoline(&self) -> (r: bool)
        ensures
            r == spec_uses_trampoline(*self),
    {
        match self {
            CallbackTrampoline::Closure => false,
            _ => true,
        }
    }

    pub fn data_first(&self) -> (r: bool)
        ensures
            r == spec_data_first(*self),
    {
        match self {
            CallbackTrampoline::Destroy => true,
            _ => false,
        }
    }

    pub fn expects_result(&self) -> (r: bool)
        ensures
            r == spec_expects_result(*self),
    {
        match self {
            CallbackTrampoline::Closure | CallbackTrampoline::TickFunc
            | CallbackTrampoline::SourceFunc | CallbackTrampoline::CompareDataFunc => true,
            _ => false,
        }
    }

    pub fn slot_count(&self) -> (r: usize)
        ensures
            r as nat == spec_slot_count(*self),
    {
        if !self.uses_trampoline() {
            1
        } else if self.has_destroy_notify() {
            3
        } else {
            2
        }
    }
}

} // verus!
