//! Parsing of type descriptors from the scripting side's description: an
//! object whose `type` property names the variant and whose other properties
//! give that variant's parameters.

use vstd::prelude::*;

use crate::types::{
    ArrayType, BoxedType, CallbackTrampoline, CallbackType, FloatSize, FloatType, GObjectType,
    GVariantType, IntegerSign, IntegerSize, IntegerType, ListType, RefType, StringType, Type,
};

verus! {

/// A property value of a scripting-side description.
#[derive(Debug)]
pub enum Prop {
    Undefined,
    Null,
    Boolean(bool),
    Number(i64),
    String(String),
    Object(Box<Descriptor>),
    Array(Vec<Prop>),
}

/// The properties of a description object that descriptors are read from;
/// a property the object lacks is `Undefined`.
#[derive(Debug)]
pub struct Descriptor {
    pub type_: Prop,
    pub size: Prop,
    pub signed: Prop,
    pub borrowed: Prop,
    pub inner_type: Prop,
    pub lib: Prop,
    pub item_type: Prop,
    pub list_type: Prop,
    pub trampoline: Prop,
    pub arg_types: Prop,
    pub return_type: Prop,
    pub source_type: Prop,
    pub result_type: Prop,
}

/// Why a description is not a type descriptor.
#[derive(Debug, Clone, Copy, PartialEq, Eq, Structural)]
pub enum TypeError {
    NotAnObject,
    NotAString,
    NotANumber,
    NotAnArray,
    InvalidIntegerSize,
    InvalidFloatSize,
    UnknownType,
}

/// A flag property: true only when it is the boolean `true`.
pub open spec fn spec_flag(p: Prop) -> bool {
    match p {
        Prop::Boolean(b) => b,
        _ => false,
    }
}

pub open spec fn spec_integer_size(p: Prop) -> Result<IntegerSize, TypeError> {
    match p {
        Prop::Number(n) => if n == 8 {
            Ok(IntegerSize::_8)
        } else if n == 16 {
            Ok(IntegerSize::_16)
        } else if n == 32 {
            Ok(IntegerSize::_32)
        } else if n == 64 {
            Ok(IntegerSize::_64)
        } else {
            Err(TypeError::InvalidIntegerSize)
        },
        _ => Err(TypeError::NotANumber),
    }
}

pub open spec fn spec_float_size(p: Prop) -> Result<FloatSize, TypeError> {
    match p {
        Prop::Number(n) => if n == 32 {
            Ok(FloatSize::_32)
        } else if n == 64 {
            Ok(FloatSize::_64)
        } else {
            Err(TypeError::InvalidFloatSize)
        },
        _ => Err(TypeError::NotANumber),
    }
}

pub open spec fn spec_list_type(p: Prop) -> ListType {
    match p {
        Prop::String(s) => if s@ == "glist"@ {
            ListType::GList
        } else if s@ == "gslist"@ {
            ListType::GSList
        } else {
            ListType::Array
        },
        _ => ListType::Array,
    }
}

/// The calling convention named by the `trampoline` property; a generic
/// closure when it is absent or names none of the others.
pub open spec fn spec_trampoline(p: Prop) -> Result<CallbackTrampoline, TypeError> {
    match p {
        Prop::Undefined | Prop::Null => Ok(CallbackTrampoline::Closure),
        Prop::String(s) => Ok(
            if s@ == "asyncReady"@ {
                CallbackTrampoline::AsyncReady
            } else if s@ == "destroy"@ {
                CallbackTrampoline::Destroy
            } else if s@ == "drawFunc"@ {
                CallbackTrampoline::DrawFunc
            } else if s@ == "tickFunc"@ {
                CallbackTrampoline::TickFunc
            } else if s@ == "sourceFunc"@ {
                CallbackTrampoline::SourceFunc
            } else if s@ == "compareDataFunc"@ {
                CallbackTrampoline::CompareDataFunc
            } else {
                CallbackTrampoline::Closure
            },
        ),
        _ => Err(TypeError::NotAString),
    }
}

/// `r` is what the description `p` parses to.
pub open spec fn parsed(p: Prop, r: Result<Type, TypeError>) -> bool
    decreases p, 0nat,
{
    match p {
        Prop::Object(b) => parsed_object(*b, r),
        _ => r == Err::<Type, TypeError>(TypeError::NotAnObject),
    }
}

/// `r` is what an optional description parses to: `None` when absent.
pub open spec fn opt_parsed(p: Prop, r: Result<Option<Box<Type>>, TypeError>) -> bool
    decreases p, 1nat,
{
    match p {
        Prop::Undefined | Prop::Null => r == Ok::<Option<Box<Type>>, TypeError>(None),
        _ => match r {
            Ok(Some(b)) => parsed(p, Ok(*b)),
            Err(e) => parsed(p, Err(e)),
            Ok(None) => false,
        },
    }
}

/// `r` is what an optional list of descriptions parses to; the first item
/// that fails decides the error.
pub open spec fn list_parsed(p: Prop, r: Result<Option<Vec<Type>>, TypeError>) -> bool
    decreases p, 1nat,
{
    match p {
        Prop::Undefined | Prop::Null => r == Ok::<Option<Vec<Type>>, TypeError>(None),
        Prop::Array(items) => match r {
            Ok(Some(ts)) => ts@.len() == items@.len() && forall|i: int|
                0 <= i < items@.len() ==> parsed(#[trigger] items@[i], Ok(ts@[i])),
            Err(e) => exists|i: int| 0 <= i < items@.len() && parsed(#[trigger] items@[i], Err(e)),
            Ok(None) => false,
        },
        _ => r == Err::<Option<Vec<Type>>, TypeError>(TypeError::NotAnArray),
    }
}

pub open spec fn parsed_object(d: Descriptor, r: Result<Type, TypeError>) -> bool
    decreases d, 0nat,
{
    match d.type_ {
        Prop::String(name) => {
            let n = name@;
            if n == "int"@ {
                match spec_integer_size(d.size) {
                    Ok(size) => r == Ok::<Type, TypeError>(
                        Type::Integer(
                            IntegerType {
                                size,
                                sign: if spec_flag(d.signed) {
                                    IntegerSign::Signed
                                } else {
                                    IntegerSign::Unsigned
                                },
                            },
                        ),
                    ),
                    Err(e) => r == Err::<Type, TypeError>(e),
                }
            } else if n == "float"@ {
                match spec_float_size(d.size) {
                    Ok(size) => r == Ok::<Type, TypeError>(Type::Float(FloatType { size })),
                    Err(e) => r == Err::<Type, TypeError>(e),
                }
            } else if n == "string"@ {
                r == Ok::<Type, TypeError>(Type::String(StringType { is_borrowed: spec_flag(d.borrowed) }))
            } else if n == "boolean"@ {
                r == Ok::<Type, TypeError>(Type::Boolean)
            } else if n == "null"@ {
                r == Ok::<Type, TypeError>(Type::Null)
            } else if n == "undefined"@ {
                r == Ok::<Type, TypeError>(Type::Undefined)
            } else if n == "gobject"@ {
                r == Ok::<Type, TypeError>(Type::GObject(GObjectType { is_borrowed: spec_flag(d.borrowed) }))
            } else if n == "gvariant"@ {
                r == Ok::<Type, TypeError>(Type::GVariant(GVariantType { is_borrowed: spec_flag(d.borrowed) }))
            } else if n == "boxed"@ {
                match d.inner_type {
                    Prop::String(boxed_name) => match r {
                        Ok(Type::Boxed(b)) => {
                            &&& b.is_borrowed == spec_flag(d.borrowed)
                            &&& b.type_@ == boxed_name@
                            &&& match d.lib {
                                Prop::String(l) => b.lib matches Some(bl) && bl@ == l@,
                                _ => b.lib is None,
                            }
                        },
                        _ => false,
                    },
                    _ => r == Err::<Type, TypeError>(TypeError::NotAString),
                }
            } else if n == "array"@ {
                match r {
                    Ok(Type::Array(a)) => {
                        &&& parsed(d.item_type, Ok(*a.item_type))
                        &&& a.list_type == spec_list_type(d.list_type)
                        &&& a.is_borrowed == spec_flag(d.borrowed)
                    },
                    Err(e) => parsed(d.item_type, Err(e)),
                    _ => false,
                }
            } else if n == "ref"@ {
                match r {
                    Ok(Type::Ref(rt)) => parsed(d.inner_type, Ok(*rt.inner_type)),
                    Err(e) => parsed(d.inner_type, Err(e)),
                    _ => false,
                }
            } else if n == "callback"@ {
                match spec_trampoline(d.trampoline) {
                    Err(e) => r == Err::<Type, TypeError>(e),
                    Ok(tk) => match r {
                        Ok(Type::Callback(c)) => {
                            &&& c.trampoline == tk
                            &&& list_parsed(d.arg_types, Ok(c.arg_types))
                            &&& opt_parsed(d.return_type, Ok(c.return_type))
                            &&& opt_parsed(d.source_type, Ok(c.source_type))
                            &&& opt_parsed(d.result_type, Ok(c.result_type))
                        },
                        Err(e) => {
                            ||| list_parsed(d.arg_types, Err(e))
                            ||| opt_parsed(d.return_type, Err(e))
                            ||| opt_parsed(d.source_type, Err(e))
                            ||| opt_parsed(d.result_type, Err(e))
                        },
                        _ => false,
                    },
                }
            } else {
                r == Err::<Type, TypeError>(TypeError::UnknownType)
            }
        },
        _ => r == Err::<Type, TypeError>(TypeError::NotAString),
    }
}

fn is_text(s: &String, lit: &str) -> (r: bool)
    ensures
        r == (s@ == lit@),
{
    let t = lit.to_owned();
    s.eq(&t)
}

fn flag(p: &Prop) -> (r: bool)
    ensures
        r == spec_flag(*p),
{
    match p {
        Prop::Boolean(b) => *b,
        _ => false,
    }
}

impl IntegerSize {
    /// The integer size a `size` property names.
    pub fn from_js_value(p: &Prop) -> (r: Result<IntegerSize, TypeError>)
        ensures
            r == spec_integer_size(*p),
    {
        match p {
            Prop::Number(n) => if *n == 8 {
                Ok(IntegerSize::_8)
            } else if *n == 16 {
                Ok(IntegerSize::_16)
            } else if *n == 32 {
                Ok(IntegerSize::_32)
            } else if *n == 64 {
                Ok(IntegerSize::_64)
            } else {
                Err(TypeError::InvalidIntegerSize)
            },
            _ => Err(TypeError::NotANumber),
        }
    }
}

impl FloatSize {
    /// The float size a `size` property names.
    pub fn from_js_value(p: &Prop) -> (r: Result<FloatSize, TypeError>)
        ensures
            r == spec_float_size(*p),
    {
        match p {
            Prop::Number(n) => if *n == 32 {
                Ok(FloatSize::_32)
            } else if *n == 64 {
                Ok(FloatSize::_64)
            } else {
                Err(TypeError::InvalidFloatSize)
            },
            _ => Err(TypeError::NotANumber),
        }
    }
}

fn list_type(p: &Prop) -> (r: ListType)
    ensures
        r == spec_list_type(*p),
{
    match p {
        Prop::String(s) => if is_text(s, "glist") {
            ListType::GList
        } else if is_text(s, "gslist") {
            ListType::GSList
        } else {
            ListType::Array
        },
        _ => ListType::Array,
    }
}

fn trampoline(p: &Prop) -> (r: Result<CallbackTrampoline, TypeError>)
    ensures
        r == spec_trampoline(*p),
{
    match p {
        Prop::Undefined | Prop::Null => Ok(CallbackTrampoline::Closure),
        Prop::String(s) => Ok(
            if is_text(s, "asyncReady") {
                CallbackTrampoline::AsyncReady
            } else if is_text(s, "destroy") {
                CallbackTrampoline::Destroy
            } else if is_text(s, "drawFunc") {
                CallbackTrampoline::DrawFunc
            } else if is_text(s, "tickFunc") {
                CallbackTrampoline::TickFunc
            } else if is_text(s, "sourceFunc") {
                CallbackTrampoline::SourceFunc
            } else if is_text(s, "compareDataFunc") {
                CallbackTrampoline::CompareDataFunc
            } else {
                CallbackTrampoline::Closure
            },
        ),
        _ => Err(TypeError::NotAString),
    }
}

fn parse_opt(p: &Prop) -> (r: Result<Option<Box<Type>>, TypeError>)
    ensures
        opt_parsed(*p, r),
    decreases p, 1nat,
{
    match p {
        Prop::Undefined | Prop::Null => Ok(None),
        _ => match Type::from_js_value(p) {
            Ok(t) => Ok(Some(Box::new(t))),
            Err(e) => Err(e),
        },
    }
}

fn parse_list(p: &Prop) -> (r: Result<Option<Vec<Type>>, TypeError>)
    ensures
        list_parsed(*p, r),
    decreases p, 1nat,
{
    match p {
        Prop::Undefined | Prop::Null => Ok(None),
        Prop::Array(items) => {
            let mut ts: Vec<Type> = Vec::new();
            let mut i: usize = 0;
            while i < items.len()
                invariant
                    *p matches Prop::Array(its) && its@ == items@,
                    0 <= i <= items@.len(),
                    ts@.len() == i,
                    forall|j: int| 0 <= j < i ==> parsed(#[trigger] items@[j], Ok(ts@[j])),
                decreases items@.len() - i,
            {
                match Type::from_js_value(&items[i]) {
                    Ok(t) => {
                        ts.push(t);
                    },
                    Err(e) => {
                        proof {
                            assert(parsed(items@[i as int], Err(e)));
                        }
                        return Err(e);
                    },
                }
                i += 1;
            }
            Ok(Some(ts))
        },
        _ => Err(TypeError::NotAnArray),
    }
}

impl Type {
    /// Parses a type descriptor from its description.
    pub fn from_js_value(p: &Prop) -> (r: Result<Type, TypeError>)
        ensures
            parsed(*p, r),
        decreases p, 0nat,
    {
        match p {
            Prop::Object(d) => Type::from_descriptor(d),
            _ => Err(TypeError::NotAnObject),
        }
    }

    /// Parses a type descriptor from the properties of its description object.
    pub fn from_descriptor(d: &Descriptor) -> (r: Result<Type, TypeError>)
        ensures
            parsed_object(*d, r),
        decreases d, 0nat,
    {
        let name = match &d.type_ {
            Prop::String(s) => s,
            _ => {
                return Err(TypeError::NotAString);
            },
        };
        if is_text(name, "int") {
            match IntegerSize::from_js_value(&d.size) {
                Ok(size) => Ok(Type::Integer(IntegerType {
                    size,
                    sign: if flag(&d.signed) { IntegerSign::Signed } else { IntegerSign::Unsigned },
                })),
                Err(e) => Err(e),
            }
        } else if is_text(name, "float") {
            match FloatSize::from_js_value(&d.size) {
                Ok(size) => Ok(Type::Float(FloatType { size })),
                Err(e) => Err(e),
            }
        } else if is_text(name, "string") {
            Ok(Type::String(StringType { is_borrowed: flag(&d.borrowed) }))
        } else if is_text(name, "boolean") {
            Ok(Type::Boolean)
        } else if is_text(name, "null") {
            Ok(Type::Null)
        } else if is_text(name, "undefined") {
            Ok(Type::Undefined)
        } else if is_text(name, "gobject") {
            Ok(Type::GObject(GObjectType { is_borrowed: flag(&d.borrowed) }))
        } else if is_text(name, "gvariant") {
            Ok(Type::GVariant(GVariantType { is_borrowed: flag(&d.borrowed) }))
        } else if is_text(name, "boxed") {
            match &d.inner_type {
                Prop::String(boxed_name) => {
                    let lib = match &d.lib {
                        Prop::String(l) => Some(l.clone()),
                        _ => None,
                    };
                    Ok(Type::Boxed(BoxedType { is_borrowed: flag(&d.borrowed), type_: boxed_name.clone(), lib }))
                },
                _ => Err(TypeError::NotAString),
            }
        } else if is_text(name, "array") {
            match Type::from_js_value(&d.item_type) {
                Ok(item) => Ok(Type::Array(ArrayType {
                    item_type: Box::new(item),
                    list_type: list_type(&d.list_type),
                    is_borrowed: flag(&d.borrowed),
                })),
                Err(e) => Err(e),
            }
        } else if is_text(name, "ref") {
            match Type::from_js_value(&d.inner_type) {
                Ok(inner) => Ok(Type::Ref(RefType { inner_type: Box::new(inner) })),
                Err(e) => Err(e),
            }
        } else if is_text(name, "callback") {
            let tk = match trampoline(&d.trampoline) {
                Ok(t) => t,
                Err(e) => {
                    return Err(e);
                },
            };
            let arg_types = match parse_list(&d.arg_types) {
                Ok(a) => a,
                Err(e) => {
                    return Err(e);
                },
            };
            proof {
                assert(list_parsed(d.arg_types, Ok(arg_types)));
            }
            let return_type = match parse_opt(&d.return_type) {
                Ok(t) => t,
                Err(e) => {
                    return Err(e);
                },
            };
            proof {
                assert(opt_parsed(d.return_type, Ok(return_type)));
            }
            let source_type = match parse_opt(&d.source_type) {
                Ok(t) => t,
                Err(e) => {
                    return Err(e);
                },
            };
            proof {
                assert(opt_parsed(d.source_type, Ok(source_type)));
            }
            let result_type = match parse_opt(&d.result_type) {
                Ok(t) => t,
                Err(e) => {
                    return Err(e);
                },
            };
            Ok(Type::Callback(CallbackType { trampoline: tk, arg_types, return_type, source_type, result_type }))
        } else {
            Err(TypeError::UnknownType)
        }
    }
}

} // verus!
