//! Call invocation: the native signature of a call, the order in which its
//! argument slots are passed, and which out-parameters are read back.

use vstd::prelude::*;

use crate::marshal::{marshal, marshals, Arg, MarshalError, NativeValue};
use crate::types::{spec_native_type, spec_slot_count, spec_uses_trampoline, CallbackTrampoline, NativeType, Type};
use crate::receive::{receives, Incoming};
use crate::value::{RefHandle, Value};

verus! {

/// Why a call could not be prepared.
#[derive(Debug, Clone, Copy, PartialEq, Eq, Structural)]
pub enum CallError {
    /// Argument `index` could not be marshaled.
    Argument { index: usize, error: MarshalError },
    /// The return descriptor cannot be returned by a native call.
    UnsupportedReturnType,
}

/// One positional slot of a native call, naming the argument it comes from.
#[derive(Debug, Clone, Copy, PartialEq, Eq, Structural)]
pub enum Slot {
    /// The marshaled value of the argument.
    Value(usize),
    /// The trampoline function pointer of a callback argument.
    Trampoline(usize),
    /// The closure data pointer of a callback argument.
    Data(usize),
    /// The destroy-notify function pointer of a callback argument.
    DestroyNotify(usize),
    /// A null pointer standing for an absent callback.
    Null,
}

/// The native types of the slots an argument of the descriptor takes.
pub open spec fn slot_types(t: Type) -> Seq<NativeType> {
    match t {
        Type::Callback(c) => if spec_uses_trampoline(c.trampoline) {
            Seq::new(spec_slot_count(c.trampoline), |i: int| NativeType::Pointer)
        } else {
            seq![NativeType::Pointer]
        },
        _ => seq![spec_native_type(t)],
    }
}

/// The argument types of the call interface, slot by slot.
pub open spec fn signature_of(args: Seq<Arg>) -> Seq<NativeType>
    decreases args.len(),
{
    if args.len() == 0 {
        Seq::empty()
    } else {
        signature_of(args.drop_last()) + slot_types(args.last().type_)
    }
}

/// The native result type of a call returning the descriptor, if it can be returned.
pub open spec fn spec_return_type(t: Type) -> Option<NativeType> {
    match t {
        Type::Callback(_) | Type::Ref(_) => None,
        Type::Null => Some(NativeType::Void),
        _ => Some(spec_native_type(t)),
    }
}

/// The slots argument `i`, of descriptor `t`, marshaled as `n`, fills.
pub open spec fn arg_slots(t: Type, n: NativeValue, i: usize) -> Seq<Slot> {
    match n {
        NativeValue::TrampolineCallback(tc) => if tc.trampoline == CallbackTrampoline::Closure {
            seq![Slot::Data(i)]
        } else {
            (if tc.data_first {
                seq![Slot::Data(i), Slot::Trampoline(i)]
            } else {
                seq![Slot::Trampoline(i), Slot::Data(i)]
            }) + (if tc.has_destroy_notify {
                seq![Slot::DestroyNotify(i)]
            } else {
                Seq::empty()
            })
        },
        _ => match t {
            Type::Callback(c) => seq![Slot::Value(i)] + Seq::new(
                (spec_slot_count(c.trampoline) - 1) as nat,
                |j: int| Slot::Null,
            ),
            _ => seq![Slot::Value(i)],
        },
    }
}

pub open spec fn slots_of(args: Seq<Arg>, values: Seq<NativeValue>) -> Seq<Slot>
    decreases values.len(),
{
    if values.len() == 0 || args.len() < values.len() {
        Seq::empty()
    } else {
        let i = values.len() - 1;
        slots_of(args, values.drop_last()) + arg_slots(args[i].type_, values[i], i as usize)
    }
}

/// Whether argument `a` is an out-parameter whose value is read back after
/// the call. An object the caller allocated is written into in place and
/// keeps its identity, so it is not read back.
pub open spec fn reads_back(a: Arg) -> bool {
    match a.value {
        Value::Ref(r) => !(a.type_ matches Type::Ref(rt) && (*rt.inner_type is Boxed
            || *rt.inner_type is GObject) && *r.value is Object),
        _ => false,
    }
}

/// The indices, in increasing order, of the arguments among the first `n`
/// that are read back after the call.
pub open spec fn read_back_indices(args: Seq<Arg>, n: int) -> Seq<usize>
    decreases n,
{
    if n <= 0 {
        Seq::empty()
    } else if reads_back(args[n - 1]) {
        read_back_indices(args, n - 1).push((n - 1) as usize)
    } else {
        read_back_indices(args, n - 1)
    }
}

/// `p` is the call `args` returning `ret` laid out: its interface, each
/// argument marshaled, its slots, and its out-parameters in argument order.
pub open spec fn prepared(args: Seq<Arg>, ret: Type, objs: Map<usize, usize>, p: PreparedCall) -> bool {
    &&& spec_return_type(ret) == Some(p.return_type)
    &&& p.arg_types@ == signature_of(args)
    &&& p.values@.len() == args.len()
    &&& forall|i: int|
        0 <= i < args.len() ==> #[trigger] marshals(
            args[i].value,
            args[i].type_,
            args[i].optional,
            objs,
            Ok(p.values@[i]),
        )
    &&& p.slots@ == slots_of(args, p.values@)
    &&& p.out_params@ == read_back_indices(args, args.len() as int)
    &&& forall|k: int|
        0 <= k < p.out_params@.len() ==> (#[trigger] p.out_params@[k] as int) < args.len() && reads_back(
            args[p.out_params@[k] as int],
        )
}

/// Preparing a call of `args` returning `ret` fails with `e`: the return
/// descriptor cannot be returned, or argument `index` is the first that
/// cannot be marshaled.
pub open spec fn prepare_fails(args: Seq<Arg>, ret: Type, objs: Map<usize, usize>, e: CallError) -> bool {
    match e {
        CallError::UnsupportedReturnType => spec_return_type(ret) is None,
        CallError::Argument { index, error } => {
            &&& spec_return_type(ret) is Some
            &&& index < args.len()
            &&& marshals(args[index as int].value, args[index as int].type_, args[index as int].optional, objs, Err(error))
            &&& forall|j: int| 0 <= j < index ==> #[trigger] marshals_ok(args[j], objs)
        },
    }
}

/// A call ready to be performed: its interface, its marshaled arguments, the
/// order of its slots, and the out-parameters to read back.
#[derive(Debug)]
pub struct PreparedCall {
    pub arg_types: Vec<NativeType>,
    pub return_type: NativeType,
    pub values: Vec<NativeValue>,
    pub slots: Vec<Slot>,
    pub out_params: Vec<usize>,
}

pub open spec fn marshals_ok(a: Arg, objs: Map<usize, usize>) -> bool {
    exists|n: NativeValue| marshals(a.value, a.type_, a.optional, objs, Ok(n))
}

fn push_slot_types(out: &mut Vec<NativeType>, t: &Type)
    ensures
        final(out)@ == old(out)@ + slot_types(*t),
{
    match t {
        Type::Callback(c) => {
            let k = c.trampoline.slot_count();
            let ghost start = out@;
            let mut j: usize = 0;
            while j < k
                invariant
                    j <= k,
                    k as nat == spec_slot_count(c.trampoline),
                    out@ == start + Seq::new(j as nat, |i: int| NativeType::Pointer),
                decreases k - j,
            {
                out.push(NativeType::Pointer);
                j += 1;
                proof {
                    assert(out@ =~= start + Seq::new(j as nat, |i: int| NativeType::Pointer));
                }
            }
            proof {
                if !spec_uses_trampoline(c.trampoline) {
                    assert(Seq::new(1nat, |i: int| NativeType::Pointer) =~= seq![NativeType::Pointer]);
                }
            }
        },
        _ => {
            out.push(t.native_type());
        },
    }
}

/// The argument types of the call interface for `args`.
pub fn signature(args: &Vec<Arg>) -> (r: Vec<NativeType>)
    ensures
        r@ == signature_of(args@),
{
    let mut out: Vec<NativeType> = Vec::new();
    let mut i: usize = 0;
    while i < args.len()
        invariant
            0 <= i <= args@.len(),
            out@ == signature_of(args@.take(i as int)),
        decreases args@.len() - i,
    {
        push_slot_types(&mut out, &args[i].type_);
        proof {
            assert(args@.take(i as int + 1).drop_last() =~= args@.take(i as int));
        }
        i += 1;
    }
    proof {
        assert(args@.take(args@.len() as int) =~= args@);
    }
    out
}

/// The native result type of a call returning `ret`.
pub fn return_type(ret: &Type) -> (r: Result<NativeType, CallError>)
    ensures
        match spec_return_type(*ret) {
            Some(nt) => r == Ok::<NativeType, CallError>(nt),
            None => r == Err::<NativeType, CallError>(CallError::UnsupportedReturnType),
        },
{
    match ret {
        Type::Callback(_) | Type::Ref(_) => Err(CallError::UnsupportedReturnType),
        Type::Null => Ok(NativeType::Void),
        _ => Ok(ret.native_type()),
    }
}

fn push_arg_slots(out: &mut Vec<Slot>, t: &Type, n: &NativeValue, i: usize)
    ensures
        final(out)@ == old(out)@ + arg_slots(*t, *n, i),
{
    let ghost start = out@;
    match n {
        NativeValue::TrampolineCallback(tc) => {
            if tc.trampoline == CallbackTrampoline::Closure {
                out.push(Slot::Data(i));
                proof {
                    assert(out@ =~= start + arg_slots(*t, *n, i));
                }
            } else {
                if tc.data_first {
                    out.push(Slot::Data(i));
                    out.push(Slot::Trampoline(i));
                } else {
                    out.push(Slot::Trampoline(i));
                    out.push(Slot::Data(i));
                }
                if tc.has_destroy_notify {
                    out.push(Slot::DestroyNotify(i));
                }
                proof {
                    assert(out@ =~= start + arg_slots(*t, *n, i));
                }
            }
        },
        _ => {
            out.push(Slot::Value(i));
            match t {
                Type::Callback(c) => {
                    let k = c.trampoline.slot_count();
                    let mut j: usize = 1;
                    while j < k
                        invariant
                            1 <= j <= k,
                            k as nat == spec_slot_count(c.trampoline),
                            out@ == start + seq![Slot::Value(i)] + Seq::new(
                                (j - 1) as nat,
                                |x: int| Slot::Null,
                            ),
                        decreases k - j,
                    {
                        out.push(Slot::Null);
                        j += 1;
                        proof {
                            assert(out@ =~= start + seq![Slot::Value(i)] + Seq::new(
                                (j - 1) as nat,
                                |x: int| Slot::Null,
                            ));
                        }
                    }
                    proof {
                        assert(out@ =~= start + arg_slots(*t, *n, i));
                    }
                },
                _ => {
                    proof {
                        assert(out@ =~= start + arg_slots(*t, *n, i));
                    }
                },
            }
        },
    }
}

/// Marshals every argument, in order, and lays out the call.
pub fn prepare_call<T>(args: &Vec<Arg>, ret: &Type, objs: &crate::registry::ObjectMap<T>) -> (r: Result<
    PreparedCall,
    CallError,
>)
    ensures
        match r {
            Ok(p) => prepared(args@, *ret, objs.addresses(), p),
            Err(e) => prepare_fails(args@, *ret, objs.addresses(), e),
        },
{
    let return_type = match return_type(ret) {
        Ok(nt) => nt,
        Err(e) => {
            return Err(e);
        },
    };
    let ghost m = objs.addresses();
    let mut values: Vec<NativeValue> = Vec::new();
    let mut slots: Vec<Slot> = Vec::new();
    let mut out_params: Vec<usize> = Vec::new();
    let mut i: usize = 0;
    while i < args.len()
        invariant
            m == objs.addresses(),
            spec_return_type(*ret) == Some(return_type),
            0 <= i <= args@.len(),
            values@.len() == i,
            forall|j: int|
                0 <= j < i ==> #[trigger] marshals(
                    args@[j].value,
                    args@[j].type_,
                    args@[j].optional,
                    m,
                    Ok(values@[j]),
                ),
            forall|j: int| 0 <= j < i ==> #[trigger] marshals_ok(args@[j], m),
            slots@ == slots_of(args@, values@),
            forall|k: int|
                0 <= k < out_params@.len() ==> (#[trigger] out_params@[k] as int) < i && reads_back(
                    args@[out_params@[k] as int],
                ),
            out_params@ == read_back_indices(args@, i as int),
        decreases args@.len() - i,
    {
        let arg = &args[i];
        match marshal(&arg.value, &arg.type_, arg.optional, objs) {
            Ok(n) => {
                proof {
                    assert(marshals_ok(args@[i as int], m));
                }
                push_arg_slots(&mut slots, &arg.type_, &n, i);
                let ghost before = values@;
                values.push(n);
                proof {
                    assert(values@.drop_last() =~= before);
                }
            },
            Err(error) => {
                return Err(CallError::Argument { index: i, error });
            },
        }
        let is_out = match &arg.value {
            Value::Ref(r) => match &arg.type_ {
                Type::Ref(rt) => match &*rt.inner_type {
                    Type::Boxed(_) | Type::GObject(_) => !matches!(&*r.value, Value::Object(_)),
                    _ => true,
                },
                _ => true,
            },
            _ => false,
        };
        proof {
            assert(is_out == reads_back(args@[i as int]));
        }
        if is_out {
            out_params.push(i);
        }
        i += 1;
    }
    let arg_types = signature(args);
    Ok(PreparedCall { arg_types, return_type, values, slots, out_params })
}

proof fn lemma_arg_slot_count(a: Arg, objs: Map<usize, usize>, n: NativeValue, i: usize)
    requires
        marshals(a.value, a.type_, a.optional, objs, Ok(n)),
    ensures
        arg_slots(a.type_, n, i).len() == slot_types(a.type_).len(),
{
    reveal_with_fuel(marshals, 2);
}

proof fn lemma_slot_count_prefix(args: Seq<Arg>, objs: Map<usize, usize>, values: Seq<NativeValue>, k: int)
    requires
        values.len() == args.len(),
        0 <= k <= args.len(),
        forall|i: int| 0 <= i < args.len() ==> #[trigger] marshals(args[i].value, args[i].type_, args[i].optional, objs, Ok(values[i])),
    ensures
        slots_of(args, values.take(k)).len() == signature_of(args.take(k)).len(),
    decreases k,
{
    if k > 0 {
        lemma_slot_count_prefix(args, objs, values, k - 1);
        assert(values.take(k).drop_last() =~= values.take(k - 1));
        assert(args.take(k).drop_last() =~= args.take(k - 1));
        lemma_arg_slot_count(args[k - 1], objs, values[k - 1], (k - 1) as usize);
    }
}

/// The arguments of a call fill exactly as many slots as its call interface
/// declares: a callback whose convention needs a trampoline and a destroy
/// notification fills three, one that needs a trampoline fills two, and an
/// absent callback is passed as that many null pointers.
pub proof fn law_slots_match_signature(args: Seq<Arg>, objs: Map<usize, usize>, values: Seq<NativeValue>)
    requires
        values.len() == args.len(),
        forall|i: int| 0 <= i < args.len() ==> #[trigger] marshals(args[i].value, args[i].type_, args[i].optional, objs, Ok(values[i])),
    ensures
        slots_of(args, values).len() == signature_of(args).len(),
{
    lemma_slot_count_prefix(args, objs, values, args.len() as int);
    assert(values.take(args.len() as int) =~= values);
    assert(args.take(args.len() as int) =~= args);
}

/// What a finished call hands back: its result, and for each out-parameter
/// read back, the wrapper to update and its new value.
#[derive(Debug)]
pub struct CallOutcome {
    pub value: Incoming,
    pub ref_updates: Vec<(RefHandle, Incoming)>,
}

pub open spec fn receives_ok(n: NativeValue, t: Type) -> bool {
    exists|inc: Incoming| receives(n, t, Ok(inc))
}

/// Converting the out-parameters before the `k`-th succeeds, and the `k`-th
/// conversion (the result's, when `k` is the number of out-parameters) fails with `e`.
pub open spec fn finish_fails_at(
    args: Seq<Arg>,
    out_params: Seq<usize>,
    out_values: Seq<NativeValue>,
    result: NativeValue,
    ret: Type,
    e: MarshalError,
    k: int,
) -> bool {
    &&& 0 <= k <= out_params.len()
    &&& forall|j: int| 0 <= j < k ==> #[trigger] receives_ok(out_values[j], args[out_params[j] as int].type_)
    &&& if k < out_params.len() {
        receives(out_values[k], args[out_params[k] as int].type_, Err(e))
    } else {
        receives(result, ret, Err(e))
    }
}

/// Converts what a call produced: first each out-parameter read back after
/// the call (`out_values[k]` for argument `out_params[k]`), then the result.
/// The first conversion that fails decides the error.
pub fn finish_call(
    args: &Vec<Arg>,
    out_params: &Vec<usize>,
    out_values: &Vec<NativeValue>,
    result: &NativeValue,
    ret: &Type,
) -> (r: Result<CallOutcome, MarshalError>)
    requires
        out_values@.len() == out_params@.len(),
        forall|k: int|
            0 <= k < out_params@.len() ==> (#[trigger] out_params@[k] as int) < args@.len()
                && args@[out_params@[k] as int].value is Ref,
    ensures
        match r {
            Ok(o) => {
                &&& receives(*result, *ret, Ok(o.value))
                &&& o.ref_updates@.len() == out_params@.len()
                &&& forall|k: int|
                    0 <= k < out_params@.len() ==> (#[trigger] o.ref_updates@[k]).0 == args@[out_params@[k] as int].value->Ref_0.js_obj
                        && receives(out_values@[k], args@[out_params@[k] as int].type_, Ok(o.ref_updates@[k].1))
            },
            Err(e) => exists|k: int| #[trigger] finish_fails_at(args@, out_params@, out_values@, *result, *ret, e, k),
        },
{
    let mut updates: Vec<(RefHandle, Incoming)> = Vec::new();
    let mut k: usize = 0;
    while k < out_params.len()
        invariant
            out_values@.len() == out_params@.len(),
            forall|k: int|
                0 <= k < out_params@.len() ==> (#[trigger] out_params@[k] as int) < args@.len()
                    && args@[out_params@[k] as int].value is Ref,
            0 <= k <= out_params@.len(),
            updates@.len() == k,
            forall|j: int|
                0 <= j < k ==> (#[trigger] updates@[j]).0 == args@[out_params@[j] as int].value->Ref_0.js_obj
                    && receives(out_values@[j], args@[out_params@[j] as int].type_, Ok(updates@[j].1)),
            forall|j: int| 0 <= j < k ==> #[trigger] receives_ok(out_values@[j], args@[out_params@[j] as int].type_),
        decreases out_params@.len() - k,
    {
        let idx = out_params[k];
        let arg = &args[idx];
        let handle = match &arg.value {
            Value::Ref(rf) => rf.js_obj,
            _ => RefHandle(0),
        };
        match Value::from_cif_value(&out_values[k], &arg.type_) {
            Ok(inc) => {
                proof {
                    assert(receives_ok(out_values@[k as int], args@[out_params@[k as int] as int].type_));
                }
                updates.push((handle, inc));
            },
            Err(e) => {
                proof {
                    assert(finish_fails_at(args@, out_params@, out_values@, *result, *ret, e, k as int));
                }
                return Err(e);
            },
        }
        k += 1;
    }
    match Value::from_cif_value(result, ret) {
        Ok(value) => Ok(CallOutcome { value, ref_updates: updates }),
        Err(e) => {
            proof {
                assert(finish_fails_at(args@, out_params@, out_values@, *result, *ret, e, out_params@.len() as int));
            }
            Err(e)
        },
    }
}

/// Preparing the call `args` returning `ret` succeeds.
pub open spec fn prepares_ok(args: Seq<Arg>, ret: Type, objs: Map<usize, usize>) -> bool {
    exists|p: PreparedCall| #[trigger] prepared(args, ret, objs, p)
}

/// One call of a batch: library, symbol and arguments; batched calls return nothing.
#[derive(Debug)]
pub struct BatchCallDescriptor {
    pub library_name: String,
    pub symbol_name: String,
    pub args: Vec<Arg>,
}

/// Prepares every call of a batch before any is performed, so that a batch
/// whose arguments do not all marshal fails as a whole, naming the first call
/// that failed.
pub fn prepare_batch<T>(calls: &Vec<BatchCallDescriptor>, objs: &crate::registry::ObjectMap<T>) -> (r: Result<
    Vec<PreparedCall>,
    (usize, CallError),
>)
    ensures
        match r {
            Ok(ps) => ps@.len() == calls@.len() && forall|i: int|
                0 <= i < calls@.len() ==> prepared(calls@[i].args@, Type::Undefined, objs.addresses(), #[trigger] ps@[i]),
            Err((i, e)) => {
                &&& i < calls@.len()
                &&& prepare_fails(calls@[i as int].args@, Type::Undefined, objs.addresses(), e)
                &&& forall|j: int| 0 <= j < i ==> #[trigger] prepares_ok(calls@[j].args@, Type::Undefined, objs.addresses())
            },
        },
{
    let mut out: Vec<PreparedCall> = Vec::new();
    let mut i: usize = 0;
    while i < calls.len()
        invariant
            0 <= i <= calls@.len(),
            out@.len() == i,
            forall|j: int|
                0 <= j < i ==> prepared(calls@[j].args@, Type::Undefined, objs.addresses(), #[trigger] out@[j]),
        decreases calls@.len() - i,
    {
        match prepare_call(&calls[i].args, &Type::Undefined, objs) {
            Ok(p) => {
                out.push(p);
            },
            Err(e) => {
                proof {
                    assert forall|j: int| 0 <= j < i implies #[trigger] prepares_ok(
                        calls@[j].args@,
                        Type::Undefined,
                        objs.addresses(),
                    ) by {
                        assert(prepared(calls@[j].args@, Type::Undefined, objs.addresses(), out@[j]));
                    }
                }
                return Err((i, e));
            },
        }
        i += 1;
    }
    Ok(out)
}

} // verus!
