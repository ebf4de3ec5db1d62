//! The bridge between the engine and the callbacks of the host.
//!
//! When the engine calls a function or a property interceptor that the host
//! registered, it builds a block of information for this one call: the
//! receiver, the arguments, the data given at registration, and a cell for
//! the value to return. The host's callback sees the block through the types
//! of this module. Every handle it obtains from them belongs to the scope
//! that is innermost during the call, so none outlives the call.

use vstd::prelude::*;
use crate::address::Address;
use crate::handle::handle_of;
use crate::handle::Handle;
use crate::handle::Local;
use crate::isolate::Isolate;
use crate::isolate::IsolateView;

verus! {

/// The widest argument list that the engine can describe: it counts
/// arguments in a signed 32-bit integer.
pub const MAX_ARGUMENTS: usize = 0x7fff_ffff;

/// The information for one call of a host function, as mathematics.
pub struct CallView {
    /// The receiver: the `this` value of the call.
    pub receiver: Address,
    /// The data given when the callback was registered; null if none was.
    pub data: Address,
    /// The engine's placeholder for "undefined".
    pub undefined: Address,
    /// The arguments, in order.
    pub values: Seq<Address>,
}

impl CallView {
    /// What makes a block well-formed: nothing in it is null except,
    /// possibly, the data, and the arguments can be counted in 32 bits.
    pub open spec fn wf(self) -> bool {
        &&& !self.receiver.is_null()
        &&& !self.undefined.is_null()
        &&& self.values.len() <= MAX_ARGUMENTS
        &&& forall|i: int| 0 <= i < self.values.len() ==> !(#[trigger] self.values[i]).is_null()
    }

    /// The argument at index `i`: the value that was supplied there, and the
    /// "undefined" placeholder for every index that is out of range.
    pub open spec fn argument(self, i: int) -> Address {
        if 0 <= i < self.values.len() {
            self.values[i]
        } else {
            self.undefined
        }
    }
}

/// The information that the engine passes to a function callback, valid for
/// this one call.
pub struct FunctionCallbackInfo {
    receiver: Address,
    data: Address,
    undefined: Address,
    values: Vec<Address>,
}

impl View for FunctionCallbackInfo {
    type V = CallView;

    closed spec fn view(&self) -> CallView {
        CallView {
            receiver: self.receiver,
            data: self.data,
            undefined: self.undefined,
            values: self.values@,
        }
    }
}

impl FunctionCallbackInfo {
    /// Reads a block: the receiver, the registration data (null if there is
    /// none), the engine's placeholder for "undefined", and the arguments.
    /// Yields nothing if the block is malformed.
    pub fn new(receiver: Address, data: Address, undefined: Address, values: Vec<Address>) -> (r:
        Option<FunctionCallbackInfo>)
        ensures
            r is Some <==> (CallView { receiver, data, undefined, values: values@ }).wf(),
            r matches Some(info) ==> info@ == (CallView {
                receiver,
                data,
                undefined,
                values: values@,
            }),
    {
        if receiver.is_null() || undefined.is_null() || values.len() > MAX_ARGUMENTS {
            return None;
        }
        let mut i: usize = 0;
        while i < values.len()
            invariant
                i <= values.len(),
                forall|j: int| 0 <= j < i ==> !(#[trigger] values@[j]).is_null(),
            decreases values.len() - i,
        {
            if values[i].is_null() {
                return None;
            }
            i += 1;
        }
        Some(FunctionCallbackInfo { receiver, data, undefined, values })
    }
}

/// The information for one property access, as mathematics.
pub struct AccessView {
    /// The receiver: the object on which the property is accessed.
    pub receiver: Address,
    /// The engine's placeholder for "undefined".
    pub undefined: Address,
}

impl AccessView {
    /// What makes a block well-formed: nothing in it is null.
    pub open spec fn wf(self) -> bool {
        &&& !self.receiver.is_null()
        &&& !self.undefined.is_null()
    }
}

/// The information that the engine passes to a property callback, valid for
/// this one access.
pub struct PropertyCallbackInfo {
    receiver: Address,
    undefined: Address,
}

impl View for PropertyCallbackInfo {
    type V = AccessView;

    closed spec fn view(&self) -> AccessView {
        AccessView { receiver: self.receiver, undefined: self.undefined }
    }
}

impl PropertyCallbackInfo {
    /// Reads a block: the receiver and the engine's placeholder for
    /// "undefined". Yields nothing if either is null.
    pub fn new(receiver: Address, undefined: Address) -> (r: Option<PropertyCallbackInfo>)
        ensures
            r is Some <==> (AccessView { receiver, undefined }).wf(),
            r matches Some(info) ==> info@ == (AccessView { receiver, undefined }),
    {
        if receiver.is_null() || undefined.is_null() {
            None
        } else {
            Some(PropertyCallbackInfo { receiver, undefined })
        }
    }
}

/// What a cell holds after `values` were set one after the other, if it
/// held `cell` before.
pub open spec fn after_sets(cell: Address, values: Seq<Address>) -> Address
    decreases values.len(),
{
    if values.len() == 0 {
        cell
    } else {
        after_sets(values[0], values.drop_first())
    }
}

/// The last write wins: after any number of sets a cell holds the value set
/// last, and what it held before if nothing was set.
pub proof fn law_last_write_wins(cell: Address, values: Seq<Address>)
    ensures
        after_sets(cell, values) == if values.len() == 0 {
            cell
        } else {
            values.last()
        },
    decreases values.len(),
{
    if values.len() > 0 {
        law_last_write_wins(values[0], values.drop_first());
        if values.len() > 1 {
            assert(values.drop_first().last() == values.last());
        }
    }
}

/// Getting from a return-value cell yields a handle to the value set last,
/// and to "undefined" if none was set.
///
/// Let the cell of a call start out holding `undefined`, and let the values
/// that the live handles `set` read be set one after the other. Then getting
/// yields a new live handle that reads what the last of `set` reads, or
/// `undefined` if `set` is empty; the handles of `set` stay live and read
/// what they read.
pub proof fn law_get_yields_last_set(isolate: IsolateView, undefined: Address, set: Seq<Handle>)
    requires
        isolate.can_lift(),
        !undefined.is_null(),
        isolate.all_live(set),
    ensures
        ({
            let cell = after_sets(undefined, set.map_values(|h: Handle| isolate.read(h)));
            let after = isolate.lift(cell);
            &&& isolate.lifts(cell, after, isolate.lifted(cell))
            &&& isolate.lifted(cell) matches Some(got) && after.live(got) && after.read(got) == (
            if set.len() == 0 {
                undefined
            } else {
                isolate.read(set.last())
            })
            &&& set.len() > 0 ==> after.live(set.last()) && after.read(set.last()) == isolate.read(
                set.last(),
            )
        }),
{
    let values = set.map_values(|h: Handle| isolate.read(h));
    law_last_write_wins(undefined, values);
    let cell = after_sets(undefined, values);
    if set.len() > 0 {
        assert(isolate.live(set.last()));
        isolate.stack.lemma_live_in_bounds(set.last());
        assert(values.last() == isolate.read(set.last()));
    }
    isolate.lemma_lift(cell);
}

/// The cell for the value that a callback returns.
///
/// The cell starts out holding the "undefined" placeholder. Every `set`
/// overwrites it; what counts is the last value set.
pub struct ReturnValue {
    value: Address,
}

impl View for ReturnValue {
    type V = Address;

    closed spec fn view(&self) -> Address {
        self.value
    }
}

impl ReturnValue {
    /// The cell of a call of a host function, holding "undefined".
    pub fn from_function_callback_info(info: &FunctionCallbackInfo) -> (rv: ReturnValue)
        requires
            info@.wf(),
        ensures
            rv@ == info@.undefined,
            !rv@.is_null(),
    {
        ReturnValue { value: info.undefined }
    }

    /// The cell of a property access, holding "undefined".
    pub fn from_property_callback_info(info: &PropertyCallbackInfo) -> (rv: ReturnValue)
        requires
            info@.wf(),
        ensures
            rv@ == info@.undefined,
            !rv@.is_null(),
    {
        ReturnValue { value: info.undefined }
    }

    /// Puts what `value` reads into the cell, in place of what was there.
    pub fn set(&mut self, isolate: &Isolate, value: Local)
        requires
            isolate@.wf(),
            isolate@.live(value@),
        ensures
            final(self)@ == isolate@.read(value@),
            !final(self)@.is_null(),
    {
        self.value = isolate.read(&value);
    }

    /// What the cell holds, as a new handle of the innermost scope: the
    /// value set last, or "undefined" if none was set.
    pub fn get(&self, isolate: &mut Isolate) -> (local: Local)
        requires
            old(isolate)@.can_lift(),
            !self@.is_null(),
        ensures
            old(isolate)@.lifts(self@, final(isolate)@, Some(local@)),
    {
        isolate.lift(self.value)
    }

    /// What the cell holds, for handing it back to the engine.
    pub fn value(&self) -> (a: Address)
        ensures
            a == self@,
    {
        self.value
    }
}

/// What a host function sees of the call it serves: the receiver, the
/// arguments and the registration data.
pub struct FunctionCallbackArguments<'a> {
    info: &'a FunctionCallbackInfo,
}

impl<'a> View for FunctionCallbackArguments<'a> {
    type V = CallView;

    closed spec fn view(&self) -> CallView {
        self.info@
    }
}

impl<'a> FunctionCallbackArguments<'a> {
    /// The arguments of the call that `info` describes.
    pub fn from_function_callback_info(info: &'a FunctionCallbackInfo) -> (args:
        FunctionCallbackArguments<'a>)
        ensures
            args@ == info@,
    {
        FunctionCallbackArguments { info }
    }

    /// The receiver. This corresponds to the `this` value.
    pub fn this(&self, isolate: &mut Isolate) -> (local: Local)
        requires
            old(isolate)@.can_lift(),
            self@.wf(),
        ensures
            old(isolate)@.lifts(self@.receiver, final(isolate)@, Some(local@)),
    {
        isolate.lift(self.info.receiver)
    }

    /// The data that was given when the callback was registered, if any was.
    pub fn data(&self, isolate: &mut Isolate) -> (r: Option<Local>)
        requires
            old(isolate)@.can_lift(),
        ensures
            old(isolate)@.lifts(self@.data, final(isolate)@, handle_of(r)),
    {
        Local::from_raw(isolate, self.info.data)
    }

    /// The number of arguments.
    pub fn length(&self) -> (n: i32)
        requires
            self@.wf(),
        ensures
            n == self@.values.len(),
    {
        self.info.values.len() as i32
    }

    /// The argument at index `i`, or "undefined" if there is no argument at
    /// this index. An index out of range is no failure.
    pub fn get(&self, isolate: &mut Isolate, i: i32) -> (local: Local)
        requires
            old(isolate)@.can_lift(),
            self@.wf(),
        ensures
            old(isolate)@.lifts(self@.argument(i as int), final(isolate)@, Some(local@)),
    {
        let value = if 0 <= i && (i as usize) < self.info.values.len() {
            self.info.values[i as usize]
        } else {
            self.info.undefined
        };
        isolate.lift(value)
    }
}

/// What a property interceptor sees of the access it serves.
pub struct PropertyCallbackArguments<'a> {
    info: &'a PropertyCallbackInfo,
}

impl<'a> View for PropertyCallbackArguments<'a> {
    type V = AccessView;

    closed spec fn view(&self) -> AccessView {
        self.info@
    }
}

impl<'a> PropertyCallbackArguments<'a> {
    /// The arguments of the access that `info` describes.
    pub fn from_property_callback_info(info: &'a PropertyCallbackInfo) -> (args:
        PropertyCallbackArguments<'a>)
        ensures
            args@ == info@,
    {
        PropertyCallbackArguments { info }
    }

    /// The receiver. In most cases this is the object on which the property
    /// access was intercepted; where the access names a receiver of its own,
    /// it is that one.
    pub fn this(&self, isolate: &mut Isolate) -> (local: Local)
        requires
            old(isolate)@.can_lift(),
            self@.wf(),
        ensures
            old(isolate)@.lifts(self@.receiver, final(isolate)@, Some(local@)),
    {
        isolate.lift(self.info.receiver)
    }
}

/// A handle to a function of the engine.
#[derive(Clone, Copy, PartialEq, Eq, Structural, Debug)]
pub struct Function {
    handle: Local,
}

impl View for Function {
    type V = Handle;

    closed spec fn view(&self) -> Handle {
        self.handle@
    }
}

impl IsolateView {
    /// Whether a function can be made here: a handle can be made, and a
    /// context is current for the function to belong to.
    pub open spec fn can_make_function(self, callback: Address) -> bool {
        &&& self.can_lift()
        &&& self.stack.current_context() is Some
        &&& !callback.is_null()
    }

    /// Whether `function` can be called with this receiver and these
    /// arguments: every handle is live, a context is current, and the
    /// arguments can be counted in 32 bits.
    pub open spec fn can_call(self, function: Handle, recv: Handle, args: Seq<Handle>) -> bool {
        &&& self.can_lift()
        &&& self.stack.current_context() is Some
        &&& self.live(function)
        &&& self.live(recv)
        &&& self.all_live(args)
        &&& args.len() <= MAX_ARGUMENTS
    }
}

impl Function {
    /// Takes `local` for a handle to a function.
    pub fn from_local(local: Local) -> (function: Function)
        ensures
            function@ == local@,
    {
        Function { handle: local }
    }

    /// The handle, as one to any value.
    pub fn handle(&self) -> (local: Local)
        ensures
            local@ == self@,
    {
        self.handle
    }

    /// Whether a function can be made in `isolate` now for the host
    /// callback at `callback`.
    pub fn can_make(isolate: &Isolate, callback: Address) -> (b: bool)
        requires
            isolate@.wf(),
        ensures
            b == isolate@.can_make_function(callback),
    {
        isolate.can_lift() && isolate.current_context().is_some() && !callback.is_null()
    }

    /// Whether this function can be called on `recv` with `args` in
    /// `isolate` now.
    pub fn can_call(&self, isolate: &Isolate, recv: Local, args: &Vec<Local>) -> (b: bool)
        requires
            isolate@.wf(),
        ensures
            b == isolate@.can_call(self@, recv@, args@.map_values(|l: Local| l@)),
    {
        isolate.can_lift() && isolate.current_context().is_some() && isolate.is_live(&self.handle)
            && isolate.is_live(&recv) && isolate.all_live(args) && args.len() <= MAX_ARGUMENTS
    }

    /// The function that the engine made in the current context for the
    /// host callback at `callback`; `reply` is what the engine handed back,
    /// null if it made none.
    pub fn new(isolate: &mut Isolate, callback: Address, reply: Address) -> (r: Option<Function>)
        requires
            old(isolate)@.can_make_function(callback),
        ensures
            old(isolate)@.lifts(reply, final(isolate)@, handle_of(r)),
    {
        match Local::from_raw(isolate, reply) {
            Some(local) => Some(Function { handle: local }),
            None => None,
        }
    }

    /// The function that the engine made in the current context for the
    /// host callback at `callback`, with `data` for the callback to find in
    /// every call; `reply` is what the engine handed back, null if it made
    /// none.
    pub fn new_with_data(isolate: &mut Isolate, data: Local, callback: Address, reply: Address) -> (r:
        Option<Function>)
        requires
            old(isolate)@.can_make_function(callback),
            old(isolate)@.live(data@),
        ensures
            old(isolate)@.lifts(reply, final(isolate)@, handle_of(r)),
    {
        match Local::from_raw(isolate, reply) {
            Some(local) => Some(Function { handle: local }),
            None => None,
        }
    }

    /// The number of arguments as the engine counts them, or nothing if
    /// there are more than it can count.
    pub fn argc(args: &Vec<Local>) -> (r: Option<i32>)
        ensures
            r is Some <==> args@.len() <= MAX_ARGUMENTS,
            r matches Some(n) ==> n == args@.len(),
    {
        if args.len() <= MAX_ARGUMENTS {
            Some(args.len() as i32)
        } else {
            None
        }
    }

    /// The result of calling this function on `recv` with `args` in the
    /// current context; `reply` is what the engine handed back, null if the
    /// call threw.
    pub fn call(&self, isolate: &mut Isolate, recv: Local, args: &Vec<Local>, reply: Address) -> (r:
        Option<Local>)
        requires
            old(isolate)@.can_call(self@, recv@, args@.map_values(|l: Local| l@)),
        ensures
            old(isolate)@.lifts(reply, final(isolate)@, handle_of(r)),
    {
        Local::from_raw(isolate, reply)
    }
}

} // verus!
