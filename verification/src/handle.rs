//! Handles: local ones, which a scope owns, and global and weak ones, whose
//! lifetime is their own.

use vstd::prelude::*;
use crate::address::Address;
use crate::isolate::Isolate;
use crate::isolate::IsolateView;

verus! {

/// What a [`Local`] stands for: a storage cell of an isolate, and the scope
/// that owns the cell.
pub struct Handle {
    /// The isolate whose scope stack holds the cell.
    pub isolate: Address,
    /// The serial number of the owning scope.
    pub scope: u64,
    /// The position of the cell in the isolate's handle storage.
    pub slot: usize,
}

/// A non-owning reference to one storage cell of an isolate, tagged with the
/// scope that owns the cell.
///
/// A `Local` has no destructor and copying one copies no storage: every copy
/// reads the same cell. It is live as long as its scope is open, and dead for
/// good once that scope has closed. Every operation that takes a `Local`
/// requires it to be live in the isolate it is used with.
#[derive(Clone, Copy, PartialEq, Eq, Structural, Debug)]
pub struct Local {
    isolate: Address,
    scope: u64,
    slot: usize,
}

impl View for Local {
    type V = Handle;

    closed spec fn view(&self) -> Handle {
        Handle { isolate: self.isolate, scope: self.scope, slot: self.slot }
    }
}

/// The handle that an optional `Local`, or an optional typed handle, stands
/// for, if there is one.
pub open spec fn handle_of<T: View<V = Handle>>(r: Option<T>) -> Option<Handle> {
    match r {
        Some(local) => Some(local@),
        None => None,
    }
}

impl Local {
    /// Wraps an address that the engine handed out into a handle owned by
    /// the innermost open scope of `isolate`.
    ///
    /// A null address is the engine's signal that it produced no value, and
    /// yields none here; the isolate is then left as it was. Any other
    /// address yields a handle that reads this very address until its scope
    /// closes.
    pub fn from_raw(isolate: &mut Isolate, ptr: Address) -> (r: Option<Local>)
        requires
            old(isolate)@.can_lift(),
        ensures
            old(isolate)@.lifts(ptr, final(isolate)@, handle_of(r)),
    {
        proof {
            isolate@.lemma_lift(ptr);
        }
        if ptr.is_null() {
            None
        } else {
            Some(isolate.wrap(ptr))
        }
    }

    /// The handle to the cell at `slot`, owned by the scope numbered `scope`
    /// of the isolate at `isolate`.
    pub(crate) fn at(isolate: Address, scope: u64, slot: usize) -> (l: Local)
        ensures
            l@ == (Handle { isolate, scope, slot }),
    {
        Local { isolate, scope, slot }
    }

    /// The isolate this handle belongs to.
    pub fn isolate(&self) -> (a: Address)
        ensures
            a == self@.isolate,
    {
        self.isolate
    }

    /// The serial number of the scope that owns this handle.
    pub fn scope(&self) -> (id: u64)
        ensures
            id == self@.scope,
    {
        self.scope
    }

    /// The position of the cell this handle reads.
    pub fn slot(&self) -> (slot: usize)
        ensures
            slot == self@.slot,
    {
        self.slot
    }

    /// Whether two handles read the same cell under the same scope.
    pub fn same(&self, other: &Local) -> (b: bool)
        ensures
            b == (self@ == other@),
    {
        self.isolate.0 == other.isolate.0 && self.scope == other.scope && self.slot == other.slot
    }
}

/// Which pinned cell a [`Global`] or a [`Weak`] stands for.
pub struct PinId {
    /// The isolate that made the cell.
    pub isolate: Address,
    /// The position of the cell among the isolate's pinned cells.
    pub index: usize,
}

impl IsolateView {
    /// Whether `pin` names a pinned cell of this isolate of the given kind.
    pub open spec fn has_pin(self, pin: PinId, weak: bool) -> bool {
        &&& pin.isolate == self.address
        &&& pin.index < self.pins.len()
        &&& self.pins[pin.index as int].weak == weak
    }

    /// Whether `global` still holds its value: it names an owning cell of
    /// this isolate that was not released.
    pub open spec fn holds(self, global: PinId) -> bool {
        &&& self.has_pin(global, false)
        &&& self.filled(global.index as int)
    }

    /// Whether the referent of `weak` is still there: it names an observing
    /// cell of this isolate that the collector has not cleared.
    pub open spec fn observes(self, weak: PinId) -> bool {
        &&& self.has_pin(weak, true)
        &&& self.filled(weak.index as int)
    }

    /// What the pinned cell `pin` holds; null once it was released or
    /// cleared.
    pub open spec fn pinned(self, pin: PinId) -> Address {
        self.pins[pin.index as int].value
    }

    /// Whether a value can be pinned: the isolate is usable and a cell is
    /// left for it.
    pub open spec fn can_pin(self) -> bool {
        &&& self.usable()
        &&& self.pins.len() < usize::MAX
    }

    /// Pinning and emptying cells leaves the scope stack alone, and with it
    /// every local handle. A pinned cell keeps its position and its kind,
    /// and once it is empty it stays empty.
    pub proof fn lemma_pins_keep_handles(self, value: Address, weak: bool, index: int)
        ensures
            self.kept_in(self.pin(value, weak)),
            self.kept_in(self.unpin(index)),
            forall|i: int|
                #![trigger self.pin(value, weak).filled(i)]
                0 <= i < self.pins.len() ==> (self.pin(value, weak).filled(i) <==> self.filled(i)),
            forall|i: int|
                #![trigger self.unpin(index).filled(i)]
                0 <= index < self.pins.len() ==> (self.unpin(index).filled(i) <==> self.filled(i)
                    && i != index),
            forall|pin: PinId, kind: bool|
                #![trigger self.pin(value, weak).has_pin(pin, kind)]
                self.has_pin(pin, kind) ==> self.pin(value, weak).has_pin(pin, kind) && self.pin(
                    value,
                    weak,
                ).pinned(pin) == self.pinned(pin),
            forall|pin: PinId, kind: bool|
                #![trigger self.unpin(index).has_pin(pin, kind)]
                0 <= index < self.pins.len() ==> (self.unpin(index).has_pin(pin, kind)
                    <==> self.has_pin(pin, kind)),
            forall|pin: PinId|
                #![trigger self.unpin(index).pinned(pin)]
                0 <= index < self.pins.len() && pin.index < self.pins.len() && pin.index != index
                    ==> self.unpin(index).pinned(pin) == self.pinned(pin),
    {
    }
}

/// A handle whose lifetime is its own: it pins a value independently of the
/// scope stack, until it is released.
///
/// A `Global` is made by copying what a [`Local`] reads into a pinned cell.
/// It is released by [`Global::reset`], which spends it: a `Global` is
/// released once, and cannot be used afterwards.
#[derive(Debug)]
pub struct Global {
    isolate: Address,
    index: usize,
}

impl View for Global {
    type V = PinId;

    closed spec fn view(&self) -> PinId {
        PinId { isolate: self.isolate, index: self.index }
    }
}

impl Global {
    /// Whether a value can be pinned in `isolate` now.
    pub fn can_pin(isolate: &Isolate) -> (b: bool)
        requires
            isolate@.wf(),
        ensures
            b == isolate@.can_pin(),
    {
        !isolate.is_disposed() && isolate.pins_made() < usize::MAX
    }

    /// Pins what `local` reads. The new handle holds the value however the
    /// scope of `local` fares.
    pub fn new(isolate: &mut Isolate, local: Local) -> (global: Global)
        requires
            old(isolate)@.can_pin(),
            old(isolate)@.live(local@),
        ensures
            final(isolate)@ == old(isolate)@.pin(old(isolate)@.read(local@), false),
            final(isolate)@.usable(),
            global@ == (PinId {
                isolate: old(isolate)@.address,
                index: old(isolate)@.pins.len() as usize,
            }),
            final(isolate)@.holds(global@),
            final(isolate)@.pinned(global@) == old(isolate)@.read(local@),
            old(isolate)@.kept_in(final(isolate)@),
    {
        let value = isolate.read(&local);
        proof {
            isolate@.lemma_pins_keep_handles(value, false, 0);
        }
        let address = isolate.address();
        let index = isolate.add_pin(value, false);
        Global { isolate: address, index }
    }

    /// Whether this handle still holds its value in `isolate`.
    pub fn is_held(&self, isolate: &Isolate) -> (b: bool)
        ensures
            b == isolate@.holds(self@),
    {
        if isolate.is_disposed() || isolate.address().0 != self.isolate.0 || self.index
            >= isolate.pins_made() {
            return false;
        }
        let pin = isolate.pin_at(self.index);
        !pin.weak && !pin.value.is_null()
    }

    /// A new local handle, owned by the innermost scope, to the value that
    /// this handle holds.
    pub fn get(&self, isolate: &mut Isolate) -> (local: Local)
        requires
            old(isolate)@.can_lift(),
            old(isolate)@.holds(self@),
        ensures
            old(isolate)@.lifts(old(isolate)@.pinned(self@), final(isolate)@, Some(local@)),
            final(isolate)@.holds(self@),
    {
        let value = isolate.pin_at(self.index).value;
        isolate.lift(value)
    }

    /// Releases the value. The handle is spent.
    pub fn reset(self, isolate: &mut Isolate)
        requires
            old(isolate)@.usable(),
            old(isolate)@.holds(self@),
        ensures
            final(isolate)@ == old(isolate)@.unpin(self@.index as int),
            final(isolate)@.usable(),
            !final(isolate)@.holds(self@),
            final(isolate)@.pinned(self@).is_null(),
            old(isolate)@.kept_in(final(isolate)@),
    {
        proof {
            isolate@.lemma_pins_keep_handles(Address::null(), false, self@.index as int);
        }
        isolate.clear_pin(self.index);
    }
}

/// A handle that observes a value without keeping it: the collector clears
/// it when nothing else reaches the value any more.
///
/// A `Weak` may carry a finalizer, the address of a host routine that the
/// collector calls when it clears the handle. The finalizer runs inside the
/// collector: it must not allocate on the engine's heap and must not run
/// script. Nothing here can enforce that.
#[derive(Clone, Copy, PartialEq, Eq, Structural, Debug)]
pub struct Weak {
    isolate: Address,
    index: usize,
    finalizer: Address,
}

impl View for Weak {
    type V = PinId;

    closed spec fn view(&self) -> PinId {
        PinId { isolate: self.isolate, index: self.index }
    }
}

impl Weak {
    /// The finalizer that this handle carries, null if it carries none.
    pub closed spec fn finalizer_address(&self) -> Address {
        self.finalizer
    }

    /// Observes what `local` reads, with `finalizer` to be called when the
    /// collector clears the handle; a null `finalizer` means none.
    pub fn new(isolate: &mut Isolate, local: Local, finalizer: Address) -> (weak: Weak)
        requires
            old(isolate)@.can_pin(),
            old(isolate)@.live(local@),
        ensures
            final(isolate)@ == old(isolate)@.pin(old(isolate)@.read(local@), true),
            final(isolate)@.usable(),
            weak@ == (PinId {
                isolate: old(isolate)@.address,
                index: old(isolate)@.pins.len() as usize,
            }),
            weak.finalizer_address() == finalizer,
            final(isolate)@.observes(weak@),
            final(isolate)@.pinned(weak@) == old(isolate)@.read(local@),
            old(isolate)@.kept_in(final(isolate)@),
    {
        let value = isolate.read(&local);
        proof {
            isolate@.lemma_pins_keep_handles(value, true, 0);
        }
        let address = isolate.address();
        let index = isolate.add_pin(value, true);
        Weak { isolate: address, index, finalizer }
    }

    /// The finalizer that this handle carries, if it carries one.
    pub fn finalizer(&self) -> (r: Option<Address>)
        ensures
            r == if self.finalizer_address().is_null() {
                None
            } else {
                Some(self.finalizer_address())
            },
    {
        if self.finalizer.is_null() {
            None
        } else {
            Some(self.finalizer)
        }
    }

    /// Whether the collector has cleared this handle, or the handle is none
    /// of `isolate`.
    pub fn is_empty(&self, isolate: &Isolate) -> (b: bool)
        ensures
            b == !isolate@.observes(self@),
    {
        if isolate.is_disposed() || isolate.address().0 != self.isolate.0 || self.index
            >= isolate.pins_made() {
            return true;
        }
        let pin = isolate.pin_at(self.index);
        !pin.weak || pin.value.is_null()
    }

    /// A new local handle, owned by the innermost scope, to the value that
    /// this handle observes; none, and no change, if the collector has
    /// cleared the handle.
    pub fn to_local(&self, isolate: &mut Isolate) -> (r: Option<Local>)
        requires
            old(isolate)@.can_lift(),
        ensures
            r is Some <==> old(isolate)@.observes(self@),
            old(isolate)@.lifts(
                if old(isolate)@.observes(self@) {
                    old(isolate)@.pinned(self@)
                } else {
                    Address::null()
                },
                final(isolate)@,
                handle_of(r),
            ),
    {
        if self.is_empty(isolate) {
            proof {
                isolate@.lemma_lift(Address::null());
            }
            None
        } else {
            let value = isolate.pin_at(self.index).value;
            Local::from_raw(isolate, value)
        }
    }

    /// Takes note that the collector found the value unreachable and
    /// cleared this handle. Yields the finalizer that the collector is to
    /// call, if the handle carries one.
    pub fn collected(&self, isolate: &mut Isolate) -> (r: Option<Address>)
        requires
            old(isolate)@.usable(),
            old(isolate)@.observes(self@),
        ensures
            final(isolate)@ == old(isolate)@.unpin(self@.index as int),
            final(isolate)@.usable(),
            !final(isolate)@.observes(self@),
            r == if self.finalizer_address().is_null() {
                None
            } else {
                Some(self.finalizer_address())
            },
            old(isolate)@.kept_in(final(isolate)@),
    {
        proof {
            isolate@.lemma_pins_keep_handles(Address::null(), true, self@.index as int);
        }
        isolate.clear_pin(self.index);
        self.finalizer()
    }
}

} // verus!
