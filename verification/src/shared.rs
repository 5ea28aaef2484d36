//! The exclusively-borrowable holder of the inner factory (or service) and
//! the transform closure.
//!
//! Adapters and in-flight constructions share driver-owned data — the inner
//! factory or service paired with the transform — through a registry of
//! slots. A slot is either occupied (no access outstanding) or empty (one
//! party holds exclusive ownership of the payload). Taking an empty slot is
//! a detectable fault, never a silent interleaving, and it leaves the
//! registry unchanged.

use vstd::prelude::*;

verus! {

/// The fault produced when exclusive access to a slot is requested while
/// another access is outstanding.
#[derive(Clone, Copy, Debug, PartialEq, Eq)]
pub struct AccessFault;

/// A registry of exclusively-borrowable slots, each addressed by the handle
/// under which it was registered.
///
/// The registry is viewed as a sequence of `Option` payloads: `Some` means
/// the slot is occupied, `None` means its payload is held elsewhere.
pub struct SharedState<P> {
    slots: Vec<Option<P>>,
}

impl<P> View for SharedState<P> {
    type V = Seq<Option<P>>;

    closed spec fn view(&self) -> Seq<Option<P>> {
        self.slots@
    }
}

impl<P> SharedState<P> {
    /// Creates a registry with no slots.
    pub fn new() -> (r: SharedState<P>)
        ensures
            r@ == Seq::<Option<P>>::empty(),
    {
        SharedState { slots: Vec::new() }
    }

    /// The number of registered slots.
    pub fn len(&self) -> (n: usize)
        ensures
            n == self@.len(),
    {
        self.slots.len()
    }

    /// Whether slot `h` currently holds its payload, that is, whether no
    /// exclusive access to it is outstanding.
    pub fn is_occupied(&self, h: usize) -> (b: bool)
        requires
            h < self@.len(),
        ensures
            b == (self@[h as int] is Some),
    {
        self.slots[h].is_some()
    }

    /// Registers a payload in a fresh slot and returns the slot's handle.
    pub fn register(&mut self, payload: P) -> (h: usize)
        ensures
            final(self)@ == old(self)@.push(Some(payload)),
            h == old(self)@.len(),
    {
        let h = self.slots.len();
        self.slots.push(Some(payload));
        h
    }

    /// Takes exclusive ownership of the payload in slot `h`.
    ///
    /// If the slot is occupied, the payload is moved out and the slot is left
    /// empty until [`SharedState::release`] returns it. If the payload is
    /// already held elsewhere, the call fails fast and the registry is left
    /// exactly as it was.
    pub fn try_acquire(&mut self, h: usize) -> (r: Result<P, AccessFault>)
        requires
            h < old(self)@.len(),
        ensures
            match r {
                Result::Ok(p) => old(self)@[h as int] == Some(p)
                    && final(self)@ == old(self)@.update(h as int, None::<P>),
                Result::Err(_) => old(self)@[h as int] is None
                    && final(self)@ == old(self)@,
            },
    {
        let slot = &mut self.slots[h];
        let taken = slot.take();
        match taken {
            Some(p) => Ok(p),
            None => {
                proof {
                    assert(self@ =~= old(self)@);
                }
                Err(AccessFault)
            },
        }
    }

    /// Returns a payload to slot `h`, ending the outstanding exclusive
    /// access.
    pub fn release(&mut self, h: usize, payload: P)
        requires
            h < old(self)@.len(),
            old(self)@[h as int] is None,
        ensures
            final(self)@ == old(self)@.update(h as int, Some(payload)),
    {
        let slot = &mut self.slots[h];
        *slot = Some(payload);
    }
}

} // verus!
