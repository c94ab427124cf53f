//! A holder that is filled at most once.

use vstd::prelude::*;

verus! {

/// What an attempt to fill a slot gave.
#[derive(Clone, Copy, Debug, PartialEq, Eq, Structural)]
pub enum SlotClaim {
    /// The slot was empty and now holds the resource that the factory made.
    Acquired,
    /// The slot was filled before. Nothing was made and nothing changed.
    Busy,
}

/// Working memory of one network stack: room for a fixed number of sockets.
#[derive(Clone, Copy, Debug, PartialEq, Eq, Structural)]
pub struct StackMemory {
    pub sockets: usize,
}

/// A holder for a resource that is made once and then stays for good.
///
/// The slot starts empty. The first `try_init_with` fills it; every later one
/// reports `Busy` and leaves the resource as it is. Nothing ever empties it.
pub struct ResourceSlot<T> {
    cell: Option<T>,
}

impl<T> ResourceSlot<T> {
    /// The resource that the slot holds, if it was filled.
    pub closed spec fn resource(&self) -> Option<T> {
        self.cell
    }

    /// Whether the slot was filled.
    pub open spec fn is_initialized(&self) -> bool {
        self.resource().is_some()
    }

    /// An empty slot.
    pub fn new() -> (slot: Self)
        ensures
            slot.resource() == None::<T>,
    {
        ResourceSlot { cell: None }
    }

    /// Fills the slot with what `factory` makes, if the slot is empty.
    ///
    /// On a filled slot the factory is not run, the slot is unchanged and the
    /// claim is `Busy`.
    pub fn try_init_with<F: FnOnce() -> T>(&mut self, factory: F) -> (claim: SlotClaim)
        requires
            call_requires(factory, ()),
        ensures
            old(self).is_initialized() ==> claim == SlotClaim::Busy,
            old(self).is_initialized() ==> final(self).resource() == old(self).resource(),
            !old(self).is_initialized() ==> claim == SlotClaim::Acquired,
            !old(self).is_initialized() ==> final(self).is_initialized(),
            !old(self).is_initialized() ==> call_ensures(
                factory,
                (),
                final(self).resource().unwrap(),
            ),
    {
        if self.cell.is_some() {
            SlotClaim::Busy
        } else {
            self.cell = Some(factory());
            SlotClaim::Acquired
        }
    }

    /// Whether the slot was filled.
    pub fn initialized(&self) -> (filled: bool)
        ensures
            filled == self.is_initialized(),
    {
        self.cell.is_some()
    }

    /// The resource, once the slot was filled.
    pub fn get(&self) -> (resource: Option<&T>)
        ensures
            resource.is_some() == self.is_initialized(),
            resource matches Some(r) ==> Some(*r) == self.resource(),
    {
        self.cell.as_ref()
    }
}

} // verus!
