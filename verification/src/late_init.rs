use vstd::prelude::*;

verus! {

/// A slot that starts out empty and is filled exactly once, later than the
/// place where it is declared.
pub struct LateInit<T> {
    slot: Option<T>,
}

impl<T> View for LateInit<T> {
    type V = Option<T>;

    closed spec fn view(&self) -> Option<T> {
        self.slot
    }
}

impl<T> LateInit<T> {
    /// The value that an initialized slot holds.
    pub open spec fn stored(&self) -> T
        recommends
            self@ is Some,
    {
        self@->0
    }

    /// An empty slot.
    pub fn new() -> (cell: Self)
        ensures
            cell@ is None,
    {
        LateInit { slot: None }
    }

    /// Whether `init` has been called on this slot.
    pub fn is_initialized(&self) -> (b: bool)
        ensures
            b == self@ is Some,
    {
        self.slot.is_some()
    }

    /// Fills the slot. A slot is filled only once.
    pub fn init(&mut self, value: T)
        requires
            old(self)@ is None,
        ensures
            final(self)@ == Some(value),
    {
        self.slot = Some(value);
    }

    /// The value the slot was filled with.
    pub fn deref(&self) -> (value: &T)
        requires
            self@ is Some,
        ensures
            *value == self.stored(),
    {
        match &self.slot {
            Some(value) => value,
            None => {
                proof {
                    assert(false);
                }
                unreached()
            },
        }
    }
}

/// What `deref` hands back after `init(value)` on an empty slot is `value`:
/// `init` leaves the slot at `Some(value)`, and `deref` returns what the slot
/// stores.
pub proof fn lemma_deref_after_init<T>(after: LateInit<T>, value: T)
    requires
        after@ == Some(value),
    ensures
        after@ is Some,
        after.stored() == value,
{
}

} // verus!
