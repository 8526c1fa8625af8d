use vstd::prelude::*;

verus! {

/// A slot that is either empty or set. It is written at most once: once set,
/// it never becomes empty again and its value never changes.
///
/// The view of a cell is `None` while it is empty and `Some(v)` once the
/// value `v` has been stored.
pub struct SingleAssignmentCell<T> {
    value: Option<T>,
}

impl<T> View for SingleAssignmentCell<T> {
    type V = Option<T>;

    closed spec fn view(&self) -> Option<T> {
        self.value
    }
}

impl<T> SingleAssignmentCell<T> {
    /// Creates an empty cell.
    pub fn empty() -> (c: Self)
        ensures
            c@ is None,
    {
        SingleAssignmentCell { value: None }
    }

    /// Stores `v` if the cell is still empty and reports whether this call
    /// won the assignment. A cell that is already set is left untouched, so
    /// at most one call on a given cell ever returns `true`.
    pub fn try_set(&mut self, v: T) -> (won: bool)
        ensures
            won == (old(self)@ is None),
            final(self)@ == (if old(self)@ is None {
                Some(v)
            } else {
                old(self)@
            }),
    {
        if self.value.is_some() {
            false
        } else {
            self.value = Some(v);
            true
        }
    }

    /// Reports whether the cell has been set.
    pub fn is_set(&self) -> (r: bool)
        ensures
            r == (self@ is Some),
    {
        self.value.is_some()
    }

    /// Returns a reference to the stored value if the cell is set, and
    /// nothing if it is still empty.
    pub fn get(&self) -> (r: Option<&T>)
        ensures
            (r is Some) == (self@ is Some),
            (r matches Some(v) ==> self@ == Some(*v)),
    {
        match &self.value {
            Some(v) => Some(v),
            None => None,
        }
    }
}

} // verus!
