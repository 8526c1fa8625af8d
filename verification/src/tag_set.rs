use vstd::prelude::*;

verus! {

use crate::cell::SingleAssignmentCell;

/// The closed universe of tags that a [`TagSet`] tracks, in declaration
/// order. The universe is fixed: every tag has exactly one slot in the set,
/// and enumeration lists the inserted tags in this order.
#[derive(Clone, Copy, Debug, PartialEq, Eq, Structural)]
pub enum Tag {
    Customer,
    Employee,
}

/// The position of a tag in the universe's declaration order.
pub open spec fn universe_index(t: Tag) -> int {
    match t {
        Tag::Customer => 0,
        Tag::Employee => 1,
    }
}

/// The failure that a strict insertion reports when the tag is already
/// present. A duplicate insertion is an expected, recoverable event, never a
/// sign of corruption: the set is left exactly as it was.
#[derive(Clone, Copy, Debug, PartialEq, Eq, Structural)]
pub struct DuplicateInsertion;

impl DuplicateInsertion {
    /// A short description of the failure.
    pub fn message(&self) -> (m: &'static str)
        ensures
            m@ == "Already set"@,
    {
        "Already set"
    }
}

/// An insertion of `t` into a set whose contents are `s` wins exactly when
/// `t` is not yet present.
pub open spec fn insert_wins(s: Set<Tag>, t: Tag) -> bool {
    !s.contains(t)
}

/// The snapshot that enumerating a set with contents `s` yields: each present
/// tag exactly once, in the universe's declaration order.
pub open spec fn iterate_spec(s: Set<Tag>) -> Seq<Tag> {
    (if s.contains(Tag::Customer) {
        seq![Tag::Customer]
    } else {
        Seq::<Tag>::empty()
    }) + (if s.contains(Tag::Employee) {
        seq![Tag::Employee]
    } else {
        Seq::<Tag>::empty()
    })
}

/// A write-once set over the `Tag` universe: one single-assignment cell per
/// tag records whether that tag has ever been inserted. Tags can only be
/// added, never removed, and each tag is inserted at most once.
///
/// The view of a set is the mathematical set of tags whose cell is set.
pub struct TagSet {
    customer: SingleAssignmentCell<bool>,
    employee: SingleAssignmentCell<bool>,
}

impl View for TagSet {
    type V = Set<Tag>;

    closed spec fn view(&self) -> Set<Tag> {
        Set::new(|t: Tag| self.spec_cell(t)@ is Some)
    }
}

impl TagSet {
    /// The cell that backs `t`.
    spec fn spec_cell(&self, t: Tag) -> SingleAssignmentCell<bool> {
        match t {
            Tag::Customer => self.customer,
            Tag::Employee => self.employee,
        }
    }

    /// Creates a set with every tag absent.
    pub fn new() -> (s: Self)
        ensures
            s@ =~= Set::<Tag>::empty(),
    {
        TagSet { customer: SingleAssignmentCell::empty(), employee: SingleAssignmentCell::empty() }
    }

    /// Lenient insertion: records `t` and reports whether this call was the
    /// first to insert it. A repeated insertion returns `false` and changes
    /// nothing.
    pub fn insert(&mut self, t: Tag) -> (won: bool)
        ensures
            won == insert_wins(old(self)@, t),
            final(self)@ =~= old(self)@.insert(t),
    {
        match t {
            Tag::Customer => self.customer.try_set(true),
            Tag::Employee => self.employee.try_set(true),
        }
    }

    /// Strict insertion: succeeds exactly on the first insertion of `t`. A
    /// repeated insertion reports [`DuplicateInsertion`] and changes nothing.
    pub fn insert_strict(&mut self, t: Tag) -> (r: Result<(), DuplicateInsertion>)
        ensures
            (r is Ok) == insert_wins(old(self)@, t),
            final(self)@ =~= old(self)@.insert(t),
    {
        if self.insert(t) {
            Ok(())
        } else {
            Err(DuplicateInsertion)
        }
    }

    /// Reports whether `t` has been inserted. Never mutates the set.
    pub fn contains(&self, t: Tag) -> (r: bool)
        ensures
            r == self@.contains(t),
    {
        match t {
            Tag::Customer => self.customer.is_set(),
            Tag::Employee => self.employee.is_set(),
        }
    }

    /// A snapshot of the inserted tags, in the universe's declaration order
    /// (not insertion order). Each call recomputes the snapshot from scratch.
    pub fn iter(&self) -> (r: Vec<Tag>)
        ensures
            r@ == iterate_spec(self@),
    {
        let mut variants: Vec<Tag> = Vec::new();
        if self.customer.is_set() {
            variants.push(Tag::Customer);
        }
        if self.employee.is_set() {
            variants.push(Tag::Employee);
        }
        proof {
            assert(variants@ =~= iterate_spec(self@));
        }
        variants
    }
}

} // verus!
