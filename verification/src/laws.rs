use vstd::prelude::*;

verus! {

use crate::tag_set::{Tag, insert_wins, iterate_spec, universe_index};

/// The contents of a set after a batch of insertions, applied first to last
/// to a set whose contents are `s`.
pub open spec fn run_inserts(s: Set<Tag>, ops: Seq<Tag>) -> Set<Tag>
    decreases ops.len(),
{
    if ops.len() == 0 {
        s
    } else {
        run_inserts(s.insert(ops[0]), ops.subrange(1, ops.len() as int))
    }
}

/// How many insertions of `t` in the batch `ops` win, when the batch is
/// applied first to last to a set whose contents are `s`.
pub open spec fn wins_for(s: Set<Tag>, ops: Seq<Tag>, t: Tag) -> int
    decreases ops.len(),
{
    if ops.len() == 0 {
        0
    } else {
        (if ops[0] == t && insert_wins(s, t) {
            1int
        } else {
            0int
        }) + wins_for(s.insert(ops[0]), ops.subrange(1, ops.len() as int), t)
    }
}

/// A batch of `n` insertions of the same tag.
pub open spec fn repeated(t: Tag, n: nat) -> Seq<Tag> {
    Seq::new(n, |i: int| t)
}

/// Mutual exclusion among insertions of one tag: however a batch of
/// insertions is ordered, among the insertions of tag `t` exactly one wins
/// when `t` was absent and occurs in the batch, and none wins otherwise;
/// afterwards `t` is present exactly when it was present before or was
/// inserted by the batch. In particular a present tag never becomes absent.
pub proof fn lemma_mutual_exclusion(s: Set<Tag>, ops: Seq<Tag>, t: Tag)
    ensures
        wins_for(s, ops, t) == (if !s.contains(t) && ops.contains(t) {
            1int
        } else {
            0int
        }),
        run_inserts(s, ops).contains(t) <==> (s.contains(t) || ops.contains(t)),
    decreases ops.len(),
{
    if ops.len() == 0 {
        assert(!ops.contains(t));
    } else {
        let rest = ops.subrange(1, ops.len() as int);
        lemma_mutual_exclusion(s.insert(ops[0]), rest, t);
        assert(ops.contains(t) <==> (ops[0] == t || rest.contains(t))) by {
            if ops.contains(t) {
                let i: int = choose|i: int| 0 <= i < ops.len() && ops[i] == t;
                if i > 0 {
                    assert(rest[i - 1] == t);
                }
            }
            if rest.contains(t) {
                let j: int = choose|j: int| 0 <= j < rest.len() && rest[j] == t;
                assert(ops[j + 1] == t);
            }
        }
    }
}

/// Idempotent winner: inserting `t` any positive number of times into a set
/// that lacks `t` succeeds exactly once — on the first call — and every later
/// call reports a duplicate; afterwards `t` is present.
pub proof fn lemma_idempotent_winner(s: Set<Tag>, t: Tag, n: nat)
    requires
        !s.contains(t),
        n >= 1,
    ensures
        insert_wins(s, t),
        wins_for(s, repeated(t, n), t) == 1,
        run_inserts(s, repeated(t, n)).contains(t),
{
    assert(repeated(t, n)[0] == t);
    assert(repeated(t, n).contains(t));
    lemma_mutual_exclusion(s, repeated(t, n), t);
}

/// Independence: inserting one tag never affects whether a different tag is
/// present.
pub proof fn lemma_independence(s: Set<Tag>, a: Tag, b: Tag)
    requires
        b != a,
    ensures
        s.insert(a).contains(b) == s.contains(b),
{
}

/// Iteration completeness: enumerating a set yields exactly the present tags,
/// with no duplicates, in strictly increasing declaration order.
pub proof fn lemma_iteration_complete(s: Set<Tag>)
    ensures
        forall|t: Tag| #[trigger] iterate_spec(s).contains(t) <==> s.contains(t),
        iterate_spec(s).no_duplicates(),
        forall|i: int, j: int|
            0 <= i < j < iterate_spec(s).len() ==> universe_index(iterate_spec(s)[i])
                < universe_index(iterate_spec(s)[j]),
{
    let r = iterate_spec(s);
    if s.contains(Tag::Customer) {
        assert(r[0] == Tag::Customer);
        assert(r.contains(Tag::Customer));
        if s.contains(Tag::Employee) {
            assert(r[1] == Tag::Employee);
            assert(r.contains(Tag::Employee));
        }
    } else {
        if s.contains(Tag::Employee) {
            assert(r[0] == Tag::Employee);
            assert(r.contains(Tag::Employee));
        }
    }
    assert forall|t: Tag| #[trigger] r.contains(t) implies s.contains(t) by {
        let i: int = choose|i: int| 0 <= i < r.len() && r[i] == t;
    }
}

/// Empty-set behaviour: a set with nothing inserted holds no tag and
/// enumerates to the empty sequence.
pub proof fn lemma_empty_set()
    ensures
        forall|t: Tag| !Set::<Tag>::empty().contains(t),
        iterate_spec(Set::<Tag>::empty()) =~= Seq::<Tag>::empty(),
{
}

} // verus!
