//! The list that the authors and keywords editors build, as mathematics.
//!
//! Both editors keep an ordered list of accepted items, each known by a key:
//! an author by the identifier, a keyword by its text. An item is added at
//! the end unless its key is there already, an item is removed by its place,
//! and the list is emptied as a whole. The list is never sorted.

use vstd::prelude::*;

verus! {

/// One change to the list of accepted keys.
pub enum Op<K> {
    /// Add the key at the end, unless it is there already.
    Push(K),
    /// Take out the key at this place.
    Remove(int),
    /// Empty the list.
    Reset,
}

/// Whether `op` can be made on `keys`: a removal names a place in the list.
pub open spec fn allowed<K>(keys: Seq<K>, op: Op<K>) -> bool {
    op matches Op::Remove(i) ==> 0 <= i < keys.len()
}

/// The list after one change. A removal that names no place in the list is
/// never made; here it leaves the list as it is.
pub open spec fn apply<K>(keys: Seq<K>, op: Op<K>) -> Seq<K> {
    match op {
        Op::Push(k) => if keys.contains(k) {
            keys
        } else {
            keys.push(k)
        },
        Op::Remove(i) => if 0 <= i < keys.len() {
            keys.remove(i)
        } else {
            keys
        },
        Op::Reset => Seq::empty(),
    }
}

/// The list after a run of changes, first to last.
pub open spec fn run<K>(keys: Seq<K>, ops: Seq<Op<K>>) -> Seq<K>
    decreases ops.len(),
{
    if ops.len() == 0 {
        keys
    } else {
        run(apply(keys, ops[0]), ops.drop_first())
    }
}

/// Whether each change of a run can be made when its turn comes.
pub open spec fn all_allowed<K>(keys: Seq<K>, ops: Seq<Op<K>>) -> bool
    decreases ops.len(),
{
    ops.len() == 0 || (allowed(keys, ops[0]) && all_allowed(
        apply(keys, ops[0]),
        ops.drop_first(),
    ))
}

/// No change puts a key into the list twice.
pub proof fn lemma_apply_keeps_unique<K>(keys: Seq<K>, op: Op<K>)
    requires
        keys.no_duplicates(),
    ensures
        apply(keys, op).no_duplicates(),
{
    match op {
        Op::Push(k) => {
            if !keys.contains(k) {
                let after = keys.push(k);
                assert forall|i: int, j: int|
                    0 <= i < after.len() && 0 <= j < after.len() && i != j implies after[i]
                    != after[j] by {
                    if i < keys.len() && j < keys.len() {
                    } else if i < keys.len() {
                        assert(keys.contains(keys[i]));
                    } else {
                        assert(keys.contains(keys[j]));
                    }
                }
            }
        },
        Op::Remove(i) => {
            if 0 <= i < keys.len() {
                let after = keys.remove(i);
                assert forall|a: int, b: int|
                    0 <= a < after.len() && 0 <= b < after.len() && a != b implies after[a]
                    != after[b] by {
                    let a0 = if a < i {
                        a
                    } else {
                        a + 1
                    };
                    let b0 = if b < i {
                        b
                    } else {
                        b + 1
                    };
                    assert(after[a] == keys[a0]);
                    assert(after[b] == keys[b0]);
                }
            }
        },
        Op::Reset => {},
    }
}

/// Starting from a list without repeats, and so from the empty list, no run
/// of additions, removals and resets ever gives a list that holds a key
/// twice.
pub proof fn lemma_run_keeps_unique<K>(keys: Seq<K>, ops: Seq<Op<K>>)
    requires
        keys.no_duplicates(),
    ensures
        run(keys, ops).no_duplicates(),
    decreases ops.len(),
{
    if ops.len() > 0 {
        lemma_apply_keeps_unique(keys, ops[0]);
        lemma_run_keeps_unique(apply(keys, ops[0]), ops.drop_first());
    }
}

/// Keys stay in the order in which they were added: an addition goes to the
/// end, and a removal closes the gap without moving anything else.
pub proof fn lemma_order_is_kept<K>(keys: Seq<K>, op: Op<K>)
    requires
        allowed(keys, op),
    ensures
        match op {
            Op::Push(k) => apply(keys, op) == if keys.contains(k) {
                keys
            } else {
                keys + seq![k]
            },
            Op::Remove(i) => apply(keys, op) == keys.take(i) + keys.skip(i + 1),
            Op::Reset => apply(keys, op).len() == 0,
        },
{
    match op {
        Op::Push(k) => {
            assert(keys.push(k) =~= keys + seq![k]);
        },
        Op::Remove(i) => {
            assert(keys.remove(i) =~= keys.take(i) + keys.skip(i + 1));
        },
        Op::Reset => {},
    }
}

/// After a reset there is nothing left to remove: a run of removals that can
/// each be made on the empty list is the empty run, and the list stays
/// empty.
pub proof fn lemma_nothing_to_remove_after_reset<K>(keys: Seq<K>, ops: Seq<Op<K>>)
    requires
        forall|n: int| 0 <= n < ops.len() ==> #[trigger] ops[n] is Remove,
        all_allowed(apply(keys, Op::Reset), ops),
    ensures
        ops.len() == 0,
        run(apply(keys, Op::Reset), ops) == Seq::<K>::empty(),
{
    if ops.len() > 0 {
        assert(ops[0] is Remove);
        assert(allowed(apply(keys, Op::Reset), ops[0]));
    }
}

/// Emptying an empty list, and removing nothing from it, leaves it empty.
pub proof fn lemma_reset_is_idempotent<K>(keys: Seq<K>)
    ensures
        apply(apply(keys, Op::Reset), Op::Reset) == apply(keys, Op::<K>::Reset),
        apply(keys, Op::<K>::Reset).len() == 0,
{
}

} // verus!
