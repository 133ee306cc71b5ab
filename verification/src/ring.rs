//! Bounded buffers that drop their oldest entry to make room for a new one.

use vstd::prelude::*;

verus! {

/// A buffer after one more entry: a full one loses its oldest first.
pub open spec fn ring_pushed<T>(ring: Seq<T>, x: T, cap: nat) -> Seq<T> {
    if ring.len() >= cap {
        ring.drop_first().push(x)
    } else {
        ring.push(x)
    }
}

/// A buffer after several more entries, pushed one by one.
pub open spec fn ring_extended<T>(ring: Seq<T>, xs: Seq<T>, cap: nat) -> Seq<T>
    decreases xs.len(),
{
    if xs.len() == 0 {
        ring
    } else {
        ring_pushed(ring_extended(ring, xs.drop_last(), cap), xs.last(), cap)
    }
}

/// The last `n` entries, or all of them where there are fewer.
pub open spec fn newest<T>(xs: Seq<T>, n: nat) -> Seq<T> {
    if xs.len() <= n {
        xs
    } else {
        xs.skip(xs.len() - n)
    }
}

/// Appends `x`, dropping the oldest entry of a full buffer.
pub fn push_ring<T>(v: &mut Vec<T>, x: T, cap: usize)
    requires
        cap > 0,
    ensures
        final(v)@ == ring_pushed(old(v)@, x, cap as nat),
{
    if v.len() >= cap {
        v.remove(0);
        assert(v@ =~= old(v)@.drop_first());
    }
    v.push(x);
}

/// However many entries are pushed, the buffer holds the newest ones in order,
/// at most `cap` of them.
pub proof fn law_ring_keeps_the_newest<T>(ring: Seq<T>, xs: Seq<T>, cap: nat)
    requires
        cap > 0,
        ring.len() <= cap,
    ensures
        ring_extended(ring, xs, cap) == newest(ring + xs, cap),
        ring_extended(ring, xs, cap).len() <= cap,
    decreases xs.len(),
{
    if xs.len() == 0 {
        assert(ring + xs =~= ring);
    } else {
        law_ring_keeps_the_newest(ring, xs.drop_last(), cap);
        assert(ring + xs =~= (ring + xs.drop_last()).push(xs.last()));
        assert(ring_extended(ring, xs, cap) =~= newest(ring + xs, cap));
    }
}

/// Pushing two batches one after the other is pushing them as one.
pub proof fn law_ring_batches_join<T>(ring: Seq<T>, xs: Seq<T>, ys: Seq<T>, cap: nat)
    ensures
        ring_extended(ring, xs + ys, cap) == ring_extended(ring_extended(ring, xs, cap), ys, cap),
    decreases ys.len(),
{
    if ys.len() == 0 {
        assert(xs + ys =~= xs);
    } else {
        law_ring_batches_join(ring, xs, ys.drop_last(), cap);
        assert((xs + ys).drop_last() =~= xs + ys.drop_last());
        assert((xs + ys).last() == ys.last());
    }
}

/// A push makes its entry the last one. Without room it drops the oldest entry
/// and nothing else; with room it drops nothing.
pub proof fn law_a_push_drops_only_the_oldest<T>(v: &mut Vec<T>, x: T, cap: usize)
    requires
        call_ensures(push_ring::<T>, (v, x, cap), ()),
        cap > 0,
    ensures
        old(v)@.len() < cap ==> {
            &&& final(v)@.len() == old(v)@.len() + 1
            &&& forall|i: int| 0 <= i < old(v)@.len() ==> #[trigger] final(v)@[i] == old(v)@[i]
        },
        old(v)@.len() >= cap ==> {
            &&& final(v)@.len() == old(v)@.len()
            &&& forall|i: int|
                0 <= i < old(v)@.len() - 1 ==> #[trigger] final(v)@[i] == old(v)@[i + 1]
        },
        final(v)@.last() == x,
{
}

} // verus!
