//! Facts about sequences of renderer calls, stated over the same spec
//! functions that the calls' own contracts use.
use vstd::prelude::*;

use crate::graphics::{
    count_after_load, drawn, quad_vertices, slot_for_load, QuadRecord, Vertex2D, MAX_TEXTURES,
};

verus! {

/// The vertices of a sequence of quads: each quad's four, in order.
pub open spec fn batch_vertices(qs: Seq<QuadRecord>) -> Seq<Vertex2D>
    decreases qs.len(),
{
    if qs.len() == 0 {
        seq![]
    } else {
        batch_vertices(qs.drop_last()) + quad_vertices(qs.last())
    }
}

/// Vertex list and quad counter after `begin` followed by one draw call for
/// each element of `qs`, in order, on a renderer of the given capacity.
pub open spec fn frame_after(capacity: nat, qs: Seq<QuadRecord>) -> (Seq<Vertex2D>, nat)
    decreases qs.len(),
{
    if qs.len() == 0 {
        (seq![], 0)
    } else {
        let prev = frame_after(capacity, qs.drop_last());
        drawn(prev.0, prev.1, capacity, qs.last())
    }
}

pub open spec fn min_nat(a: nat, b: nat) -> nat {
    if a <= b {
        a
    } else {
        b
    }
}

/// `batch_vertices` holds four vertices per quad, quad `k` at `4k..4k+4`.
pub proof fn lemma_batch_layout(qs: Seq<QuadRecord>)
    ensures
        batch_vertices(qs).len() == 4 * qs.len(),
        forall|k: int|
            0 <= k < qs.len() ==> batch_vertices(qs).subrange(4 * k, 4 * k + 4) == quad_vertices(
                #[trigger] qs[k],
            ),
    decreases qs.len(),
{
    if qs.len() > 0 {
        let prev = qs.drop_last();
        lemma_batch_layout(prev);
        let b = batch_vertices(qs);
        assert(b == batch_vertices(prev) + quad_vertices(qs.last()));
        assert forall|k: int| 0 <= k < qs.len() implies b.subrange(4 * k, 4 * k + 4)
            == quad_vertices(#[trigger] qs[k]) by {
            if k < qs.len() - 1 {
                assert(prev[k] == qs[k]);
                assert(b.subrange(4 * k, 4 * k + 4) =~= batch_vertices(prev).subrange(
                    4 * k,
                    4 * k + 4,
                ));
            } else {
                assert(b.subrange(4 * k, 4 * k + 4) =~= quad_vertices(qs.last()));
            }
        }
    }
}

/// Whatever the number of draw calls, the frame keeps the quads of the first
/// `capacity` of them, in call order, and drops the rest.
pub proof fn lemma_frame_keeps_first_quads(capacity: nat, qs: Seq<QuadRecord>)
    ensures
        frame_after(capacity, qs) == (
            batch_vertices(qs.take(min_nat(qs.len(), capacity) as int)),
            min_nat(qs.len(), capacity),
        ),
        frame_after(capacity, qs).1 <= capacity,
    decreases qs.len(),
{
    if qs.len() > 0 {
        let prev = qs.drop_last();
        lemma_frame_keeps_first_quads(capacity, prev);
        if prev.len() < capacity {
            assert(qs.take(qs.len() as int) =~= qs);
            assert(prev.take(prev.len() as int) =~= prev);
        } else {
            assert(qs.take(capacity as int) =~= prev.take(capacity as int));
        }
    }
}

/// Up to capacity, the frame holds exactly four vertices per draw call, in
/// call order, each quad's vertices being its own corners with texture
/// coordinates (1,0), (1,1), (0,1), (0,0); the counter equals the number of
/// calls.
pub proof fn lemma_draws_within_capacity(capacity: nat, qs: Seq<QuadRecord>)
    requires
        qs.len() <= capacity,
    ensures
        frame_after(capacity, qs).0 == batch_vertices(qs),
        frame_after(capacity, qs).1 == qs.len(),
        frame_after(capacity, qs).0.len() == 4 * qs.len(),
        forall|k: int|
            0 <= k < qs.len() ==> frame_after(capacity, qs).0.subrange(4 * k, 4 * k + 4)
                == quad_vertices(#[trigger] qs[k]),
{
    lemma_frame_keeps_first_quads(capacity, qs);
    assert(qs.take(qs.len() as int) =~= qs);
    lemma_batch_layout(qs);
}

/// Past capacity, the extra draw calls change nothing: the frame holds the
/// first `capacity` quads, `4 * capacity` vertices, and the counter stops at
/// capacity.
pub proof fn lemma_draws_past_capacity(capacity: nat, qs: Seq<QuadRecord>)
    requires
        qs.len() > capacity,
    ensures
        frame_after(capacity, qs) == frame_after(capacity, qs.take(capacity as int)),
        frame_after(capacity, qs).0.len() == 4 * capacity,
        frame_after(capacity, qs).1 == capacity,
{
    let first = qs.take(capacity as int);
    lemma_frame_keeps_first_quads(capacity, qs);
    lemma_draws_within_capacity(capacity, first);
    assert(first.take(capacity as int) =~= first);
}

/// The slot ids returned by `n` texture loads in a row, starting with
/// `count` slots in use.
pub open spec fn slots_loaded(count: nat, n: nat) -> Seq<nat>
    decreases n,
{
    if n == 0 {
        seq![]
    } else {
        seq![slot_for_load(count)] + slots_loaded(count_after_load(count), (n - 1) as nat)
    }
}

/// Slots in use after `n` texture loads in a row, starting with `count`.
pub open spec fn count_after_loads(count: nat, n: nat) -> nat
    decreases n,
{
    if n == 0 {
        count
    } else {
        count_after_loads(count_after_load(count), (n - 1) as nat)
    }
}

/// Successive loads take the free slots in ascending order, then return
/// slot 0 without taking any.
pub proof fn lemma_texture_loads(count: nat, n: nat)
    requires
        count <= MAX_TEXTURES,
    ensures
        slots_loaded(count, n).len() == n,
        forall|i: int|
            0 <= i < n ==> #[trigger] slots_loaded(count, n)[i] == if count + i < MAX_TEXTURES {
                count + i
            } else {
                0
            },
        count_after_loads(count, n) == min_nat(count + n, MAX_TEXTURES as nat),
    decreases n,
{
    if n > 0 {
        let next = count_after_load(count);
        lemma_texture_loads(next, (n - 1) as nat);
        let s = slots_loaded(count, n);
        assert forall|i: int| 0 <= i < n implies #[trigger] s[i] == if count + i
            < MAX_TEXTURES {
            count + i
        } else {
            0
        } by {
            if i > 0 {
                assert(s[i] == slots_loaded(next, (n - 1) as nat)[i - 1]);
            }
        }
    }
}

/// On a fresh table, 32 loads return the ids 0 to 31 in order (so all
/// distinct and ascending); a 33rd returns 0 and takes no slot.
pub proof fn lemma_fresh_texture_loads()
    ensures
        forall|i: int| 0 <= i < 32 ==> #[trigger] slots_loaded(0, 32)[i] == i,
        count_after_loads(0, 32) == 32,
        slots_loaded(0, 33)[32] == 0,
        count_after_loads(0, 33) == 32,
{
    lemma_texture_loads(0, 32);
    lemma_texture_loads(0, 33);
}

} // verus!
