//! Laws of the ownership handshake, stated and proved over the rings'
//! abstract state.
//!
//! The contracts of [`crate::tx_ring::TxRing::transmit`] and
//! [`crate::rx_ring::RxRing::receive`] describe each single call exactly; the
//! proof functions here chain those single-call descriptions into the
//! protocol-level guarantees: how many transmissions a fresh ring accepts,
//! that declined offers change nothing however often they are repeated, and
//! that "no frame" stays "no frame" until hardware acts.

use vstd::prelude::*;
use crate::desc::RxDescriptor;
use crate::ring::{lemma_sw_owned_count_update, next_cursor, sw_owned_count, Descriptor, RingView};
use crate::rx_ring::{drain_step, lemma_drain_step_owners, rx_wf, spec_drain};
use crate::tx_ring::{poison_window, POISON_BYTE};

verus! {

/// The protocol-relevant projection of a ring: who owns each slot, and where
/// the cursor stands.
pub struct HandoffState {
    /// True where the hardware holds the slot.
    pub owners: Seq<bool>,
    /// The slot software offers next.
    pub next: int,
}

/// The projection of a concrete ring state.
pub open spec fn handoff_of<D: Descriptor>(v: RingView<D>) -> HandoffState {
    HandoffState { owners: v.owners(), next: v.next }
}

/// What a committed offer (`Commit::Yes`) does to the projected state: the
/// cursor slot passes to hardware and the cursor advances one step.
pub open spec fn commit_step(s: HandoffState) -> HandoffState {
    HandoffState {
        owners: s.owners.update(s.next, true),
        next: next_cursor(s.next, s.owners.len() as int),
    }
}

/// What a declined offer (`Commit::No`), and equally a "not ready" return,
/// does to the projected state: nothing.
pub open spec fn decline_step(s: HandoffState) -> HandoffState {
    s
}

/// The projected state after `k` consecutive committed offers.
pub open spec fn iterate_commit(s: HandoffState, k: nat) -> HandoffState
    decreases k,
{
    if k == 0 {
        s
    } else {
        commit_step(iterate_commit(s, (k - 1) as nat))
    }
}

/// The projected state after `k` consecutive declined offers.
pub open spec fn iterate_decline(s: HandoffState, k: nat) -> HandoffState
    decreases k,
{
    if k == 0 {
        s
    } else {
        decline_step(iterate_decline(s, (k - 1) as nat))
    }
}

/// A fresh transmit ring: every slot with software, cursor at slot 0.
pub open spec fn fresh_tx(n: nat) -> HandoffState {
    HandoffState { owners: Seq::new(n, |i: int| false), next: 0 }
}

/// A fresh receive ring: every slot with hardware, cursor at slot 0.
pub open spec fn fresh_rx(n: nat) -> HandoffState {
    HandoffState { owners: Seq::new(n, |i: int| true), next: 0 }
}

/// Law: a fresh transmit ring accepts exactly its capacity of consecutive
/// committed transmissions. After `k < n` commits the cursor stands at slot
/// `k` and that slot is still with software, so by `transmit`'s contract one
/// more call finds a slot; after `n` commits every slot — the cursor slot in
/// particular — is with hardware, so the next call returns "no slot".
pub proof fn lemma_fresh_ring_capacity(n: nat, k: nat)
    requires
        0 < n,
        k <= n,
    ensures
        iterate_commit(fresh_tx(n), k).owners.len() == n,
        iterate_commit(fresh_tx(n), k).next == if k < n {
            k as int
        } else {
            0
        },
        forall|i: int|
            0 <= i < n ==> iterate_commit(fresh_tx(n), k).owners[i] == (i < k as int),
        k < n ==> !iterate_commit(fresh_tx(n), k).owners[iterate_commit(fresh_tx(n), k).next],
        k == n ==> iterate_commit(fresh_tx(n), k).owners[iterate_commit(fresh_tx(n), k).next],
    decreases k,
{
    if k == 0 {
    } else {
        lemma_fresh_ring_capacity(n, (k - 1) as nat);
    }
}

/// Law: a declined offer is idempotent. Offering the same slot with
/// `Commit::No`, any number of times, never advances the cursor and never
/// changes any slot's owner.
pub proof fn lemma_decline_idempotent(s: HandoffState, k: nat)
    ensures
        iterate_decline(s, k) == s,
    decreases k,
{
    if k == 0 {
    } else {
        lemma_decline_idempotent(s, (k - 1) as nat);
    }
}

/// Law: immediately after construction a receive ring has its cursor slot —
/// like every slot — with hardware, so by `receive`'s contract the call
/// returns "no frame" until a slot's ownership is flipped from outside.
pub proof fn lemma_fresh_rx_no_frame(n: nat)
    requires
        0 < n,
    ensures
        fresh_rx(n).owners[fresh_rx(n).next],
{
}

/// Law: "no frame" is stable. A receive that finds the cursor slot with
/// hardware changes nothing, so once a drain pass ends with "no frame",
/// every further receive returns "no frame" until hardware hands a slot
/// back.
pub proof fn lemma_no_frame_stable(s: HandoffState, k: nat)
    requires
        0 <= s.next < s.owners.len(),
        s.owners[s.next],
    ensures
        iterate_decline(s, k) == s,
        iterate_decline(s, k).owners[iterate_decline(s, k).next],
{
    lemma_decline_idempotent(s, k);
}

/// Law: a drain pass drains everything. After one pass over the receive
/// ring — however many frames and discards it took — the cursor slot is with
/// hardware, so a further receive returns "no frame" before more hardware
/// activity.
pub proof fn lemma_drain_leaves_no_frame(v: RingView<RxDescriptor>)
    requires
        rx_wf(v),
    ensures
        rx_wf(spec_drain(v).0),
        spec_drain(v).0.owners()[spec_drain(v).0.next],
    decreases sw_owned_count(v.owners()),
{
    if !v.owners()[v.next] {
        lemma_drain_step_owners(v);
        lemma_sw_owned_count_update(v.owners(), v.next);
        lemma_drain_leaves_no_frame(drain_step(v));
    }
}

/// A committed `transmit` or `receive` is one `commit_step` of the projected
/// state: the glue between the exec contracts, which speak of `owners()` and
/// `next`, and the laws above.
pub proof fn lemma_commit_matches<D: Descriptor>(pre: RingView<D>, post: RingView<D>)
    requires
        pre.wf(),
        post.descs.len() == pre.descs.len(),
        post.owners() == pre.owners().update(pre.next, true),
        post.next == next_cursor(pre.next, pre.descs.len() as int),
    ensures
        handoff_of(post) == commit_step(handoff_of(pre)),
{
    assert(handoff_of(post).owners =~= commit_step(handoff_of(pre)).owners);
}

/// Law: the poison pattern survives an underfilled window. The window handed
/// to a transmit body starts as all poison bytes; if the body returns it
/// with some suffix untouched, every byte of that suffix still carries the
/// poison byte — and `transmit` commits exactly the returned window as the
/// frame's bytes, so the untouched suffix of the transmitted frame is the
/// poison byte, never another packet's contents.
pub proof fn lemma_poison_suffix(w2: Seq<u8>, size: int, j: int)
    requires
        0 <= j <= size,
        w2.len() == size,
        w2.skip(j) == poison_window(size).skip(j),
    ensures
        forall|m: int| j <= m < size ==> w2[m] == POISON_BYTE,
{
    assert forall|m: int| j <= m < size implies w2[m] == POISON_BYTE by {
        assert(w2.skip(j)[m - j] == w2[m]);
        assert(poison_window(size).skip(j)[m - j] == poison_window(size)[m]);
        assert(w2.skip(j)[m - j] == poison_window(size).skip(j)[m - j]);
    }
}

} // verus!
