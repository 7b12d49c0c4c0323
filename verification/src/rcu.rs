//! Versioned value cell in the read-copy-update style. `CellProtocol` is the
//! cell's concurrency skeleton: the revision phase tag, the outstanding-reader
//! counter, and (as ghost state) the generation identities the revision latch
//! compares. Its transitions carry exact contracts, and the two laws the
//! protocol lives by are proved here: of any number of revisions racing for
//! the slot exactly one wins, and of the readers inside the cell when a
//! revision is published exactly one — the last to depart — performs the
//! handoff that releases the writer. `VersionedCell` is the executable cell:
//! reads copy the current generation's payload out, updates race the latch and,
//! from a settled cell, always win, supersede the old generation and settle
//! the new one. An unverified concurrent driver can run the same protocol by
//! parking on the published phase words; `writer_wait_target` decides its
//! grace-period loop.

use crate::handle::arc_clone;
use std::sync::Arc;
use vstd::prelude::*;

verus! {

/// The phases of one revision of the cell. Idle: no revision pending.
/// Initiated: a revision is published, its grace period may still be running.
/// Committing: the last departing reader has claimed the handoff. Finalized:
/// the grace period is over and the parked writer may proceed.
#[derive(Clone, Copy, PartialEq, Eq, Structural, Debug)]
pub enum Phase {
    Idle,
    Initiated,
    Committing,
    Finalized,
}

/// The word each phase is published as on the cell's shared state field, the
/// address writers park on.
pub const PHASE_IDLE_WORD: u32 = 0;

/// See `PHASE_IDLE_WORD`.
pub const PHASE_INITIATED_WORD: u32 = 1;

/// See `PHASE_IDLE_WORD`.
pub const PHASE_COMMITTING_WORD: u32 = 2;

/// See `PHASE_IDLE_WORD`.
pub const PHASE_FINALIZED_WORD: u32 = 3;

/// The grace-period decision of a winning writer: given an observed phase
/// word, the word to park on — the writer keeps waiting while the phase is
/// Initiated or Committing — or `None` once the phase has moved past them.
pub fn writer_wait_target(observed: u32) -> (target: Option<u32>)
    ensures
        observed == PHASE_INITIATED_WORD ==> target == Some(PHASE_INITIATED_WORD),
        observed == PHASE_COMMITTING_WORD ==> target == Some(PHASE_COMMITTING_WORD),
        (observed != PHASE_INITIATED_WORD && observed != PHASE_COMMITTING_WORD) ==> target is None,
{
    if observed == PHASE_INITIATED_WORD || observed == PHASE_COMMITTING_WORD {
        Option::Some(observed)
    } else {
        Option::None
    }
}

/// The concurrency skeleton of a versioned cell. Generation identities are
/// ghost: executable code never branches on them, but they state what the
/// revision latch — a compare-and-swap of the current generation against the
/// settled previous one — compares.
pub struct CellProtocol {
    /// The published revision phase.
    pub phase: Phase,
    /// Readers currently inside the read path.
    pub readers: u32,
    /// Identity of the current generation.
    pub cur_gen: Ghost<nat>,
    /// Identity of the settled previous generation.
    pub prev_gen: Ghost<nat>,
    /// Identity the next published generation will get.
    pub next_gen: Ghost<nat>,
}

impl CellProtocol {
    /// The protocol invariant: the cell is idle exactly when the current and
    /// settled-previous generations agree — that is, exactly when no revision
    /// is pending — and generation identities grow monotonically.
    pub open spec fn wf(self) -> bool {
        &&& self.prev_gen@ <= self.cur_gen@
        &&& self.cur_gen@ < self.next_gen@
        &&& (self.phase == Phase::Idle <==> self.cur_gen@ == self.prev_gen@)
    }

    /// A fresh cell: idle, no readers, both generation slots on the initial
    /// generation.
    pub fn new() -> (p: Self)
        ensures
            p.wf(),
            p.phase == Phase::Idle,
            p.readers == 0,
    {
        CellProtocol {
            phase: Phase::Idle,
            readers: 0,
            cur_gen: Ghost(0nat),
            prev_gen: Ghost(0nat),
            next_gen: Ghost(1nat),
        }
    }

    /// A reader enters the read path: the outstanding-reader counter rises.
    pub fn reader_enter(&mut self)
        requires
            old(self).wf(),
            old(self).readers < u32::MAX,
        ensures
            final(self).wf(),
            *final(self) == (CellProtocol {
                readers: (old(self).readers + 1) as u32,
                ..*old(self)
            }),
    {
        self.readers = self.readers + 1;
    }

    /// A reader leaves the read path. The last reader to depart while a
    /// revision is pending performs the handoff: it advances the phase
    /// Initiated → Committing, finalizes it, and so becomes the one party
    /// responsible for releasing the parked writer.
    pub fn reader_exit(&mut self) -> (handoff: bool)
        requires
            old(self).wf(),
            old(self).readers >= 1,
        ensures
            final(self).wf(),
            *final(self) == exit_step(*old(self)),
            handoff <==> (old(self).readers == 1 && old(self).phase == Phase::Initiated),
            final(self).readers == old(self).readers - 1,
            handoff ==> final(self).phase == Phase::Finalized,
            !handoff ==> final(self).phase == old(self).phase,
    {
        self.readers = self.readers - 1;
        if self.readers == 0 && self.phase == Phase::Initiated {
            // the claim Initiated → Committing, then the finalizing store
            self.phase = Phase::Committing;
            self.phase = Phase::Finalized;
            true
        } else {
            false
        }
    }

    /// A revision races for the single revision slot. It wins exactly when no
    /// revision is pending — the latch's compare of the current generation
    /// against the settled previous one succeeds only in an idle cell — and
    /// publishes a fresh generation at once; a loser changes nothing.
    pub fn try_publish(&mut self) -> (won: bool)
        requires
            old(self).wf(),
        ensures
            final(self).wf(),
            *final(self) == publish_step(*old(self)),
            won <==> old(self).phase == Phase::Idle,
            !won ==> *final(self) == *old(self),
            won ==> final(self).phase == Phase::Initiated && final(self).readers == old(
                self,
            ).readers,
    {
        if self.phase == Phase::Idle {
            self.cur_gen = Ghost(self.next_gen@);
            self.next_gen = Ghost(self.next_gen@ + 1);
            self.phase = Phase::Initiated;
            true
        } else {
            false
        }
    }

    /// Whether a winning writer's grace period is still running: it parks
    /// while the phase is Initiated or Committing.
    pub fn writer_must_wait(&self) -> (waiting: bool)
        ensures
            waiting <==> (self.phase == Phase::Initiated || self.phase == Phase::Committing),
    {
        match self.phase {
            Phase::Initiated => true,
            Phase::Committing => true,
            Phase::Idle => false,
            Phase::Finalized => false,
        }
    }

    /// A winning writer closes its revision once quiescent — either the
    /// grace period ran to Finalized, or no reader was inside at publish
    /// time and the phase still reads Initiated. The phase returns to Idle
    /// and the previous generation settles on the published one, reopening
    /// the latch for the next revision.
    pub fn complete(&mut self)
        requires
            old(self).wf(),
            old(self).phase == Phase::Finalized || (old(self).phase == Phase::Initiated && old(
                self,
            ).readers == 0),
        ensures
            final(self).wf(),
            final(self).phase == Phase::Idle,
            final(self).readers == old(self).readers,
            final(self).cur_gen == old(self).cur_gen,
            final(self).prev_gen@ == old(self).cur_gen@,
            final(self).next_gen == old(self).next_gen,
    {
        self.phase = Phase::Idle;
        self.prev_gen = Ghost(self.cur_gen@);
    }
}

/// One attempt at the revision latch, as a step function: an idle cell's
/// attempt wins and publishes a fresh generation; any other attempt loses and
/// changes nothing.
pub open spec fn publish_step(s: CellProtocol) -> CellProtocol {
    if s.phase == Phase::Idle {
        CellProtocol {
            phase: Phase::Initiated,
            cur_gen: Ghost(s.next_gen@),
            next_gen: Ghost(s.next_gen@ + 1),
            ..s
        }
    } else {
        s
    }
}

/// One reader departure, as a step function: the last reader out of a
/// pending revision finalizes the phase.
pub open spec fn exit_step(s: CellProtocol) -> CellProtocol {
    if s.readers >= 1 {
        CellProtocol {
            readers: (s.readers - 1) as u32,
            phase: if s.readers == 1 && s.phase == Phase::Initiated {
                Phase::Finalized
            } else {
                s.phase
            },
            ..s
        }
    } else {
        s
    }
}

/// How many of `attempts` consecutive attempts at the revision latch win.
pub open spec fn wins_among(s: CellProtocol, attempts: nat) -> nat
    decreases attempts,
{
    if attempts == 0 {
        0
    } else {
        (if s.phase == Phase::Idle {
            1nat
        } else {
            0nat
        }) + wins_among(publish_step(s), (attempts - 1) as nat)
    }
}

/// While a revision is pending, no attempt at the latch wins.
pub proof fn lemma_no_winner_while_pending(s: CellProtocol, attempts: nat)
    requires
        s.phase != Phase::Idle,
    ensures
        wins_among(s, attempts) == 0,
    decreases attempts,
{
    if attempts > 0 {
        lemma_no_winner_while_pending(publish_step(s), (attempts - 1) as nat);
    }
}

/// Law: revisions are mutually exclusive. Of any number of updates racing
/// for an idle cell's revision slot, exactly one wins; every other gets its
/// value back and must retry on its own.
pub proof fn lemma_exactly_one_winner(s: CellProtocol, attempts: nat)
    requires
        s.phase == Phase::Idle,
        attempts >= 1,
    ensures
        wins_among(s, attempts) == 1,
{
    lemma_no_winner_while_pending(publish_step(s), (attempts - 1) as nat);
}

/// How many of `exits` consecutive reader departures perform the handoff.
pub open spec fn handoffs_among(s: CellProtocol, exits: nat) -> nat
    decreases exits,
{
    if exits == 0 {
        0
    } else {
        (if s.readers == 1 && s.phase == Phase::Initiated {
            1nat
        } else {
            0nat
        }) + handoffs_among(exit_step(s), (exits - 1) as nat)
    }
}

/// Law: the handoff happens exactly once per revision. When a revision is
/// published while readers are inside the read path, then as those readers
/// depart, exactly one of them — the last — performs the handoff that
/// releases the writer.
pub proof fn lemma_exactly_one_handoff(s: CellProtocol, exits: nat)
    requires
        s.phase == Phase::Initiated,
        s.readers == exits,
        exits >= 1,
    ensures
        handoffs_among(s, exits) == 1,
    decreases exits,
{
    if s.readers == 1 {
        assert(handoffs_among(exit_step(s), (exits - 1) as nat) == 0);
    } else {
        lemma_exactly_one_handoff(exit_step(s), (exits - 1) as nat);
    }
}

/// A generation node: holds exactly one value of `T`, consumed at most once
/// by the one party that reclaims the node.
pub struct InnerRcuNode<T> {
    data: Option<T>,
}

impl<T: Clone> InnerRcuNode<T> {
    /// The payload, as the contracts see it: present until taken.
    pub closed spec fn payload(self) -> Option<T> {
        self.data
    }

    /// A fresh node holding one value.
    pub fn new(data: T) -> (n: Self)
        ensures
            n.payload() == Some(data),
    {
        InnerRcuNode { data: Some(data) }
    }

    /// Copies the payload out — a value copy, never a borrow, since a shared
    /// node may be reclaimed as soon as the reader departs.
    pub fn copy(&self) -> (r: T)
        requires
            self.payload() is Some,
        ensures
            cloned::<T>(self.payload().unwrap(), r),
    {
        self.data.as_ref().unwrap().clone()
    }

    /// Takes the payload out, leaving the node empty: the consume-at-most-once
    /// step of the node's reclaimer.
    pub fn take(&mut self) -> (r: Option<T>)
        ensures
            r == old(self).payload(),
            final(self).payload() is None,
    {
        self.data.take()
    }
}

/// A clonable owning handle to one generation node; every clone aliases the
/// same node. The executable aliasing is `Arc`'s; the counting discipline it
/// follows is the one stated and proved on `handle::RefCount`.
pub struct RcuNode<T: Clone> {
    inner: Arc<InnerRcuNode<T>>,
}

impl<T: Clone> RcuNode<T> {
    /// The aliased node's payload.
    pub closed spec fn payload(self) -> Option<T> {
        self.inner.payload()
    }

    /// A fresh handle to a fresh node holding `data`.
    pub fn new(data: T) -> (n: Self)
        ensures
            n.payload() == Some(data),
    {
        RcuNode { inner: Arc::new(InnerRcuNode::new(data)) }
    }

    /// Copies the payload out of the aliased node.
    pub fn copy(&self) -> (r: T)
        requires
            self.payload() is Some,
        ensures
            cloned::<T>(self.payload().unwrap(), r),
    {
        self.inner.copy()
    }
}

impl<T: Clone> Clone for RcuNode<T> {
    /// A cloned handle aliases the same node.
    fn clone(&self) -> (r: Self)
        ensures
            r == *self,
    {
        RcuNode { inner: arc_clone(&self.inner) }
    }
}

/// A single-slot versioned value cell: the executable, single-party form of
/// the protocol above. Reads copy the current generation's value out; updates
/// race the revision latch and, with nobody else inside the cell, always win,
/// supersede the old generation and settle the new one. The concurrent form
/// of the same protocol — many readers, racing writers, OS-level parking —
/// is a driver's job; its decisions are the `CellProtocol` transitions.
pub struct VersionedCell<T: Clone> {
    cur: RcuNode<T>,
    prev: RcuNode<T>,
    proto: CellProtocol,
}

impl<T: Clone> VersionedCell<T> {
    /// Well-formedness: the cell is settled — no revision pending, no reader
    /// inside — and both generation slots alias one node that still holds its
    /// payload.
    pub closed spec fn wf(self) -> bool {
        &&& self.proto.wf()
        &&& self.proto.phase == Phase::Idle
        &&& self.proto.readers == 0
        &&& self.cur == self.prev
        &&& self.cur.payload() is Some
    }

    /// The value the cell currently publishes.
    pub closed spec fn value(self) -> T {
        self.cur.payload().unwrap()
    }

    /// A fresh cell publishing `data`: one generation node, aliased by both
    /// the current and the settled-previous slot; phase Idle; no readers.
    pub fn new(data: T) -> (c: Self)
        ensures
            c.wf(),
            c.value() == data,
    {
        let node = RcuNode::new(data);
        let prev = node.clone();
        VersionedCell { cur: node, prev, proto: CellProtocol::new() }
    }

    /// Copies the current value out — a value copy, never a borrow. The
    /// reader counter rises and falls around the copy; departing as the last
    /// reader of an idle cell performs no handoff, so the cell is left
    /// exactly as it was found.
    pub fn read(&mut self) -> (r: T)
        requires
            old(self).wf(),
        ensures
            *final(self) == *old(self),
            cloned::<T>(old(self).value(), r),
    {
        self.proto.reader_enter();
        let r = self.cur.copy();
        let _handoff = self.proto.reader_exit();
        r
    }

    /// Installs a new generation holding `new_data`. In a settled cell the
    /// revision latch is free, so the revision wins, needs no grace period —
    /// no reader is inside — settles at once, and the superseded generation
    /// is dropped. A racing loser would get its value handed back as `Err`
    /// to retry with; no value is ever silently dropped.
    pub fn update(&mut self, new_data: T) -> (r: Result<(), T>)
        requires
            old(self).wf(),
        ensures
            final(self).wf(),
            r is Ok,
            final(self).value() == new_data,
    {
        let mut neo = InnerRcuNode::new(new_data);
        if self.proto.try_publish() {
            // the outstanding-reader snapshot is zero: the grace period is
            // empty and the writer need not park
            self.proto.complete();
            let node = RcuNode { inner: Arc::new(neo) };
            self.prev = node.clone();
            self.cur = node;
            Result::Ok(())
        } else {
            // a competing revision holds the slot: hand the value back
            let val = neo.take();
            Result::Err(val.unwrap())
        }
    }
}

} // verus!
