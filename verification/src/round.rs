//! The lottery round state machine: pool accounting, the participant
//! registry, the winner-selection policy and the round-reset semantics.
//!
//! The hosting environment is expected to invoke each operation atomically
//! and one at a time against a given round, to perform the actual balance
//! transfers, and to persist `total_pool` and `participants` between
//! invocations.

use vstd::prelude::*;

verus! {

/// Upper bound on the number of entries a single round accepts. The round's
/// persistent record is sized to this capacity once and never reallocated,
/// so the participant registry may not grow past it.
pub const MAX_PLAYERS: usize = 10;

/// A participant identity: 32 bytes of opaque account identity, held as four
/// 64-bit words so that equality of identities is plain word equality.
#[derive(Clone, Copy, PartialEq, Eq, Structural, Debug)]
pub struct PlayerId {
    pub w0: u64,
    pub w1: u64,
    pub w2: u64,
    pub w3: u64,
}

/// Every way an operation on a round can fail. Validation and precondition
/// failures are rejected before any state mutation, so a failed call leaves
/// the round exactly as it was.
#[derive(Clone, Copy, PartialEq, Eq, Structural, Debug)]
pub enum LotteryError {
    /// `pick_winner` was called on a round with no participants.
    NoPlayers,
    /// `enter` was called with a zero amount.
    InvalidAmount,
    /// `enter` was called on a round already at capacity.
    TooManyPlayers,
    /// Accepting the entry would overflow the pool counter.
    Overflow,
    /// The payee handed to `pick_winner` is not the selected winner.
    UnauthorizedPayee,
}

/// Sum of a sequence of contribution amounts, as an unbounded integer.
pub open spec fn pool_sum(amounts: Seq<u64>) -> int
    decreases amounts.len(),
{
    if amounts.len() == 0 {
        0
    } else {
        pool_sum(amounts.drop_last()) + amounts.last()
    }
}

/// The winner-selection policy: the entry at `timestamp mod count` wins.
///
/// This is deliberately the weak clock-modulo policy: the timestamp is
/// coarse and may be predictable to whoever controls the timing of the
/// call, so callers must not rely on it being unpredictable. It is kept
/// behind this single seam so a stronger entropy source could replace it
/// without touching the rest of the state machine.
pub open spec fn winner_index(timestamp: u64, count: int) -> int {
    timestamp as int % count
}

proof fn lemma_pool_sum_push(amounts: Seq<u64>, amount: u64)
    ensures
        pool_sum(amounts.push(amount)) == pool_sum(amounts) + amount,
{
    assert(amounts.push(amount).drop_last() =~= amounts);
}

/// A sequence of `count` amounts whose first element is `pool` and whose
/// other elements are zero; a witness that any pool value can be accounted
/// for by a non-empty registry.
spec fn front_loaded(pool: u64, count: nat) -> Seq<u64> {
    Seq::new(count, |i: int| if i == 0 { pool } else { 0u64 })
}

proof fn lemma_pool_sum_front_loaded(pool: u64, count: nat)
    requires
        count > 0,
    ensures
        pool_sum(front_loaded(pool, count)) == pool,
    decreases count,
{
    let s = front_loaded(pool, count);
    assert(s.last() == if count == 1 { pool } else { 0u64 });
    assert(pool_sum(s) == pool_sum(s.drop_last()) + s.last());
    if count == 1 {
        assert(s.drop_last() =~= Seq::<u64>::empty());
        assert(pool_sum(s.drop_last()) == 0);
    } else {
        lemma_pool_sum_front_loaded(pool, (count - 1) as nat);
        assert(s.drop_last() =~= front_loaded(pool, (count - 1) as nat));
    }
}

/// One lottery round: the accumulated pool and the ordered registry of the
/// identities that entered it. The ghost `amounts` field records the
/// contribution accepted with each entry, so that the accounting invariant
/// — the pool is exactly the sum of the accepted contributions — can be
/// stated and carried through every operation.
pub struct Lottery {
    /// Accumulated contributed value for the current round.
    pub total_pool: u64,
    /// The identities that entered the current round, in entry order; an
    /// identity that entered twice holds two tickets.
    pub participants: Vec<PlayerId>,
    /// The amount each entry contributed, in entry order (ghost).
    pub amounts: Ghost<Seq<u64>>,
}

impl Lottery {
    /// The round's invariant: one recorded amount per participant, the
    /// registry within capacity, and the pool equal to the sum of the
    /// recorded amounts.
    pub open spec fn wf(self) -> bool {
        &&& self.participants@.len() == self.amounts@.len()
        &&& self.participants@.len() <= MAX_PLAYERS
        &&& self.total_pool == pool_sum(self.amounts@)
    }

    /// Create a fresh round: empty pool, empty registry.
    pub fn initialize() -> (lottery: Lottery)
        ensures
            lottery.wf(),
            lottery.total_pool == 0,
            lottery.participants@.len() == 0,
            lottery.amounts@ == Seq::<u64>::empty(),
    {
        Lottery { total_pool: 0, participants: Vec::new(), amounts: Ghost(Seq::empty()) }
    }

    /// Re-create a round from its persisted fields. A host that stores only
    /// the pool and the registry between invocations rebuilds the round
    /// here; a record whose registry is over capacity, or whose pool is
    /// positive while its registry is empty, cannot belong to any round and
    /// is refused.
    pub fn resume(total_pool: u64, participants: Vec<PlayerId>) -> (result: Option<Lottery>)
        ensures
            result is Some <==> (participants@.len() <= MAX_PLAYERS
                && (participants@.len() == 0 ==> total_pool == 0)),
            result matches Some(lottery) ==> {
                &&& lottery.wf()
                &&& lottery.total_pool == total_pool
                &&& lottery.participants@ == participants@
            },
    {
        let count = participants.len();
        if count > MAX_PLAYERS {
            return None;
        }
        if count == 0 && total_pool > 0 {
            return None;
        }
        let ghost amounts: Seq<u64> = if count == 0 {
            Seq::empty()
        } else {
            front_loaded(total_pool, count as nat)
        };
        proof {
            if count > 0 {
                lemma_pool_sum_front_loaded(total_pool, count as nat);
            }
        }
        Some(Lottery { total_pool, participants, amounts: Ghost(amounts) })
    }

    /// Enter the round with a contribution of `amount`.
    ///
    /// A zero amount is invalid, a round at capacity accepts nobody, and a
    /// contribution that would overflow the pool counter is refused; each
    /// rejection names its reason and leaves the round unchanged. On
    /// success the caller's identity is appended to the registry and the
    /// pool grows by exactly `amount` — the host must debit the caller's
    /// external balance by the same amount in the same atomic invocation.
    pub fn enter(&mut self, player: PlayerId, amount: u64) -> (result: Result<(), LotteryError>)
        requires
            old(self).wf(),
        ensures
            final(self).wf(),
            result is Ok <==> (amount > 0
                && old(self).participants@.len() < MAX_PLAYERS
                && old(self).total_pool + amount <= u64::MAX),
            result is Ok ==> {
                &&& final(self).total_pool == old(self).total_pool + amount
                &&& final(self).participants@ == old(self).participants@.push(player)
                &&& final(self).amounts@ == old(self).amounts@.push(amount)
            },
            result is Err ==> *final(self) == *old(self),
            result == Err::<(), LotteryError>(LotteryError::InvalidAmount) <==> amount == 0,
            result == Err::<(), LotteryError>(LotteryError::TooManyPlayers) <==> (amount > 0
                && old(self).participants@.len() >= MAX_PLAYERS),
            result == Err::<(), LotteryError>(LotteryError::Overflow) <==> (amount > 0
                && old(self).participants@.len() < MAX_PLAYERS
                && old(self).total_pool + amount > u64::MAX),
    {
        if amount == 0 {
            return Err(LotteryError::InvalidAmount);
        }
        if self.participants.len() >= MAX_PLAYERS {
            return Err(LotteryError::TooManyPlayers);
        }
        if amount > u64::MAX - self.total_pool {
            return Err(LotteryError::Overflow);
        }
        proof {
            lemma_pool_sum_push(self.amounts@, amount);
        }
        let ghost previous_amounts = self.amounts@;
        self.total_pool = self.total_pool + amount;
        self.participants.push(player);
        self.amounts = Ghost(previous_amounts.push(amount));
        Ok(())
    }

    /// Settle the round: select the winning entry, check that `payee` is
    /// that entry's identity, and drain the pool.
    ///
    /// The winning entry is `participants[timestamp mod count]`, where
    /// `timestamp` is an external clock reading taken by the caller at
    /// execution time — see `winner_index` for why this policy is weak. A
    /// round with no participants has no winner. A `payee` that is not the
    /// selected winner is refused, and nothing changes. On success the
    /// returned payout is the whole pool — exactly the sum of the amounts
    /// contributed since the last reset — and the round resets in place to
    /// an empty, immediately reusable state; the host must credit the
    /// winner's external balance with the payout in the same atomic
    /// invocation.
    pub fn pick_winner(&mut self, timestamp: u64, payee: PlayerId) -> (result: Result<
        u64,
        LotteryError,
    >)
        requires
            old(self).wf(),
        ensures
            final(self).wf(),
            result is Ok <==> (old(self).participants@.len() > 0 && payee == old(
                self,
            ).participants@[winner_index(timestamp, old(self).participants@.len() as int)]),
            result matches Ok(payout) ==> {
                &&& payout == old(self).total_pool
                &&& payout == pool_sum(old(self).amounts@)
                &&& old(self).participants@.contains(payee)
                &&& final(self).total_pool == 0
                &&& final(self).participants@.len() == 0
                &&& final(self).amounts@.len() == 0
            },
            result is Err ==> *final(self) == *old(self),
            result == Err::<u64, LotteryError>(LotteryError::NoPlayers) <==> old(
                self,
            ).participants@.len() == 0,
            result == Err::<u64, LotteryError>(LotteryError::UnauthorizedPayee) <==> (old(
                self,
            ).participants@.len() > 0 && payee != old(self).participants@[winner_index(
                timestamp,
                old(self).participants@.len() as int,
            )]),
    {
        let count = self.participants.len();
        if count == 0 {
            return Err(LotteryError::NoPlayers);
        }
        let index = select_winner_index(timestamp, count);
        let winner = self.participants[index];
        if payee != winner {
            return Err(LotteryError::UnauthorizedPayee);
        }
        proof {
            assert(old(self).participants@.contains(payee)) by {
                assert(old(self).participants@[index as int] == payee);
            }
        }
        let payout = self.total_pool;
        self.total_pool = 0;
        self.participants = Vec::new();
        self.amounts = Ghost(Seq::empty());
        Ok(payout)
    }

    /// Read the round's public counters: the pool total and the number of
    /// participants. Read-only; cannot fail.
    pub fn get_lottery_info(&self) -> (info: (u64, usize))
        ensures
            info.0 == self.total_pool,
            info.1 == self.participants@.len(),
    {
        (self.total_pool, self.participants.len())
    }
}

/// Compute the winning entry's index for a round of `count` participants,
/// from an external clock reading. This is the executable face of
/// `winner_index`, the one seam where the (weak) selection policy lives.
pub fn select_winner_index(timestamp: u64, count: usize) -> (index: usize)
    requires
        0 < count,
    ensures
        index == winner_index(timestamp, count as int),
        index < count,
{
    let modulus: u64 = timestamp % (count as u64);
    modulus as usize
}

} // verus!
