use vstd::prelude::*;

use crate::address::Address;
use crate::errors::Error;
use crate::escrow::{
    valid_escrow, status_step_ok, Escrow, EscrowEvent, EngagementInitializedEvent, ReclaimedEvent,
    Status,
};
use crate::escrow::{deposit_step, initialize_step, reclaim_step, release_step};
use crate::ledger::{transferred, Ledger};

verus! {

/// The escrow lifecycle engine: every escrow record ever created, the id
/// counter that numbers them, and the notifications published so far.
///
/// Ids are dense: the escrow with id `n` (ids start at 1) sits at position
/// `n - 1`, records are never deleted, and `next_id` always reads
/// one past the highest id in use.  A host that keeps records in a durable
/// keyed store holds the same data under keys `Escrow(id)` and `NextId`.
pub struct EscrowContract {
    custody: Address,
    next_id: u64,
    escrows: Vec<Escrow>,
    events: Vec<EscrowEvent>,
}

impl EscrowContract {
    /// The principal that holds escrowed value between `deposit` and
    /// `release`/`reclaim`: the engine's own account.
    pub closed spec fn custody_id(&self) -> Address {
        self.custody
    }

    /// The id the next successful `initialize` will hand out.
    pub closed spec fn spec_next_id(&self) -> u64 {
        self.next_id
    }

    /// All records, in order of creation; the escrow with id `n` is entry
    /// `n - 1`.
    pub closed spec fn escrows_seq(&self) -> Seq<Escrow> {
        self.escrows@
    }

    /// Every notification published so far, oldest first.
    pub closed spec fn events_seq(&self) -> Seq<EscrowEvent> {
        self.events@
    }

    /// Internal consistency: the counter reads one past the highest id in
    /// use, and every stored record is a valid escrow.
    pub open spec fn wf(&self) -> bool {
        &&& self.spec_next_id() == self.escrows_seq().len() + 1
        &&& forall|i: int|
            0 <= i < self.escrows_seq().len() ==> valid_escrow(#[trigger] self.escrows_seq()[i])
    }

    /// Whether an escrow exists under `id`.
    pub open spec fn has_escrow(&self, id: u64) -> bool {
        1 <= id <= self.escrows_seq().len()
    }

    /// The record stored under `id`.
    pub open spec fn escrow_at(&self, id: u64) -> Escrow
        recommends
            self.has_escrow(id),
    {
        self.escrows_seq()[id - 1]
    }

    /// Whether two engine values carry the same state.
    pub open spec fn state_eq(self, other: EscrowContract) -> bool {
        &&& self.custody_id() == other.custody_id()
        &&& self.spec_next_id() == other.spec_next_id()
        &&& self.escrows_seq() == other.escrows_seq()
        &&& self.events_seq() == other.events_seq()
    }
}

/// What `initialize` answers: the two argument checks, then the id the
/// counter holds.
pub open spec fn initialize_result(
    pre: EscrowContract,
    client: Address,
    artisan: Address,
    amount: i128,
) -> Result<u64, Error> {
    if client == artisan || amount <= 0 {
        Err(Error::ValidationError)
    } else {
        Ok(pre.spec_next_id())
    }
}

/// How one `initialize` call relates the engine state before (`pre`) to the
/// state after (`post`) and to its result `r`.  On success a pending record
/// is appended under the id the counter held, the counter advances once, and
/// an `Initialized` notification is published; on failure nothing changes.
pub open spec fn initialize_transition(
    pre: EscrowContract,
    post: EscrowContract,
    client: Address,
    artisan: Address,
    asset: Address,
    amount: i128,
    deadline: u64,
    r: Result<u64, Error>,
) -> bool {
    &&& r == initialize_result(pre, client, artisan, amount)
    &&& if r is Ok {
        &&& post.custody_id() == pre.custody_id()
        &&& post.spec_next_id() == pre.spec_next_id() + 1
        &&& post.escrows_seq() == pre.escrows_seq().push(
            (Escrow { client, artisan, asset, amount, status: Status::Pending, deadline }),
        )
        &&& post.events_seq() == pre.events_seq().push(
            EscrowEvent::Initialized(
                (EngagementInitializedEvent { id: pre.spec_next_id(), client, artisan }),
            ),
        )
    } else {
        post.state_eq(pre)
    }
}

/// What `deposit` answers, given the balances `led` of the ledger it is
/// asked to move value on: unknown id, then the deadline, then the status,
/// then the ledger's own refusal.
pub open spec fn deposit_result(
    pre: EscrowContract,
    led: Map<Address, int>,
    id: u64,
    now: u64,
) -> Result<(), Error> {
    if !pre.has_escrow(id) {
        Err(Error::NotFoundError)
    } else {
        let e = pre.escrow_at(id);
        if now > e.deadline {
            Err(Error::DeadlineError)
        } else if e.status != Status::Pending {
            Err(Error::StateError)
        } else if e.amount < 0 || led[e.client] < e.amount {
            Err(Error::TransferError)
        } else {
            Ok(())
        }
    }
}

/// How one `deposit` call relates engine state and ledger balances before
/// and after to its result.  On success the record becomes funded and the
/// client's balance moves, in full, to custody; on failure nothing changes.
pub open spec fn deposit_transition(
    pre: EscrowContract,
    post: EscrowContract,
    pre_led: Map<Address, int>,
    post_led: Map<Address, int>,
    id: u64,
    now: u64,
    r: Result<(), Error>,
) -> bool {
    &&& post.custody_id() == pre.custody_id()
    &&& post.spec_next_id() == pre.spec_next_id()
    &&& post.events_seq() == pre.events_seq()
    &&& r == deposit_result(pre, pre_led, id, now)
    &&& if r is Ok {
        let e = pre.escrow_at(id);
        &&& post.escrows_seq() == pre.escrows_seq().update(
            id - 1,
            (Escrow { status: Status::Funded, ..e }),
        )
        &&& post_led == transferred(pre_led, e.client, pre.custody_id(), e.amount as int)
    } else {
        &&& post.escrows_seq() == pre.escrows_seq()
        &&& post_led == pre_led
    }
}

/// What `release` answers: unknown id, then the caller, then the deadline,
/// then the status, then the ledger's own refusal.
pub open spec fn release_result(
    pre: EscrowContract,
    led: Map<Address, int>,
    id: u64,
    caller: Address,
    now: u64,
) -> Result<(), Error> {
    if !pre.has_escrow(id) {
        Err(Error::NotFoundError)
    } else {
        let e = pre.escrow_at(id);
        if caller != e.client {
            Err(Error::AuthorizationError)
        } else if now > e.deadline {
            Err(Error::DeadlineError)
        } else if e.status != Status::Funded {
            Err(Error::StateError)
        } else if e.amount < 0 || led[pre.custody_id()] < e.amount {
            Err(Error::TransferError)
        } else {
            Ok(())
        }
    }
}

/// How one `release` call relates engine state and ledger balances before
/// and after to its result.  On success the record becomes released and
/// custody's balance moves, in full, to the artisan; on failure nothing
/// changes.
pub open spec fn release_transition(
    pre: EscrowContract,
    post: EscrowContract,
    pre_led: Map<Address, int>,
    post_led: Map<Address, int>,
    id: u64,
    caller: Address,
    now: u64,
    r: Result<(), Error>,
) -> bool {
    &&& post.custody_id() == pre.custody_id()
    &&& post.spec_next_id() == pre.spec_next_id()
    &&& post.events_seq() == pre.events_seq()
    &&& r == release_result(pre, pre_led, id, caller, now)
    &&& if r is Ok {
        let e = pre.escrow_at(id);
        &&& post.escrows_seq() == pre.escrows_seq().update(
            id - 1,
            (Escrow { status: Status::Released, ..e }),
        )
        &&& post_led == transferred(pre_led, pre.custody_id(), e.artisan, e.amount as int)
    } else {
        &&& post.escrows_seq() == pre.escrows_seq()
        &&& post_led == pre_led
    }
}

/// What `reclaim` answers: unknown id, then the caller, then the status,
/// then the deadline — a reclaim is legal only once the window for
/// `release` has closed — then the ledger's own refusal.
pub open spec fn reclaim_result(
    pre: EscrowContract,
    led: Map<Address, int>,
    id: u64,
    caller: Address,
    now: u64,
) -> Result<bool, Error> {
    if !pre.has_escrow(id) {
        Err(Error::NotFoundError)
    } else {
        let e = pre.escrow_at(id);
        if caller != e.client {
            Err(Error::AuthorizationError)
        } else if e.status != Status::Funded {
            Err(Error::StateError)
        } else if now <= e.deadline {
            Err(Error::DeadlineError)
        } else if e.amount < 0 || led[pre.custody_id()] < e.amount {
            Err(Error::TransferError)
        } else {
            Ok(true)
        }
    }
}

/// How one `reclaim` call relates engine state and ledger balances before
/// and after to its result.  On success the record becomes refunded,
/// custody's balance moves, in full, back to the client, and a `Reclaimed`
/// notification is published; on failure nothing changes.
pub open spec fn reclaim_transition(
    pre: EscrowContract,
    post: EscrowContract,
    pre_led: Map<Address, int>,
    post_led: Map<Address, int>,
    id: u64,
    caller: Address,
    now: u64,
    r: Result<bool, Error>,
) -> bool {
    &&& post.custody_id() == pre.custody_id()
    &&& post.spec_next_id() == pre.spec_next_id()
    &&& r == reclaim_result(pre, pre_led, id, caller, now)
    &&& if r is Ok {
        let e = pre.escrow_at(id);
        &&& post.escrows_seq() == pre.escrows_seq().update(
            id - 1,
            (Escrow { status: Status::Refunded, ..e }),
        )
        &&& post_led == transferred(pre_led, pre.custody_id(), e.client, e.amount as int)
        &&& post.events_seq() == pre.events_seq().push(
            EscrowEvent::Reclaimed(
                (ReclaimedEvent { id, client: e.client, amount: e.amount, timestamp: now }),
            ),
        )
    } else {
        &&& post.escrows_seq() == pre.escrows_seq()
        &&& post_led == pre_led
        &&& post.events_seq() == pre.events_seq()
    }
}

impl EscrowContract {
    /// A fresh engine whose custodial principal is `custody`: no escrows,
    /// no notifications, ids starting at 1.
    pub fn new(custody: Address) -> (c: EscrowContract)
        ensures
            c.wf(),
            c.custody_id() == custody,
            c.spec_next_id() == 1,
            c.escrows_seq().len() == 0,
            c.events_seq().len() == 0,
    {
        EscrowContract { custody, next_id: 1, escrows: Vec::new(), events: Vec::new() }
    }

    /// The principal that holds escrowed value for this engine.
    pub fn custody(&self) -> (a: Address)
        ensures
            a == self.custody_id(),
    {
        self.custody
    }

    /// The id the next successful `initialize` will hand out.
    pub fn next_id(&self) -> (n: u64)
        ensures
            n == self.spec_next_id(),
    {
        self.next_id
    }

    /// Every notification published so far, oldest first.
    pub fn events(&self) -> (v: &Vec<EscrowEvent>)
        ensures
            v@ == self.events_seq(),
    {
        &self.events
    }

    /// Read the escrow stored under `engagement_id`.
    pub fn get(&self, engagement_id: u64) -> (r: Result<Escrow, Error>)
        ensures
            (r is Ok) <==> self.has_escrow(engagement_id),
            r matches Ok(e) ==> e == self.escrow_at(engagement_id),
            r is Err ==> r == Err::<Escrow, Error>(Error::NotFoundError),
    {
        if engagement_id >= 1 && engagement_id <= self.escrows.len() as u64 {
            Ok(self.escrows[(engagement_id - 1) as usize])
        } else {
            Err(Error::NotFoundError)
        }
    }

    /// Register a new engagement: `client` will owe `artisan` the positive
    /// `amount` of `asset` under the given `deadline`.  Returns the fresh id,
    /// or `ValidationError` when the parties coincide or the amount is not
    /// positive; nothing is stored in that case.  The id counter must not
    /// have reached the top of its 64-bit range, which no realistic workload
    /// exhausts.
    pub fn initialize(
        &mut self,
        client: Address,
        artisan: Address,
        asset: Address,
        amount: i128,
        deadline: u64,
    ) -> (r: Result<u64, Error>)
        requires
            old(self).wf(),
            old(self).spec_next_id() < u64::MAX,
        ensures
            final(self).wf(),
            initialize_transition(
                *old(self),
                *final(self),
                client,
                artisan,
                asset,
                amount,
                deadline,
                r,
            ),
    {
        match initialize_step(client, artisan, asset, amount, deadline) {
            Err(err) => Err(err),
            Ok(record) => {
                let id = self.next_id;
                self.next_id = self.next_id + 1;
                self.escrows.push(record);
                self.events.push(
                    EscrowEvent::Initialized(EngagementInitializedEvent { id, client, artisan }),
                );
                Ok(id)
            },
        }
    }

    /// Fund the escrow stored under `engagement_id`: move its amount from
    /// the client to custody on `ledger` and mark the record funded.  `now`
    /// is the current time; the ledger's grand total is invariant whatever
    /// happens.
    pub fn deposit(&mut self, engagement_id: u64, ledger: &mut Ledger, now: u64) -> (r: Result<
        (),
        Error,
    >)
        requires
            old(self).wf(),
            old(ledger).wf(),
        ensures
            final(self).wf(),
            final(ledger).wf(),
            final(ledger).asset_id() == old(ledger).asset_id(),
            final(ledger).total() == old(ledger).total(),
            deposit_transition(
                *old(self),
                *final(self),
                old(ledger)@,
                final(ledger)@,
                engagement_id,
                now,
                r,
            ),
    {
        let record = match self.get(engagement_id) {
            Err(err) => {
                return Err(err);
            },
            Ok(record) => record,
        };
        match deposit_step(&record, self.custody, now) {
            Err(err) => Err(err),
            Ok((updated, movement)) => {
                match ledger.transfer(movement.from, movement.to, movement.amount) {
                    Err(err) => Err(err),
                    Ok(()) => {
                        let n = self.escrows.len();
                        proof {
                            assert(engagement_id - 1 < n);
                        }
                        self.escrows.set((engagement_id - 1) as usize, updated);
                        Ok(())
                    },
                }
            },
        }
    }

    /// Release the escrow stored under `engagement_id` to its artisan: only
    /// the client (`caller`) may do so, only up to the deadline, and only
    /// while the escrow is funded.  Moves the amount from custody to the
    /// artisan on `ledger` and marks the record released.
    pub fn release(
        &mut self,
        engagement_id: u64,
        caller: Address,
        ledger: &mut Ledger,
        now: u64,
    ) -> (r: Result<(), Error>)
        requires
            old(self).wf(),
            old(ledger).wf(),
        ensures
            final(self).wf(),
            final(ledger).wf(),
            final(ledger).asset_id() == old(ledger).asset_id(),
            final(ledger).total() == old(ledger).total(),
            release_transition(
                *old(self),
                *final(self),
                old(ledger)@,
                final(ledger)@,
                engagement_id,
                caller,
                now,
                r,
            ),
    {
        let record = match self.get(engagement_id) {
            Err(err) => {
                return Err(err);
            },
            Ok(record) => record,
        };
        match release_step(&record, caller, self.custody, now) {
            Err(err) => Err(err),
            Ok((updated, movement)) => {
                match ledger.transfer(movement.from, movement.to, movement.amount) {
                    Err(err) => Err(err),
                    Ok(()) => {
                        let n = self.escrows.len();
                        proof {
                            assert(engagement_id - 1 < n);
                        }
                        self.escrows.set((engagement_id - 1) as usize, updated);
                        Ok(())
                    },
                }
            },
        }
    }

    /// Return the escrow stored under `engagement_id` to its client: only
    /// the client (`caller`) may reclaim, only while the escrow is funded,
    /// and only once the deadline has passed.  Moves the amount from custody
    /// back to the client on `ledger`, marks the record refunded, publishes
    /// a `Reclaimed` notification, and returns `true`.
    pub fn reclaim(
        &mut self,
        engagement_id: u64,
        caller: Address,
        ledger: &mut Ledger,
        now: u64,
    ) -> (r: Result<bool, Error>)
        requires
            old(self).wf(),
            old(ledger).wf(),
        ensures
            final(self).wf(),
            final(ledger).wf(),
            final(ledger).asset_id() == old(ledger).asset_id(),
            final(ledger).total() == old(ledger).total(),
            reclaim_transition(
                *old(self),
                *final(self),
                old(ledger)@,
                final(ledger)@,
                engagement_id,
                caller,
                now,
                r,
            ),
    {
        let record = match self.get(engagement_id) {
            Err(err) => {
                return Err(err);
            },
            Ok(record) => record,
        };
        match reclaim_step(&record, engagement_id, caller, self.custody, now) {
            Err(err) => Err(err),
            Ok((updated, movement, note)) => {
                match ledger.transfer(movement.from, movement.to, movement.amount) {
                    Err(err) => Err(err),
                    Ok(()) => {
                        let n = self.escrows.len();
                        proof {
                            assert(engagement_id - 1 < n);
                        }
                        self.escrows.set((engagement_id - 1) as usize, updated);
                        self.events.push(EscrowEvent::Reclaimed(note));
                        Ok(true)
                    },
                }
            },
        }
    }
}

/// Some engine operation — whichever one, with whatever arguments — relates
/// `pre`/`pre_led` to `post`/`post_led`.
pub open spec fn engine_step(
    pre: EscrowContract,
    post: EscrowContract,
    pre_led: Map<Address, int>,
    post_led: Map<Address, int>,
) -> bool {
    ||| ((exists|client: Address, artisan: Address, asset: Address, amount: i128, deadline: u64, r: Result<u64, Error>|
        initialize_transition(pre, post, client, artisan, asset, amount, deadline, r))
        && post_led == pre_led)
    ||| (exists|id: u64, now: u64, r: Result<(), Error>|
        deposit_transition(pre, post, pre_led, post_led, id, now, r))
    ||| (exists|id: u64, caller: Address, now: u64, r: Result<(), Error>|
        release_transition(pre, post, pre_led, post_led, id, caller, now, r))
    ||| (exists|id: u64, caller: Address, now: u64, r: Result<bool, Error>|
        reclaim_transition(pre, post, pre_led, post_led, id, caller, now, r))
}

/// Law: ids are unique and strictly increasing.  Two consecutive successful
/// initializations hand out ids in strictly increasing order.
pub proof fn lemma_initialize_ids_strictly_increase(
    s0: EscrowContract,
    s1: EscrowContract,
    s2: EscrowContract,
    client1: Address,
    artisan1: Address,
    asset1: Address,
    amount1: i128,
    deadline1: u64,
    id1: u64,
    client2: Address,
    artisan2: Address,
    asset2: Address,
    amount2: i128,
    deadline2: u64,
    id2: u64,
)
    requires
        initialize_transition(s0, s1, client1, artisan1, asset1, amount1, deadline1, Ok(id1)),
        initialize_transition(s1, s2, client2, artisan2, asset2, amount2, deadline2, Ok(id2)),
    ensures
        id1 < id2,
{
}

/// Law: ids are never reused.  A successful initialization hands out an id
/// strictly above every id already in use.
pub proof fn lemma_initialize_id_fresh(
    s0: EscrowContract,
    s1: EscrowContract,
    client: Address,
    artisan: Address,
    asset: Address,
    amount: i128,
    deadline: u64,
    id: u64,
)
    requires
        s0.wf(),
        initialize_transition(s0, s1, client, artisan, asset, amount, deadline, Ok(id)),
    ensures
        forall|k: u64| #[trigger] s0.has_escrow(k) ==> k < id,
{
}

/// Law: status is monotonic.  No engine operation moves an escrow's status
/// against the `Pending → Funded → {Released, Refunded}` order, and every
/// escrow enters the store as `Pending`.
pub proof fn lemma_status_monotonic(
    pre: EscrowContract,
    post: EscrowContract,
    pre_led: Map<Address, int>,
    post_led: Map<Address, int>,
    id: u64,
)
    requires
        engine_step(pre, post, pre_led, post_led),
    ensures
        pre.has_escrow(id) ==> post.has_escrow(id) && status_step_ok(
            pre.escrow_at(id).status,
            post.escrow_at(id).status,
        ),
        post.has_escrow(id) && !pre.has_escrow(id) ==> post.escrow_at(id).status
            == Status::Pending,
{
}

/// Law: the idempotent guard for `release`.  Once a release has succeeded, a
/// second release of the same escrow within the deadline window fails with
/// `StateError` and changes nothing.
pub proof fn lemma_release_once(
    pre: EscrowContract,
    mid: EscrowContract,
    post: EscrowContract,
    led0: Map<Address, int>,
    led1: Map<Address, int>,
    led2: Map<Address, int>,
    led3: Map<Address, int>,
    id: u64,
    caller: Address,
    now1: u64,
    now2: u64,
    r2: Result<(), Error>,
)
    requires
        release_transition(pre, mid, led0, led1, id, caller, now1, Ok(())),
        release_transition(mid, post, led2, led3, id, caller, now2, r2),
        now2 <= pre.escrow_at(id).deadline,
    ensures
        r2 == Err::<(), Error>(Error::StateError),
        post.state_eq(mid),
        led3 == led2,
{
}

/// Law: the idempotent guard for `reclaim`.  Once a reclaim has succeeded, a
/// second reclaim of the same escrow fails with `StateError`, at any time,
/// and changes nothing.
pub proof fn lemma_reclaim_once(
    pre: EscrowContract,
    mid: EscrowContract,
    post: EscrowContract,
    led0: Map<Address, int>,
    led1: Map<Address, int>,
    led2: Map<Address, int>,
    led3: Map<Address, int>,
    id: u64,
    caller: Address,
    now1: u64,
    now2: u64,
    r2: Result<bool, Error>,
)
    requires
        reclaim_transition(pre, mid, led0, led1, id, caller, now1, Ok(true)),
        reclaim_transition(mid, post, led2, led3, id, caller, now2, r2),
    ensures
        r2 == Err::<bool, Error>(Error::StateError),
        post.state_eq(mid),
        led3 == led2,
{
}

} // verus!
