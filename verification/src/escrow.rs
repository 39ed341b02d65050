use vstd::prelude::*;

use crate::address::Address;
use crate::errors::Error;

verus! {

/// Lifecycle stage of an escrow.
///
/// `Disputed` is reserved: no operation ever enters or leaves it.
#[derive(Clone, Copy, PartialEq, Eq, Structural, Debug)]
pub enum Status {
    Pending,
    Funded,
    Released,
    Refunded,
    Disputed,
}

/// The edges one operation may move an escrow's status along: stay put, fund
/// a pending escrow, or close a funded one by releasing or refunding.
/// `Released` and `Refunded` are terminal, and nothing ever moves backward.
pub open spec fn status_step_ok(before: Status, after: Status) -> bool {
    ||| before == after
    ||| (before == Status::Pending && after == Status::Funded)
    ||| (before == Status::Funded && (after == Status::Released || after == Status::Refunded))
}

/// One client-artisan payment agreement.  `amount` units of `asset` are owed
/// by `client` to `artisan` and move only as the status advances.
#[derive(Clone, Copy, PartialEq, Eq, Structural, Debug)]
pub struct Escrow {
    pub client: Address,
    pub artisan: Address,
    pub asset: Address,
    pub amount: i128,
    pub status: Status,
    pub deadline: u64,
}

/// What every stored escrow satisfies: a positive amount and two distinct
/// parties.
pub open spec fn valid_escrow(e: Escrow) -> bool {
    e.amount > 0 && e.client != e.artisan
}

/// Notification that an engagement was registered.
#[derive(Clone, Copy, PartialEq, Eq, Structural, Debug)]
pub struct EngagementInitializedEvent {
    pub id: u64,
    pub client: Address,
    pub artisan: Address,
}

/// Notification that a funded escrow was reclaimed by its client after the
/// deadline.
#[derive(Clone, Copy, PartialEq, Eq, Structural, Debug)]
pub struct ReclaimedEvent {
    pub id: u64,
    pub client: Address,
    pub amount: i128,
    pub timestamp: u64,
}

/// Everything the engine publishes on its notification channel.
#[derive(Clone, Copy, PartialEq, Eq, Structural, Debug)]
pub enum EscrowEvent {
    Initialized(EngagementInitializedEvent),
    Reclaimed(ReclaimedEvent),
}

/// The one value movement an operation asks the ledger for.
#[derive(Clone, Copy, PartialEq, Eq, Structural, Debug)]
pub struct Transfer {
    pub from: Address,
    pub to: Address,
    pub amount: i128,
}

/// Decide whether a new engagement between `client` and `artisan` is
/// acceptable, and build its record if so.  Registration needs no
/// authorization: funding, not registration, is the commitment point.
pub fn initialize_step(
    client: Address,
    artisan: Address,
    asset: Address,
    amount: i128,
    deadline: u64,
) -> (r: Result<Escrow, Error>)
    ensures
        (r is Ok) <==> (client != artisan && amount > 0),
        r matches Ok(e) ==> e == (Escrow {
            client,
            artisan,
            asset,
            amount,
            status: Status::Pending,
            deadline,
        }),
        r is Err ==> r == Err::<Escrow, Error>(Error::ValidationError),
{
    if client == artisan {
        return Err(Error::ValidationError);
    }
    if amount <= 0 {
        return Err(Error::ValidationError);
    }
    Ok(Escrow { client, artisan, asset, amount, status: Status::Pending, deadline })
}

/// Decide a deposit on `e` at time `now`: legal only before the deadline and
/// while the escrow is pending.  On success the record becomes funded and the
/// client owes the escrowed amount to `custody`.  The transfer itself is the
/// de facto authorization gate, so no caller is checked here.
pub fn deposit_step(e: &Escrow, custody: Address, now: u64) -> (r: Result<(Escrow, Transfer), Error>)
    ensures
        (r is Ok) <==> (now <= e.deadline && e.status == Status::Pending),
        r matches Ok(p) ==> p.0 == (Escrow { status: Status::Funded, ..*e }) && p.1 == (Transfer {
            from: e.client,
            to: custody,
            amount: e.amount,
        }),
        now > e.deadline ==> r == Err::<(Escrow, Transfer), Error>(Error::DeadlineError),
        now <= e.deadline && e.status != Status::Pending ==> r == Err::<(Escrow, Transfer), Error>(
            Error::StateError,
        ),
{
    if now > e.deadline {
        return Err(Error::DeadlineError);
    }
    if e.status != Status::Pending {
        return Err(Error::StateError);
    }
    let funded = Escrow { status: Status::Funded, ..*e };
    let movement = Transfer { from: e.client, to: custody, amount: e.amount };
    Ok((funded, movement))
}

/// Decide a release of `e` at time `now` asked for by `caller`: only the
/// client may release, only before the deadline, and only while the escrow is
/// funded.  On success the record becomes released and `custody` owes the
/// escrowed amount to the artisan.
pub fn release_step(e: &Escrow, caller: Address, custody: Address, now: u64) -> (r: Result<
    (Escrow, Transfer),
    Error,
>)
    ensures
        (r is Ok) <==> (caller == e.client && now <= e.deadline && e.status == Status::Funded),
        r matches Ok(p) ==> p.0 == (Escrow { status: Status::Released, ..*e }) && p.1 == (Transfer {
            from: custody,
            to: e.artisan,
            amount: e.amount,
        }),
        caller != e.client ==> r == Err::<(Escrow, Transfer), Error>(Error::AuthorizationError),
        caller == e.client && now > e.deadline ==> r == Err::<(Escrow, Transfer), Error>(
            Error::DeadlineError,
        ),
        caller == e.client && now <= e.deadline && e.status != Status::Funded ==> r == Err::<
            (Escrow, Transfer),
            Error,
        >(Error::StateError),
{
    if caller != e.client {
        return Err(Error::AuthorizationError);
    }
    if now > e.deadline {
        return Err(Error::DeadlineError);
    }
    if e.status != Status::Funded {
        return Err(Error::StateError);
    }
    let released = Escrow { status: Status::Released, ..*e };
    let movement = Transfer { from: custody, to: e.artisan, amount: e.amount };
    Ok((released, movement))
}

/// Decide a reclaim of the escrow stored under `id` at time `now`, asked for
/// by `caller`: only the client may reclaim, only while the escrow is funded,
/// and only once the deadline has passed.  On success the record becomes
/// refunded, `custody` owes the amount back to the client, and a
/// [`ReclaimedEvent`] is due on the notification channel.
pub fn reclaim_step(e: &Escrow, id: u64, caller: Address, custody: Address, now: u64) -> (r: Result<
    (Escrow, Transfer, ReclaimedEvent),
    Error,
>)
    ensures
        (r is Ok) <==> (caller == e.client && e.status == Status::Funded && now > e.deadline),
        r matches Ok(p) ==> p.0 == (Escrow { status: Status::Refunded, ..*e }) && p.1 == (Transfer {
            from: custody,
            to: e.client,
            amount: e.amount,
        }) && p.2 == (ReclaimedEvent { id, client: e.client, amount: e.amount, timestamp: now }),
        caller != e.client ==> r == Err::<(Escrow, Transfer, ReclaimedEvent), Error>(
            Error::AuthorizationError,
        ),
        caller == e.client && e.status != Status::Funded ==> r == Err::<
            (Escrow, Transfer, ReclaimedEvent),
            Error,
        >(Error::StateError),
        caller == e.client && e.status == Status::Funded && now <= e.deadline ==> r == Err::<
            (Escrow, Transfer, ReclaimedEvent),
            Error,
        >(Error::DeadlineError),
{
    if caller != e.client {
        return Err(Error::AuthorizationError);
    }
    if e.status != Status::Funded {
        return Err(Error::StateError);
    }
    if now <= e.deadline {
        return Err(Error::DeadlineError);
    }
    let refunded = Escrow { status: Status::Refunded, ..*e };
    let movement = Transfer { from: custody, to: e.client, amount: e.amount };
    let note = ReclaimedEvent { id, client: e.client, amount: e.amount, timestamp: now };
    Ok((refunded, movement, note))
}

} // verus!
