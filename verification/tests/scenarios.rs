//! End-to-end scenarios over one engagement, ledger edge cases, and the
//! notification contents.

use artisan_escrow::{
    Address, EngagementInitializedEvent, Error, EscrowContract, EscrowEvent, Ledger,
    ReclaimedEvent, Status,
};

fn custody() -> Address {
    Address(9000)
}

fn asset_x() -> Address {
    Address(7000)
}

#[test]
fn test_scenario_deposit_then_release() {
    let client = Address(1);
    let artisan = Address(2);
    let t: u64 = 1000;

    let mut contract = EscrowContract::new(custody());
    let mut ledger = Ledger::new(asset_x());
    ledger.mint(client, 500).unwrap();

    let id = contract.initialize(client, artisan, asset_x(), 500, t + 86400).unwrap();
    assert_eq!(id, 1);
    assert_eq!(contract.get(1).unwrap().status, Status::Pending);

    contract.deposit(1, &mut ledger, t).unwrap();
    assert_eq!(ledger.balance(custody()), 500);
    assert_eq!(contract.get(1).unwrap().status, Status::Funded);

    contract.release(1, client, &mut ledger, t + 100).unwrap();
    assert_eq!(ledger.balance(artisan), 500);
    assert_eq!(ledger.balance(custody()), 0);
    assert_eq!(contract.get(1).unwrap().status, Status::Released);

    let second = contract.release(1, client, &mut ledger, t + 100);
    assert_eq!(second, Err(Error::StateError));
}

#[test]
fn test_scenario_deadline_passes_then_reclaim() {
    let client = Address(1);
    let artisan = Address(2);
    let t: u64 = 1000;

    let mut contract = EscrowContract::new(custody());
    let mut ledger = Ledger::new(asset_x());
    ledger.mint(client, 500).unwrap();

    let id = contract.initialize(client, artisan, asset_x(), 500, t + 86400).unwrap();
    assert_eq!(id, 1);
    contract.deposit(1, &mut ledger, t).unwrap();

    // Before the deadline the client cannot reclaim.
    let early = contract.reclaim(1, client, &mut ledger, t + 86399);
    assert_eq!(early, Err(Error::DeadlineError));

    // Once the deadline has passed the reclaim goes through.
    let done = contract.reclaim(1, client, &mut ledger, t + 86401).unwrap();
    assert!(done);
    assert_eq!(ledger.balance(client), 500);
    assert_eq!(ledger.balance(custody()), 0);
    assert_eq!(contract.get(1).unwrap().status, Status::Refunded);
}

#[test]
fn test_scenario_rejected_initialization_writes_nothing() {
    let client = Address(1);

    let mut contract = EscrowContract::new(custody());

    // Client and artisan coincide: rejected before any state write.
    let r = contract.initialize(client, client, asset_x(), 500, 86400);
    assert_eq!(r, Err(Error::ValidationError));
    assert_eq!(contract.next_id(), 1);
    assert_eq!(contract.get(1), Err(Error::NotFoundError));
    assert_eq!(contract.events().len(), 0);
}

#[test]
fn test_deposit_insufficient_balance() {
    let client = Address(1);
    let artisan = Address(2);

    let mut contract = EscrowContract::new(custody());
    let mut ledger = Ledger::new(asset_x());
    ledger.mint(client, 100).unwrap();

    let id = contract.initialize(client, artisan, asset_x(), 500, 86400).unwrap();

    // The ledger refuses to move more than the client holds; the whole
    // operation aborts with no state change.
    let r = contract.deposit(id, &mut ledger, 0);
    assert_eq!(r, Err(Error::TransferError));
    assert_eq!(ledger.balance(client), 100);
    assert_eq!(ledger.balance(custody()), 0);
    assert_eq!(contract.get(id).unwrap().status, Status::Pending);
}

#[test]
fn test_operations_on_unknown_id() {
    let client = Address(1);

    let mut contract = EscrowContract::new(custody());
    let mut ledger = Ledger::new(asset_x());

    assert_eq!(contract.get(7), Err(Error::NotFoundError));
    assert_eq!(contract.deposit(7, &mut ledger, 0), Err(Error::NotFoundError));
    assert_eq!(contract.release(7, client, &mut ledger, 0), Err(Error::NotFoundError));
    assert_eq!(contract.reclaim(7, client, &mut ledger, 0), Err(Error::NotFoundError));
    assert_eq!(contract.get(0), Err(Error::NotFoundError));
}

#[test]
fn test_only_client_can_release() {
    let client = Address(1);
    let artisan = Address(2);

    let mut contract = EscrowContract::new(custody());
    let mut ledger = Ledger::new(asset_x());
    ledger.mint(client, 500).unwrap();

    let id = contract.initialize(client, artisan, asset_x(), 500, 86400).unwrap();
    contract.deposit(id, &mut ledger, 0).unwrap();

    // Neither the artisan nor a stranger may release.
    assert_eq!(contract.release(id, artisan, &mut ledger, 0), Err(Error::AuthorizationError));
    assert_eq!(contract.release(id, Address(3), &mut ledger, 0), Err(Error::AuthorizationError));
    assert_eq!(contract.get(id).unwrap().status, Status::Funded);
}

#[test]
fn test_ids_strictly_increase() {
    let mut contract = EscrowContract::new(custody());

    let id1 = contract.initialize(Address(1), Address(2), asset_x(), 10, 100).unwrap();
    // A failed initialization does not consume an id.
    let bad = contract.initialize(Address(3), Address(3), asset_x(), 10, 100);
    assert_eq!(bad, Err(Error::ValidationError));
    let id2 = contract.initialize(Address(3), Address(4), asset_x(), 20, 200).unwrap();
    let id3 = contract.initialize(Address(1), Address(4), asset_x(), 30, 300).unwrap();

    assert_eq!(id1, 1);
    assert_eq!(id2, 2);
    assert_eq!(id3, 3);
    assert!(id1 < id2 && id2 < id3);
    assert_eq!(contract.next_id(), 4);
}

#[test]
fn test_event_contents() {
    let client = Address(1);
    let artisan = Address(2);

    let mut contract = EscrowContract::new(custody());
    let mut ledger = Ledger::new(asset_x());
    ledger.mint(client, 500).unwrap();

    contract.initialize(client, artisan, asset_x(), 500, 1000).unwrap();
    contract.deposit(1, &mut ledger, 1000).unwrap();
    contract.reclaim(1, client, &mut ledger, 1500).unwrap();

    let events = contract.events();
    assert_eq!(events.len(), 2);
    assert_eq!(
        events[0],
        EscrowEvent::Initialized(EngagementInitializedEvent { id: 1, client, artisan })
    );
    assert_eq!(
        events[1],
        EscrowEvent::Reclaimed(ReclaimedEvent { id: 1, client, amount: 500, timestamp: 1500 })
    );
}

#[test]
fn test_conservation_across_operations() {
    let client = Address(1);
    let artisan = Address(2);

    let mut contract = EscrowContract::new(custody());
    let mut ledger = Ledger::new(asset_x());
    ledger.mint(client, 800).unwrap();

    let sum = |l: &Ledger| l.balance(Address(1)) + l.balance(Address(2)) + l.balance(custody());

    let id = contract.initialize(client, artisan, asset_x(), 500, 86400).unwrap();
    assert_eq!(sum(&ledger), 800);
    contract.deposit(id, &mut ledger, 0).unwrap();
    assert_eq!(sum(&ledger), 800);
    contract.release(id, client, &mut ledger, 0).unwrap();
    assert_eq!(sum(&ledger), 800);
    assert_eq!(ledger.balance(client), 300);
    assert_eq!(ledger.balance(artisan), 500);
}

#[test]
fn test_ledger_transfer_rules() {
    let mut ledger = Ledger::new(asset_x());
    assert_eq!(ledger.asset(), asset_x());

    ledger.mint(Address(1), 100).unwrap();

    // Moving more than the sender holds fails and moves nothing.
    assert_eq!(ledger.transfer(Address(1), Address(2), 101), Err(Error::TransferError));
    assert_eq!(ledger.balance(Address(1)), 100);
    assert_eq!(ledger.balance(Address(2)), 0);

    // Negative amounts are refused.
    assert_eq!(ledger.transfer(Address(1), Address(2), -1), Err(Error::TransferError));

    // An exact-balance move drains the sender.
    ledger.transfer(Address(1), Address(2), 100).unwrap();
    assert_eq!(ledger.balance(Address(1)), 0);
    assert_eq!(ledger.balance(Address(2)), 100);

    // A sender with no balance cannot move anything.
    assert_eq!(ledger.transfer(Address(3), Address(2), 1), Err(Error::TransferError));
}

#[test]
fn test_ledger_mint_rules() {
    let mut ledger = Ledger::new(asset_x());

    assert_eq!(ledger.mint(Address(1), -5), Err(Error::TransferError));
    ledger.mint(Address(1), i128::MAX).unwrap();

    // The grand total cannot leave the balance type's range.
    assert_eq!(ledger.mint(Address(2), 1), Err(Error::TransferError));
    assert_eq!(ledger.balance(Address(2)), 0);
}
