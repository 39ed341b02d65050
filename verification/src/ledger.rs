use vstd::prelude::*;

use crate::address::Address;
use crate::errors::Error;

verus! {

/// One account row of a ledger: `owner` holds `amount` units.
#[derive(Clone, Copy, Debug)]
struct Account {
    owner: Address,
    amount: i128,
}

/// Units held across all rows.
spec fn total_of(rows: Seq<Account>) -> int
    decreases rows.len(),
{
    if rows.len() == 0 {
        0
    } else {
        total_of(rows.drop_last()) + rows.last().amount
    }
}

/// Units the rows assign to `who`; rows of other owners do not count.
spec fn holding(rows: Seq<Account>, who: Address) -> int
    decreases rows.len(),
{
    if rows.len() == 0 {
        0
    } else {
        holding(rows.drop_last(), who) + if rows.last().owner == who {
            rows.last().amount
        } else {
            0
        }
    }
}

spec fn owners_unique(rows: Seq<Account>) -> bool {
    forall|i: int, j: int|
        #![trigger rows[i].owner, rows[j].owner]
        0 <= i < j < rows.len() ==> rows[i].owner != rows[j].owner
}

spec fn rows_nonneg(rows: Seq<Account>) -> bool {
    forall|i: int| 0 <= i < rows.len() ==> #[trigger] rows[i].amount >= 0
}

proof fn lemma_total_update(rows: Seq<Account>, i: int, v: Account)
    requires
        0 <= i < rows.len(),
    ensures
        total_of(rows.update(i, v)) == total_of(rows) - rows[i].amount + v.amount,
    decreases rows.len(),
{
    let n = rows.len() - 1;
    if i == n {
        assert(rows.update(i, v).drop_last() =~= rows.drop_last());
    } else {
        assert(rows.update(i, v).drop_last() =~= rows.drop_last().update(i, v));
        lemma_total_update(rows.drop_last(), i, v);
    }
}

proof fn lemma_holding_update(rows: Seq<Account>, i: int, v: Account, who: Address)
    requires
        0 <= i < rows.len(),
    ensures
        holding(rows.update(i, v), who) == holding(rows, who) - (
        if rows[i].owner == who {
            rows[i].amount as int
        } else {
            0
        }) + (
        if v.owner == who {
            v.amount as int
        } else {
            0
        }),
    decreases rows.len(),
{
    let n = rows.len() - 1;
    if i == n {
        assert(rows.update(i, v).drop_last() =~= rows.drop_last());
    } else {
        assert(rows.update(i, v).drop_last() =~= rows.drop_last().update(i, v));
        lemma_holding_update(rows.drop_last(), i, v, who);
    }
}

proof fn lemma_total_push(rows: Seq<Account>, v: Account)
    ensures
        total_of(rows.push(v)) == total_of(rows) + v.amount,
{
    assert(rows.push(v).drop_last() =~= rows);
}

proof fn lemma_holding_push(rows: Seq<Account>, v: Account, who: Address)
    ensures
        holding(rows.push(v), who) == holding(rows, who) + (
        if v.owner == who {
            v.amount as int
        } else {
            0
        }),
{
    assert(rows.push(v).drop_last() =~= rows);
}

proof fn lemma_holding_absent(rows: Seq<Account>, who: Address)
    requires
        forall|j: int| 0 <= j < rows.len() ==> (#[trigger] rows[j].owner) != who,
    ensures
        holding(rows, who) == 0,
    decreases rows.len(),
{
    if rows.len() > 0 {
        lemma_holding_absent(rows.drop_last(), who);
    }
}

proof fn lemma_holding_at(rows: Seq<Account>, i: int, who: Address)
    requires
        owners_unique(rows),
        0 <= i < rows.len(),
        rows[i].owner == who,
    ensures
        holding(rows, who) == rows[i].amount,
    decreases rows.len(),
{
    let n = rows.len() - 1;
    if i == n {
        lemma_holding_absent(rows.drop_last(), who);
    } else {
        assert(rows.drop_last()[i] == rows[i]);
        lemma_holding_at(rows.drop_last(), i, who);
    }
}

proof fn lemma_holding_bounds(rows: Seq<Account>, who: Address)
    requires
        rows_nonneg(rows),
    ensures
        0 <= holding(rows, who) <= total_of(rows),
    decreases rows.len(),
{
    if rows.len() > 0 {
        assert(rows.last().amount >= 0);
        lemma_holding_bounds(rows.drop_last(), who);
    }
}

/// The mathematical effect of moving `amount` units from `from` to `to` on a
/// balance map: `from` pays, `to` receives, everybody else is untouched.
pub open spec fn transferred(m: Map<Address, int>, from: Address, to: Address, amount: int) -> Map<
    Address,
    int,
> {
    let paid = m.insert(from, m[from] - amount);
    paid.insert(to, paid[to] + amount)
}

/// A model of the value-transfer ledger for one asset: a balance for every
/// principal, non-negative throughout, whose grand total only `mint` may
/// change.  The engine moves escrowed value on a `Ledger` handed in by the
/// caller; a deployment on a host with a real token ledger performs the same
/// transfers there instead.
pub struct Ledger {
    asset: Address,
    rows: Vec<Account>,
    supply: i128,
}

impl View for Ledger {
    type V = Map<Address, int>;

    /// A `Ledger` is viewed as the total map from principal to balance;
    /// principals without a row hold zero.
    closed spec fn view(&self) -> Map<Address, int> {
        Map::new(|a: Address| true, |a: Address| holding(self.rows@, a))
    }
}

impl Ledger {
    /// Which asset this ledger keeps the balances of.
    pub closed spec fn asset_id(&self) -> Address {
        self.asset
    }

    /// Which asset this ledger keeps the balances of.
    pub fn asset(&self) -> (a: Address)
        ensures
            a == self.asset_id(),
    {
        self.asset
    }

    /// The grand total held across all principals.
    pub closed spec fn total(&self) -> int {
        total_of(self.rows@)
    }

    /// Internal consistency: one row per owner, no negative balance, and a
    /// grand total that fits the balance type.
    pub closed spec fn wf(&self) -> bool {
        &&& owners_unique(self.rows@)
        &&& rows_nonneg(self.rows@)
        &&& self.supply as int == total_of(self.rows@)
        &&& 0 <= total_of(self.rows@) <= i128::MAX
    }

    /// An empty ledger for `asset`: every balance is zero.
    pub fn new(asset: Address) -> (l: Ledger)
        ensures
            l.wf(),
            l.asset_id() == asset,
            l.total() == 0,
            forall|a: Address| l@[a] == 0,
    {
        let l = Ledger { asset, rows: Vec::new(), supply: 0 };
        proof {
            assert(forall|a: Address| holding(l.rows@, a) == 0);
        }
        l
    }

    fn find(&self, who: Address) -> (r: Option<usize>)
        ensures
            match r {
                Some(i) => i < self.rows.len() && self.rows@[i as int].owner == who,
                None => forall|j: int|
                    0 <= j < self.rows@.len() ==> (#[trigger] self.rows@[j].owner) != who,
            },
    {
        let n = self.rows.len();
        let mut k: usize = 0;
        while k < n
            invariant
                k <= n,
                n == self.rows.len(),
                forall|j: int| 0 <= j < k ==> (#[trigger] self.rows@[j].owner) != who,
            decreases n - k,
        {
            if self.rows[k].owner == who {
                return Some(k);
            }
            k = k + 1;
        }
        None
    }

    /// How many units of the asset `who` holds.
    pub fn balance(&self, who: Address) -> (r: i128)
        requires
            self.wf(),
        ensures
            r == self@[who],
    {
        match self.find(who) {
            Some(i) => {
                proof {
                    lemma_holding_at(self.rows@, i as int, who);
                }
                self.rows[i].amount
            },
            None => {
                proof {
                    lemma_holding_absent(self.rows@, who);
                }
                0
            },
        }
    }

    fn credit(&mut self, to: Address, amount: i128)
        requires
            old(self).wf(),
            amount >= 0,
            old(self).total() + amount <= i128::MAX,
        ensures
            final(self).wf(),
            final(self).asset_id() == old(self).asset_id(),
            final(self)@ == old(self)@.insert(to, old(self)@[to] + amount),
            final(self).total() == old(self).total() + amount,
    {
        let ghost rows0 = self.rows@;
        match self.find(to) {
            Some(i) => {
                proof {
                    lemma_holding_at(rows0, i as int, to);
                    lemma_holding_bounds(rows0, to);
                }
                let row = Account { owner: to, amount: self.rows[i].amount + amount };
                self.rows.set(i, row);
                self.supply = self.supply + amount;
                proof {
                    lemma_total_update(rows0, i as int, row);
                    assert forall|a: Address|
                        holding(self.rows@, a) == old(self)@.insert(to, old(self)@[to] + amount)[a] by {
                        lemma_holding_update(rows0, i as int, row, a);
                        lemma_holding_at(rows0, i as int, to);
                    }
                    assert(self@ =~= old(self)@.insert(to, old(self)@[to] + amount));
                }
            },
            None => {
                proof {
                    lemma_holding_absent(rows0, to);
                }
                let row = Account { owner: to, amount };
                self.rows.push(row);
                self.supply = self.supply + amount;
                proof {
                    lemma_total_push(rows0, row);
                    assert forall|a: Address|
                        holding(self.rows@, a) == old(self)@.insert(to, old(self)@[to] + amount)[a] by {
                        lemma_holding_push(rows0, row, a);
                        lemma_holding_absent(rows0, to);
                    }
                    assert(self@ =~= old(self)@.insert(to, old(self)@[to] + amount));
                    assert forall|i: int, j: int|
                        #![trigger self.rows@[i].owner, self.rows@[j].owner]
                        0 <= i < j < self.rows@.len() implies self.rows@[i].owner
                        != self.rows@[j].owner by {
                        if j == self.rows@.len() - 1 {
                            assert(rows0[i].owner != to);
                        }
                    }
                }
            },
        }
    }

    fn debit(&mut self, from: Address, amount: i128)
        requires
            old(self).wf(),
            amount >= 0,
            old(self)@[from] >= amount,
        ensures
            final(self).wf(),
            final(self).asset_id() == old(self).asset_id(),
            final(self)@ == old(self)@.insert(from, old(self)@[from] - amount),
            final(self).total() == old(self).total() - amount,
    {
        let ghost rows0 = self.rows@;
        match self.find(from) {
            Some(i) => {
                proof {
                    lemma_holding_at(rows0, i as int, from);
                    lemma_holding_bounds(rows0, from);
                }
                let row = Account { owner: from, amount: self.rows[i].amount - amount };
                self.rows.set(i, row);
                self.supply = self.supply - amount;
                proof {
                    lemma_total_update(rows0, i as int, row);
                    assert forall|a: Address|
                        holding(self.rows@, a) == old(self)@.insert(
                            from,
                            old(self)@[from] - amount,
                        )[a] by {
                        lemma_holding_update(rows0, i as int, row, a);
                        lemma_holding_at(rows0, i as int, from);
                    }
                    assert(self@ =~= old(self)@.insert(from, old(self)@[from] - amount));
                }
            },
            None => {
                proof {
                    lemma_holding_absent(rows0, from);
                    assert(amount == 0);
                    assert forall|a: Address|
                        holding(self.rows@, a) == old(self)@.insert(
                            from,
                            old(self)@[from] - amount,
                        )[a] by {
                        lemma_holding_absent(rows0, from);
                    }
                    assert(self@ =~= old(self)@.insert(from, old(self)@[from] - amount));
                }
            },
        }
    }

    /// Move `amount` units from `from` to `to`.  Fails, moving nothing, when
    /// the amount is negative or `from` does not hold it; the grand total is
    /// invariant either way.
    pub fn transfer(&mut self, from: Address, to: Address, amount: i128) -> (r: Result<(), Error>)
        requires
            old(self).wf(),
        ensures
            final(self).wf(),
            final(self).asset_id() == old(self).asset_id(),
            final(self).total() == old(self).total(),
            (r is Ok) <==> (amount >= 0 && old(self)@[from] >= amount),
            r is Ok ==> final(self)@ == transferred(old(self)@, from, to, amount as int),
            r is Err ==> r == Err::<(), Error>(Error::TransferError),
            r is Err ==> final(self)@ == old(self)@,
    {
        if amount < 0 {
            return Err(Error::TransferError);
        }
        let bal = self.balance(from);
        if bal < amount {
            return Err(Error::TransferError);
        }
        proof {
            lemma_holding_bounds(self.rows@, from);
        }
        self.debit(from, amount);
        self.credit(to, amount);
        proof {
            assert(self@ =~= transferred(old(self)@, from, to, amount as int));
        }
        Ok(())
    }

    /// Create `amount` fresh units in `to`'s balance.  Fails, creating
    /// nothing, when the amount is negative or the grand total would leave
    /// the balance type's range.
    pub fn mint(&mut self, to: Address, amount: i128) -> (r: Result<(), Error>)
        requires
            old(self).wf(),
        ensures
            final(self).wf(),
            final(self).asset_id() == old(self).asset_id(),
            (r is Ok) <==> (amount >= 0 && old(self).total() + amount <= i128::MAX),
            r is Ok ==> final(self)@ == old(self)@.insert(to, old(self)@[to] + amount),
            r is Ok ==> final(self).total() == old(self).total() + amount,
            r is Err ==> r == Err::<(), Error>(Error::TransferError),
            r is Err ==> final(self)@ == old(self)@ && final(self).total() == old(self).total(),
    {
        if amount < 0 {
            return Err(Error::TransferError);
        }
        if amount > i128::MAX - self.supply {
            return Err(Error::TransferError);
        }
        self.credit(to, amount);
        Ok(())
    }
}

} // verus!
