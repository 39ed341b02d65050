use vstd::prelude::*;

use crate::address::Address;
use crate::errors::Error;

verus! {

/// Aggregated review data for one artisan: the star total over all reviews
/// and how many reviews there were.
#[derive(Clone, Copy, PartialEq, Eq, Structural, Debug)]
pub struct ReputationData {
    pub total_stars: u64,
    pub review_count: u64,
}

impl Default for ReputationData {
    /// An artisan nobody has reviewed yet: zero stars over zero reviews.
    fn default() -> (d: ReputationData)
        ensures
            d == (ReputationData { total_stars: 0, review_count: 0 }),
    {
        ReputationData { total_stars: 0, review_count: 0 }
    }
}

/// One stored row: the aggregated reviews of `user`.
#[derive(Clone, Copy, Debug)]
struct ReputationEntry {
    user: Address,
    data: ReputationData,
}

/// The data the rows assign to `user`; users without a row have the default.
spec fn rep_of(rows: Seq<ReputationEntry>, user: Address) -> ReputationData
    decreases rows.len(),
{
    if rows.len() == 0 {
        ReputationData { total_stars: 0, review_count: 0 }
    } else if rows.last().user == user {
        rows.last().data
    } else {
        rep_of(rows.drop_last(), user)
    }
}

spec fn users_unique(rows: Seq<ReputationEntry>) -> bool {
    forall|i: int, j: int|
        #![trigger rows[i].user, rows[j].user]
        0 <= i < j < rows.len() ==> rows[i].user != rows[j].user
}

proof fn lemma_rep_update(rows: Seq<ReputationEntry>, i: int, v: ReputationEntry, user: Address)
    requires
        users_unique(rows),
        0 <= i < rows.len(),
        rows[i].user == v.user,
    ensures
        rep_of(rows.update(i, v), user) == if user == v.user {
            v.data
        } else {
            rep_of(rows, user)
        },
    decreases rows.len(),
{
    let n = rows.len() - 1;
    if i == n {
        assert(rows.update(i, v).drop_last() =~= rows.drop_last());
    } else {
        assert(rows.update(i, v).drop_last() =~= rows.drop_last().update(i, v));
        lemma_rep_update(rows.drop_last(), i, v, user);
    }
}

proof fn lemma_rep_push(rows: Seq<ReputationEntry>, v: ReputationEntry, user: Address)
    ensures
        rep_of(rows.push(v), user) == if user == v.user {
            v.data
        } else {
            rep_of(rows, user)
        },
{
    assert(rows.push(v).drop_last() =~= rows);
}

proof fn lemma_rep_absent(rows: Seq<ReputationEntry>, user: Address)
    requires
        forall|j: int| 0 <= j < rows.len() ==> (#[trigger] rows[j].user) != user,
    ensures
        rep_of(rows, user) == (ReputationData { total_stars: 0, review_count: 0 }),
    decreases rows.len(),
{
    if rows.len() > 0 {
        lemma_rep_absent(rows.drop_last(), user);
    }
}

proof fn lemma_rep_at(rows: Seq<ReputationEntry>, i: int, user: Address)
    requires
        users_unique(rows),
        0 <= i < rows.len(),
        rows[i].user == user,
    ensures
        rep_of(rows, user) == rows[i].data,
    decreases rows.len(),
{
    let n = rows.len() - 1;
    if i < n {
        assert(rows.drop_last()[i] == rows[i]);
        lemma_rep_at(rows.drop_last(), i, user);
    }
}

/// The reputation book: aggregated review data per artisan, kept by the
/// host's durable store in a deployment and held here as explicit state.
pub struct ReputationContract {
    rows: Vec<ReputationEntry>,
}

impl View for ReputationContract {
    type V = Map<Address, ReputationData>;

    /// Viewed as the total map from user to aggregated data; users nobody
    /// has reviewed map to the default.
    closed spec fn view(&self) -> Map<Address, ReputationData> {
        Map::new(|a: Address| true, |a: Address| rep_of(self.rows@, a))
    }
}

impl ReputationContract {
    /// Internal consistency: at most one row per user.
    pub closed spec fn wf(&self) -> bool {
        users_unique(self.rows@)
    }

    /// An empty book: every user reads as unreviewed.
    pub fn new() -> (c: ReputationContract)
        ensures
            c.wf(),
            forall|a: Address| c@[a] == (ReputationData { total_stars: 0, review_count: 0 }),
    {
        let c = ReputationContract { rows: Vec::new() };
        proof {
            assert(forall|a: Address|
                rep_of(c.rows@, a) == (ReputationData { total_stars: 0, review_count: 0 }));
        }
        c
    }

    fn find(&self, user: Address) -> (r: Option<usize>)
        ensures
            match r {
                Some(i) => i < self.rows.len() && self.rows@[i as int].user == user,
                None => forall|j: int|
                    0 <= j < self.rows@.len() ==> (#[trigger] self.rows@[j].user) != user,
            },
    {
        let n = self.rows.len();
        let mut k: usize = 0;
        while k < n
            invariant
                k <= n,
                n == self.rows.len(),
                forall|j: int| 0 <= j < k ==> (#[trigger] self.rows@[j].user) != user,
            decreases n - k,
        {
            if self.rows[k].user == user {
                return Some(k);
            }
            k = k + 1;
        }
        None
    }

    /// Get the aggregated review data for `user`.
    pub fn get_reputation(&self, user: Address) -> (r: ReputationData)
        requires
            self.wf(),
        ensures
            r == self@[user],
    {
        read_reputation(self, user)
    }

    /// Overwrite the aggregated review data for `user`.
    pub fn set_reputation(&mut self, user: Address, data: ReputationData)
        requires
            old(self).wf(),
        ensures
            final(self).wf(),
            final(self)@ == old(self)@.insert(user, data),
    {
        write_reputation(self, user, data)
    }

    /// Record one review of `artisan`: add `stars` — from one to five — to
    /// the artisan's total and count the review.  Out-of-range stars, or
    /// totals that would leave their counters' range, are refused and
    /// nothing changes.
    pub fn rate_artisan(&mut self, artisan: Address, stars: u32) -> (r: Result<(), Error>)
        requires
            old(self).wf(),
        ensures
            final(self).wf(),
            (r is Ok) <==> (1 <= stars <= 5 && old(self)@[artisan].total_stars + stars
                <= u64::MAX && old(self)@[artisan].review_count < u64::MAX),
            r is Ok ==> final(self)@ == old(self)@.insert(
                artisan,
                (ReputationData {
                    total_stars: (old(self)@[artisan].total_stars + stars) as u64,
                    review_count: (old(self)@[artisan].review_count + 1) as u64,
                }),
            ),
            r is Err ==> r == Err::<(), Error>(Error::ValidationError),
            r is Err ==> final(self)@ == old(self)@,
    {
        if stars < 1 || stars > 5 {
            return Err(Error::ValidationError);
        }
        let found = self.get_reputation(artisan);
        let total_stars = match found.total_stars.checked_add(stars as u64) {
            None => {
                return Err(Error::ValidationError);
            },
            Some(t) => t,
        };
        let review_count = match found.review_count.checked_add(1) {
            None => {
                return Err(Error::ValidationError);
            },
            Some(c) => c,
        };
        self.set_reputation(artisan, ReputationData { total_stars, review_count });
        Ok(())
    }
}

/// Read the aggregated review data the book holds for `user`; users without
/// any data read as the default.
pub fn read_reputation(book: &ReputationContract, user: Address) -> (r: ReputationData)
    requires
        book.wf(),
    ensures
        r == book@[user],
{
    match book.find(user) {
        Some(i) => {
            proof {
                lemma_rep_at(book.rows@, i as int, user);
            }
            book.rows[i].data
        },
        None => {
            proof {
                lemma_rep_absent(book.rows@, user);
            }
            ReputationData { total_stars: 0, review_count: 0 }
        },
    }
}

/// Write the aggregated review data the book holds for `user`.
pub fn write_reputation(book: &mut ReputationContract, user: Address, data: ReputationData)
    requires
        old(book).wf(),
    ensures
        final(book).wf(),
        final(book)@ == old(book)@.insert(user, data),
{
    let ghost rows0 = book.rows@;
    let row = ReputationEntry { user, data };
    match book.find(user) {
        Some(i) => {
            book.rows.set(i, row);
            proof {
                assert forall|a: Address|
                    rep_of(book.rows@, a) == old(book)@.insert(user, data)[a] by {
                    lemma_rep_update(rows0, i as int, row, a);
                }
                assert(book@ =~= old(book)@.insert(user, data));
            }
        },
        None => {
            book.rows.push(row);
            proof {
                assert forall|a: Address|
                    rep_of(book.rows@, a) == old(book)@.insert(user, data)[a] by {
                    lemma_rep_push(rows0, row, a);
                }
                assert(book@ =~= old(book)@.insert(user, data));
                assert forall|i: int, j: int|
                    #![trigger book.rows@[i].user, book.rows@[j].user]
                    0 <= i < j < book.rows@.len() implies book.rows@[i].user
                    != book.rows@[j].user by {
                    if j == book.rows@.len() - 1 {
                        assert(rows0[i].user != user);
                    }
                }
            }
        },
    }
}

} // verus!
