//! The books of one campaign over its whole life: the campaign's record, its
//! pooled balance and every contributor's record, and what holds of them
//! after any sequence of requests in any order.
//!
//! The books are a model: nothing here runs. Each request is answered by
//! the operation of the escrow state machine, on the context that the books
//! give it.

use vstd::prelude::*;
use crate::campaign::{Campaign, Status};
use crate::contribution::{recorded_amount, Contribution};
use crate::escrow::{Donate, Refund, Withdraw};
use crate::identity::Identity;

verus! {

/// All that is kept for one campaign, and the sums of what has left it.
pub struct Books {
    /// The address of the campaign.
    pub key: Identity,
    pub campaign: Campaign,
    /// The pooled balance, reserve included.
    pub balance: u64,
    /// The least balance that the record store demands for the campaign.
    pub reserve_minimum: u64,
    /// The open contribution records, by contributor.
    pub records: Map<Identity, Contribution>,
    /// The balance that the pool was opened with.
    pub opening_balance: u64,
    /// All that withdrawals have paid out so far.
    pub withdrawn: nat,
    /// All that refunds have paid back so far.
    pub refunded: nat,
    /// The latest instant at which a donation or a refund was asked for.
    pub clock: i64,
}

/// One request to the ledger, with what the requesting party holds outside
/// of it.
pub enum Request {
    Donate { user: Identity, user_balance: u64, amount: u64, now: i64 },
    Withdraw { caller: Identity, caller_balance: u64, amount: u64 },
    Refund { user: Identity, user_balance: u64, record_reservation: u64, now: i64 },
}

/// The sum of all stakes on record.
pub open spec fn staked(records: Map<Identity, Contribution>) -> nat
    decreases records.dom().len(),
    when records.dom().finite()
{
    if records.dom().is_empty() {
        0
    } else {
        let who = records.dom().choose();
        records[who].amount as nat + staked(records.remove(who))
    }
}

/// The records with one contributor's slot replaced.
pub open spec fn with_slot(
    records: Map<Identity, Contribution>,
    user: Identity,
    slot: Option<Contribution>,
) -> Map<Identity, Contribution> {
    match slot {
        Some(record) => records.insert(user, record),
        None => records.remove(user),
    }
}

/// The later of two instants.
pub open spec fn later_of(a: i64, b: i64) -> i64 {
    if a >= b {
        a
    } else {
        b
    }
}

impl Request {
    /// The request does not come from the past: its instant, if it has
    /// one, is no earlier than the last one that the books have seen.
    pub open spec fn timely(self, books: Books) -> bool {
        match self {
            Request::Donate { now, .. } => now >= books.clock,
            Request::Withdraw { .. } => true,
            Request::Refund { now, .. } => now >= books.clock,
        }
    }
}

impl Books {
    /// The books of a campaign that has just been created at the instant
    /// `now`: no record is open, and nothing has left the pool.
    pub open spec fn opened(
        key: Identity,
        campaign: Campaign,
        balance: u64,
        reserve_minimum: u64,
        now: i64,
    ) -> Books {
        Books {
            key,
            campaign,
            balance,
            reserve_minimum,
            records: Map::empty(),
            opening_balance: balance,
            withdrawn: 0,
            refunded: 0,
            clock: now,
        }
    }

    /// A contributor's slot: the open record, if there is one.
    pub open spec fn slot(self, user: Identity) -> Option<Contribution> {
        if self.records.dom().contains(user) {
            Some(self.records[user])
        } else {
            None
        }
    }

    /// What a donation by `user` works on.
    pub open spec fn donation(self, user: Identity, user_balance: u64) -> Donate {
        Donate {
            campaign_key: self.key,
            campaign: self.campaign,
            campaign_balance: self.balance,
            contributor_record: self.slot(user),
            user,
            user_balance,
        }
    }

    /// What a withdrawal by `caller` works on.
    pub open spec fn withdrawal(self, caller: Identity, caller_balance: u64) -> Withdraw {
        Withdraw {
            campaign: self.campaign,
            campaign_balance: self.balance,
            reserve_minimum: self.reserve_minimum,
            admin: caller,
            admin_balance: caller_balance,
        }
    }

    /// What a refund to `user` works on.
    pub open spec fn refunding(
        self,
        user: Identity,
        user_balance: u64,
        record_reservation: u64,
    ) -> Refund {
        Refund {
            campaign: self.campaign,
            campaign_balance: self.balance,
            contributor_record: self.slot(user),
            record_reservation,
            user,
            user_balance,
        }
    }

    /// The books after one request, accepted or not.
    pub open spec fn step(self, request: Request) -> Books {
        match request {
            Request::Donate { user, user_balance, amount, now } => {
                let after = self.donation(user, user_balance).after(amount, now);
                Books {
                    campaign: after.campaign,
                    balance: after.campaign_balance,
                    records: with_slot(self.records, user, after.contributor_record),
                    clock: later_of(self.clock, now),
                    ..self
                }
            },
            Request::Withdraw { caller, caller_balance, amount } => {
                let before = self.withdrawal(caller, caller_balance);
                Books {
                    campaign: before.after(amount).campaign,
                    balance: before.after(amount).campaign_balance,
                    withdrawn: if before.outcome(amount) is Ok {
                        self.withdrawn + amount as nat
                    } else {
                        self.withdrawn
                    },
                    ..self
                }
            },
            Request::Refund { user, user_balance, record_reservation, now } => {
                let before = self.refunding(user, user_balance, record_reservation);
                Books {
                    campaign: before.after(now).campaign,
                    balance: before.after(now).campaign_balance,
                    records: with_slot(self.records, user, before.after(now).contributor_record),
                    refunded: if before.outcome(now) is Ok {
                        self.refunded + recorded_amount(self.slot(user))
                    } else {
                        self.refunded
                    },
                    clock: later_of(self.clock, now),
                    ..self
                }
            },
        }
    }

    /// The books after a sequence of requests, first to last.
    pub open spec fn run(self, requests: Seq<Request>) -> Books
        decreases requests.len(),
    {
        if requests.len() == 0 {
            self
        } else {
            self.run(requests.drop_last()).step(requests.last())
        }
    }

    /// Every request of the sequence is timely when its turn comes.
    pub open spec fn in_order(self, requests: Seq<Request>) -> bool
        decreases requests.len(),
    {
        requests.len() > 0 ==> self.in_order(requests.drop_last()) && requests.last().timely(
            self.run(requests.drop_last()),
        )
    }

    /// The books balance.
    ///
    /// Finitely many records are open. The running total of donations is
    /// what is still staked and what has been refunded. The pool holds what
    /// it was opened with and all donations, less what has been withdrawn
    /// and refunded. The pool was opened with its reserve and still holds
    /// it. Nothing has been withdrawn unless the target is met.
    pub open spec fn sound(self) -> bool {
        &&& self.records.dom().finite()
        &&& self.campaign.amount_donated == staked(self.records) + self.refunded
        &&& self.balance + self.withdrawn + self.refunded == self.opening_balance
            + self.campaign.amount_donated
        &&& self.opening_balance >= self.reserve_minimum
        &&& self.balance >= self.reserve_minimum
        &&& self.withdrawn > 0 ==> self.campaign.target_met()
    }

    /// The campaign goes one way only: if anything has been refunded, the
    /// deadline has passed with the target unmet, for good.
    pub open spec fn one_way(self) -> bool {
        self.refunded > 0 ==> self.clock > self.campaign.deadline && !self.campaign.target_met()
    }
}

/// The sum of all stakes is one contributor's stake and the sum of the
/// others'.
pub proof fn staked_splits(records: Map<Identity, Contribution>, user: Identity)
    requires
        records.dom().finite(),
        records.dom().contains(user),
    ensures
        staked(records) == records[user].amount + staked(records.remove(user)),
    decreases records.dom().len(),
{
    let who = records.dom().choose();
    if who != user {
        staked_splits(records.remove(who), user);
        staked_splits(records.remove(user), who);
        assert(records.remove(who).remove(user) =~= records.remove(user).remove(who));
    }
}

/// Replacing one contributor's slot changes the sum of all stakes by the
/// change of that one stake.
pub proof fn staked_with_slot(books: Books, user: Identity, slot: Option<Contribution>)
    requires
        books.records.dom().finite(),
    ensures
        with_slot(books.records, user, slot).dom().finite(),
        staked(with_slot(books.records, user, slot)) + recorded_amount(books.slot(user)) == staked(
            books.records,
        ) + recorded_amount(slot),
{
    let records = books.records;
    if records.dom().contains(user) {
        staked_splits(records, user);
    } else {
        assert(records.remove(user) =~= records);
    }
    match slot {
        Some(record) => {
            staked_splits(records.insert(user, record), user);
            assert(records.insert(user, record).remove(user) =~= records.remove(user));
        },
        None => {},
    }
}

/// The books of a campaign that has just been created balance as soon as
/// the pool holds its reserve.
pub proof fn opened_books_are_sound(
    key: Identity,
    campaign: Campaign,
    balance: u64,
    reserve_minimum: u64,
    now: i64,
)
    requires
        campaign.amount_donated == 0,
        balance >= reserve_minimum,
    ensures
        Books::opened(key, campaign, balance, reserve_minimum, now).sound(),
        Books::opened(key, campaign, balance, reserve_minimum, now).one_way(),
{
}

/// Whatever is asked of books that balance, and whether it is accepted or
/// not, the books balance afterwards.
pub proof fn step_keeps_sound(books: Books, request: Request)
    requires
        books.sound(),
    ensures
        books.step(request).sound(),
{
    match request {
        Request::Donate { user, user_balance, amount, now } => {
            let after = books.donation(user, user_balance).after(amount, now);
            staked_with_slot(books, user, after.contributor_record);
        },
        Request::Withdraw { caller, caller_balance, amount } => {},
        Request::Refund { user, user_balance, record_reservation, now } => {
            let after = books.refunding(user, user_balance, record_reservation).after(now);
            staked_with_slot(books, user, after.contributor_record);
        },
    }
}

/// Books that balance still balance after any sequence of requests, in
/// whatever order they come.
pub proof fn run_keeps_sound(books: Books, requests: Seq<Request>)
    requires
        books.sound(),
    ensures
        books.run(requests).sound(),
    decreases requests.len(),
{
    if requests.len() > 0 {
        run_keeps_sound(books, requests.drop_last());
        step_keeps_sound(books.run(requests.drop_last()), requests.last());
    }
}

/// Over any sequence of requests the running total of donations never goes
/// down, and the campaign's administrator, texts, target and deadline, its
/// address and its reserve stay what they were.
pub proof fn run_keeps_terms_and_never_lowers_total(books: Books, requests: Seq<Request>)
    ensures
        books.run(requests).campaign.amount_donated >= books.campaign.amount_donated,
        books.run(requests).campaign == (Campaign {
            amount_donated: books.run(requests).campaign.amount_donated,
            ..books.campaign
        }),
        books.run(requests).key == books.key,
        books.run(requests).reserve_minimum == books.reserve_minimum,
        books.run(requests).opening_balance == books.opening_balance,
    decreases requests.len(),
{
    if requests.len() > 0 {
        run_keeps_terms_and_never_lowers_total(books, requests.drop_last());
    }
}

/// Once the target is met it stays met, so that from then on no refund is
/// ever accepted: what the administrator may withdraw can no longer be
/// reclaimed.
pub proof fn no_refund_once_target_met(
    books: Books,
    requests: Seq<Request>,
    user: Identity,
    user_balance: u64,
    record_reservation: u64,
    now: i64,
)
    requires
        books.campaign.target_met(),
    ensures
        books.run(requests).campaign.target_met(),
        books.run(requests).refunding(user, user_balance, record_reservation).outcome(now) is Err,
{
    run_keeps_terms_and_never_lowers_total(books, requests);
}

/// In books that balance the pool can always pay a refund that is due, and
/// holds its reserve afterwards: a refund that is due fails only where the
/// contributor's own balance could not hold the sum.
pub proof fn refund_is_covered(
    books: Books,
    user: Identity,
    user_balance: u64,
    record_reservation: u64,
    now: i64,
)
    requires
        books.sound(),
        books.campaign.status_at(now) == Status::ExpiredUnmet,
        recorded_amount(books.slot(user)) > 0,
    ensures
        books.balance >= books.reserve_minimum + recorded_amount(books.slot(user)),
        user_balance + recorded_amount(books.slot(user)) + record_reservation <= u64::MAX
            ==> books.refunding(user, user_balance, record_reservation).outcome(now) is Ok,
{
    staked_splits(books.records, user);
}

/// While requests come in the order of the clock, a campaign goes one way
/// only: one timely request leaves it so.
pub proof fn step_keeps_one_way(books: Books, request: Request)
    requires
        books.sound(),
        books.one_way(),
        request.timely(books),
    ensures
        books.step(request).one_way(),
{
}

/// While requests come in the order of the clock, a campaign never both
/// pays out to its administrator and refunds its contributors.
pub proof fn never_both_withdrawn_and_refunded(books: Books, requests: Seq<Request>)
    requires
        books.sound(),
        books.one_way(),
        books.in_order(requests),
    ensures
        books.run(requests).sound(),
        books.run(requests).one_way(),
        !(books.run(requests).withdrawn > 0 && books.run(requests).refunded > 0),
    decreases requests.len(),
{
    if requests.len() > 0 {
        never_both_withdrawn_and_refunded(books, requests.drop_last());
        step_keeps_sound(books.run(requests.drop_last()), requests.last());
        step_keeps_one_way(books.run(requests.drop_last()), requests.last());
    }
}

} // verus!
