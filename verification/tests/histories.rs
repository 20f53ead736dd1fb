//! Long histories of requests in no particular order, replayed against
//! books that the test keeps itself: after every request the books must
//! balance.

use crowdfunding::contribution::recorded;
use crowdfunding::{
    create, donate, refund, withdraw, Campaign, Contribution, Create, Donate, ErrorCode,
    Identity, Refund, Withdraw,
};

const RESERVE: u64 = 1_000;
const PARTIES: usize = 5;

/// A small generator of numbers that look random and are the same on every
/// run.
struct Dice(u64);

impl Dice {
    fn roll(&mut self, sides: u64) -> u64 {
        self.0 = self.0.wrapping_mul(6364136223846793005).wrapping_add(1442695040888963407);
        (self.0 >> 33) % sides
    }
}

struct Books {
    campaign: Campaign,
    balance: u64,
    records: Vec<Option<Contribution>>,
    wallets: Vec<u64>,
    withdrawn: u64,
    refunded: u64,
    clock: i64,
}

fn party(i: usize) -> Identity {
    Identity::new([i as u8 + 1; 32])
}

fn open_books(target: u64, duration: i64) -> Books {
    let mut ctx = Create { campaign: None, user: party(0), bump: 255 };
    let made = create(
        &mut ctx,
        String::from("bridge"),
        String::from("over the river"),
        target,
        duration,
        0,
    );
    assert_eq!(made, Ok(()));
    Books {
        campaign: ctx.campaign.unwrap(),
        balance: RESERVE,
        records: vec![None; PARTIES],
        wallets: vec![10_000; PARTIES],
        withdrawn: 0,
        refunded: 0,
        clock: 0,
    }
}

fn staked(books: &Books) -> u64 {
    books.records.iter().map(recorded).sum()
}

fn check(books: &Books, held: u64) {
    let wallets: u64 = books.wallets.iter().sum();
    assert_eq!(books.balance + wallets, held);
    assert_eq!(books.campaign.amount_donated, staked(books) + books.refunded);
    assert_eq!(
        books.balance + books.withdrawn + books.refunded,
        RESERVE + books.campaign.amount_donated
    );
    assert!(books.balance >= RESERVE);
    if !books.campaign.is_target_met() {
        assert_eq!(books.withdrawn, 0);
        assert!(books.balance >= RESERVE + staked(books));
    }
    assert!(books.withdrawn == 0 || books.refunded == 0);
}

fn replay(seed: u64, target: u64, duration: i64, steps: usize) -> Books {
    let mut dice = Dice(seed);
    let mut books = open_books(target, duration);
    let held = RESERVE + 10_000 * PARTIES as u64;
    let mut last_total = 0;
    for _ in 0..steps {
        let who = dice.roll(PARTIES as u64) as usize;
        match dice.roll(3) {
            0 => {
                books.clock += dice.roll(4) as i64;
                let amount = dice.roll(400);
                let mut ctx = Donate {
                    campaign_key: party(9),
                    campaign: books.campaign.clone(),
                    campaign_balance: books.balance,
                    contributor_record: books.records[who],
                    user: party(who),
                    user_balance: books.wallets[who],
                };
                let r = donate(&mut ctx, amount, books.clock);
                assert_eq!(r.is_ok(), books.campaign_accepts(amount, who));
                if let Ok(event) = r {
                    assert_eq!(event.amount, amount);
                    assert_eq!(event.user, party(who));
                }
                books.campaign = ctx.campaign;
                books.balance = ctx.campaign_balance;
                books.records[who] = ctx.contributor_record;
                books.wallets[who] = ctx.user_balance;
            }
            1 => {
                let amount = dice.roll(900);
                let mut ctx = Withdraw {
                    campaign: books.campaign.clone(),
                    campaign_balance: books.balance,
                    reserve_minimum: RESERVE,
                    admin: party(who),
                    admin_balance: books.wallets[who],
                };
                let r = withdraw(&mut ctx, amount);
                if who != 0 {
                    assert_eq!(r, Err(ErrorCode::InvalidAdmin));
                }
                if r.is_ok() {
                    books.withdrawn += amount;
                }
                books.campaign = ctx.campaign;
                books.balance = ctx.campaign_balance;
                books.wallets[who] = ctx.admin_balance;
            }
            _ => {
                books.clock += dice.roll(4) as i64;
                let mut ctx = Refund {
                    campaign: books.campaign.clone(),
                    campaign_balance: books.balance,
                    contributor_record: books.records[who],
                    record_reservation: 0,
                    user: party(who),
                    user_balance: books.wallets[who],
                };
                let stake = recorded(&books.records[who]);
                let r = refund(&mut ctx, books.clock);
                assert_ne!(r, Err(ErrorCode::TransferFailed));
                if let Ok(paid) = r {
                    assert_eq!(paid, stake);
                    assert!(paid > 0);
                    books.refunded += paid;
                }
                books.campaign = ctx.campaign;
                books.balance = ctx.campaign_balance;
                books.records[who] = ctx.contributor_record;
                books.wallets[who] = ctx.user_balance;
            }
        }
        assert!(books.campaign.amount_donated >= last_total);
        last_total = books.campaign.amount_donated;
        check(&books, held);
    }
    books
}

impl Books {
    fn campaign_accepts(&self, amount: u64, who: usize) -> bool {
        self.clock <= self.campaign.deadline && amount > 0 && amount <= self.wallets[who]
    }
}

#[test]
fn books_balance_through_a_campaign_that_fails() {
    let books = replay(7, 1_000_000, 120, 600);
    assert!(!books.campaign.is_target_met());
    assert_eq!(books.withdrawn, 0);
    assert!(books.refunded > 0);
    assert!(books.clock > books.campaign.deadline);
}

#[test]
fn books_balance_through_a_campaign_that_succeeds() {
    let books = replay(11, 2_000, 150, 600);
    assert!(books.campaign.is_target_met());
    assert!(books.withdrawn > 0);
    assert_eq!(books.refunded, 0);
    assert_eq!(books.campaign.amount_donated, staked(&books));
}

#[test]
fn books_balance_whatever_the_seed() {
    for seed in 0..40 {
        let target = 500 + 700 * (seed % 7);
        let books = replay(seed, target, 20 + 5 * seed as i64, 300);
        assert!(books.withdrawn == 0 || books.refunded == 0);
    }
}
