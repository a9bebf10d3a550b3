//! A weekly number lottery.
//!
//! Every week tickets of five different numbers from 1 to 59 are sold. A
//! fifth of the price goes to the admin, the rest into the week's prize pool.
//! After the sales close, five winning numbers are drawn; the pool is shared
//! among four tiers of winners, and the share of a tier without winners
//! rolls over to the next week.
//!
//! The lottery keeps its own records and shares nothing with the staking
//! ledger. As there, assets are moved by the caller.

use crate::address::Address;
use crate::assets::{can_move, move_lamports};
use vstd::prelude::*;
use vstd::relations::{sorted_by, total_ordering};
use vstd::seq_lib::{lemma_sorted_unique, to_multiset_update};

verus! {

/// Length of a lottery week, in seconds.
pub const SECONDS_PER_WEEK: i64 = 604_800;

/// Length of a day, in seconds.
pub const SECONDS_PER_DAY: i64 = 86_400;

/// Price of one ticket.
pub const TICKET_PRICE: u64 = 10_000_000;

/// Share of the price that goes to the admin, in percent.
pub const ADMIN_FEE_PERCENT: u64 = 20;

/// The most tickets that can be bought at once.
pub const MAX_TICKETS_PER_PURCHASE: usize = 100;

/// The highest number on a ticket; the lowest is 1.
pub const HIGHEST_NUMBER: u8 = 59;

/// For how many days after the draw a prize can be claimed.
pub const CLAIM_WINDOW_DAYS: i64 = 30;

/// Why an operation of the lottery was rejected. A rejected operation
/// changes nothing.
#[derive(Clone, Copy, Debug, PartialEq, Eq, Structural)]
pub enum LotteryError {
    WeekAlreadyStarted,
    SalesClosed,
    NoTickets,
    TooManyTickets,
    InvalidNumbers,
    AlreadyClosed,
    SalesStillOpen,
    AlreadyDrawn,
    NotDrawnYet,
    InvalidMatchCount,
    InvalidTicketIndex,
    AlreadyClaimed,
    ClaimExpired,
    ClaimNotExpired,
}

impl LotteryError {
    /// What the failure is called in words.
    pub open spec fn message_text(self) -> Seq<char> {
        match self {
            LotteryError::WeekAlreadyStarted => "Week already started"@,
            LotteryError::SalesClosed => "Ticket sales are closed"@,
            LotteryError::NoTickets => "No tickets provided"@,
            LotteryError::TooManyTickets => "Too many tickets (max 100)"@,
            LotteryError::InvalidNumbers => "Invalid ticket numbers"@,
            LotteryError::AlreadyClosed => "Sales already closed"@,
            LotteryError::SalesStillOpen => "Sales still open"@,
            LotteryError::AlreadyDrawn => "Already drawn"@,
            LotteryError::NotDrawnYet => "Not drawn yet"@,
            LotteryError::InvalidMatchCount => "Invalid match count"@,
            LotteryError::InvalidTicketIndex => "Invalid ticket index"@,
            LotteryError::AlreadyClaimed => "Already claimed"@,
            LotteryError::ClaimExpired => "Claim period expired"@,
            LotteryError::ClaimNotExpired => "Claim period not expired yet"@,
        }
    }

    /// The failure in words.
    pub fn message(&self) -> (text: &'static str)
        ensures
            text@ == self.message_text(),
    {
        match self {
            LotteryError::WeekAlreadyStarted => "Week already started",
            LotteryError::SalesClosed => "Ticket sales are closed",
            LotteryError::NoTickets => "No tickets provided",
            LotteryError::TooManyTickets => "Too many tickets (max 100)",
            LotteryError::InvalidNumbers => "Invalid ticket numbers",
            LotteryError::AlreadyClosed => "Sales already closed",
            LotteryError::SalesStillOpen => "Sales still open",
            LotteryError::AlreadyDrawn => "Already drawn",
            LotteryError::NotDrawnYet => "Not drawn yet",
            LotteryError::InvalidMatchCount => "Invalid match count",
            LotteryError::InvalidTicketIndex => "Invalid ticket index",
            LotteryError::AlreadyClaimed => "Already claimed",
            LotteryError::ClaimExpired => "Claim period expired",
            LotteryError::ClaimNotExpired => "Claim period not expired yet",
        }
    }
}

/// The lottery as a whole.
#[derive(Clone, Copy, Debug, PartialEq, Eq)]
pub struct LotteryState {
    pub admin: Address,
    pub current_week: u64,
    /// What the last week left over for the next.
    pub rollover_jackpot: u64,
    pub total_tickets_sold: u64,
    pub total_prizes_claimed: u64,
    pub bump: u8,
}

/// One week of the lottery.
#[derive(Clone, Copy, Debug, PartialEq, Eq)]
pub struct WeekState {
    pub week_number: u64,
    pub start_time: i64,
    pub draw_time: i64,
    pub ticket_sales_open: bool,
    pub winning_numbers: [u8; 5],
    pub total_tickets: u64,
    pub prize_pool: u64,
    /// What the week before left over for this one.
    pub rollover_amount: u64,
    /// Winners per tier: five, four, three and two matches.
    pub tier_winners: [u32; 4],
    /// Prize of one winner per tier.
    pub tier_prizes: [u64; 4],
    pub drawn: bool,
    pub bump: u8,
}

/// One ticket.
#[derive(Clone, Copy, Debug, PartialEq, Eq)]
pub struct UserTicket {
    pub numbers: [u8; 5],
    pub purchase_time: i64,
    pub claimed: bool,
    pub prize_tier: u8,
    pub prize_amount: u64,
}

/// The tickets of one user in one week.
#[derive(Clone, Debug, PartialEq, Eq)]
pub struct UserTickets {
    pub user: Address,
    pub week_number: u64,
    pub tickets: Vec<UserTicket>,
}

/// A prize that a ticket has won.
#[derive(Clone, Copy, Debug, PartialEq, Eq)]
pub struct WinnerRecord {
    pub week_number: u64,
    pub user: Address,
    pub ticket_index: u32,
    pub numbers: [u8; 5],
    pub match_count: u8,
    pub prize_amount: u64,
    pub claimed: bool,
    pub claim_time: i64,
    pub created_at: i64,
    pub bump: u8,
}

/// Whether five numbers make a ticket: each from 1 to 59, and no two alike.
pub open spec fn valid_ticket(numbers: [u8; 5]) -> bool {
    &&& forall|i: int| 0 <= i < 5 ==> 1 <= #[trigger] numbers[i] <= HIGHEST_NUMBER
    &&& forall|i: int, j: int| 0 <= i < j < 5 ==> numbers[i] != numbers[j]
}

/// Checks that five numbers make a ticket.
pub fn validate_ticket_numbers(numbers: &[u8; 5]) -> (r: Result<(), LotteryError>)
    ensures
        valid_ticket(*numbers) ==> r is Ok,
        !valid_ticket(*numbers) ==> r matches Err(LotteryError::InvalidNumbers),
{
    let mut i: usize = 0;
    while i < 5
        invariant
            i <= 5,
            forall|k: int| 0 <= k < i ==> 1 <= #[trigger] numbers[k] <= HIGHEST_NUMBER,
        decreases 5 - i,
    {
        if numbers[i] < 1 || numbers[i] > HIGHEST_NUMBER {
            return Err(LotteryError::InvalidNumbers);
        }
        i += 1;
    }
    let mut i: usize = 0;
    while i < 5
        invariant
            i <= 5,
            forall|k: int| 0 <= k < 5 ==> 1 <= #[trigger] numbers[k] <= HIGHEST_NUMBER,
            forall|a: int, b: int| 0 <= a < i && a < b < 5 ==> numbers[a] != numbers[b],
        decreases 5 - i,
    {
        let mut j: usize = i + 1;
        while j < 5
            invariant
                i < 5,
                i < j <= 5,
                forall|a: int, b: int| 0 <= a < i && a < b < 5 ==> numbers[a] != numbers[b],
                forall|b: int| i < b < j ==> numbers[i as int] != numbers[b],
            decreases 5 - j,
        {
            if numbers[i] == numbers[j] {
                return Err(LotteryError::InvalidNumbers);
            }
            j += 1;
        }
        i += 1;
    }
    Ok(())
}

/// Sets up the lottery, once.
pub fn initialize(admin: Address, bump: u8) -> (state: LotteryState)
    ensures
        state == (LotteryState {
            admin,
            current_week: 0,
            rollover_jackpot: 0,
            total_tickets_sold: 0,
            total_prizes_claimed: 0,
            bump,
        }),
{
    LotteryState {
        admin,
        current_week: 0,
        rollover_jackpot: 0,
        total_tickets_sold: 0,
        total_prizes_claimed: 0,
        bump,
    }
}

/// Hands the lottery over to a new admin, and gives the former one.
pub fn transfer_admin(state: &mut LotteryState, new_admin: Address) -> (former: Address)
    ensures
        former == old(state).admin,
        *final(state) == (LotteryState { admin: new_admin, ..*old(state) }),
{
    let former = state.admin;
    state.admin = new_admin;
    former
}

/// The number of the week that the time `now` falls into: whole weeks since
/// the beginning of the clock. A time before that counts its weeks backwards
/// from the largest 64-bit number.
pub open spec fn week_of(now: i64) -> int {
    if now >= 0 {
        now / 604_800
    } else if -now < 604_800 {
        0
    } else {
        0x1_0000_0000_0000_0000 - (-now) / 604_800
    }
}

fn week_number_at(now: i64) -> (week: u64)
    ensures
        week == week_of(now),
{
    if now >= 0 {
        (now / SECONDS_PER_WEEK) as u64
    } else {
        let back: i128 = -(now as i128);
        let weeks: i128 = back / 604_800;
        if weeks == 0 {
            0
        } else {
            (0x1_0000_0000_0000_0000i128 - weeks) as u64
        }
    }
}

/// The week as it starts: sales open, nothing sold, nothing drawn, and the
/// rollover of the week before to begin with.
pub open spec fn started_week(state: LotteryState, now: i64, bump: u8) -> WeekState {
    WeekState {
        week_number: week_of(now) as u64,
        start_time: now,
        draw_time: 0,
        ticket_sales_open: true,
        winning_numbers: [0, 0, 0, 0, 0],
        total_tickets: 0,
        prize_pool: 0,
        rollover_amount: state.rollover_jackpot,
        tier_winners: [0, 0, 0, 0],
        tier_prizes: [0, 0, 0, 0],
        drawn: false,
        bump,
    }
}

/// Starts the week that `now` falls into, unless that week or a later one
/// has started already. The rollover passes from the lottery to the week.
pub fn start_week(state: &mut LotteryState, now: i64, bump: u8) -> (r: Result<
    WeekState,
    LotteryError,
>)
    ensures
        week_of(now) <= old(state).current_week ==> {
            &&& r matches Err(LotteryError::WeekAlreadyStarted)
            &&& *final(state) == *old(state)
        },
        week_of(now) > old(state).current_week ==> {
            &&& r is Ok && r->Ok_0 == started_week(*old(state), now, bump)
            &&& *final(state) == (LotteryState {
                current_week: week_of(now) as u64,
                rollover_jackpot: 0,
                ..*old(state)
            })
        },
{
    let current_week = week_number_at(now);
    if current_week <= state.current_week {
        return Err(LotteryError::WeekAlreadyStarted);
    }
    let week = WeekState {
        week_number: current_week,
        start_time: now,
        draw_time: 0,
        ticket_sales_open: true,
        winning_numbers: [0, 0, 0, 0, 0],
        total_tickets: 0,
        prize_pool: 0,
        rollover_amount: state.rollover_jackpot,
        tier_winners: [0, 0, 0, 0],
        tier_prizes: [0, 0, 0, 0],
        drawn: false,
        bump,
    };
    state.current_week = current_week;
    state.rollover_jackpot = 0;
    Ok(week)
}

/// Closes the sales of a week.
pub fn close_sales(week: &mut WeekState) -> (r: Result<(), LotteryError>)
    ensures
        !old(week).ticket_sales_open ==> {
            &&& r matches Err(LotteryError::AlreadyClosed)
            &&& *final(week) == *old(week)
        },
        old(week).ticket_sales_open ==> {
            &&& r is Ok
            &&& *final(week) == (WeekState { ticket_sales_open: false, ..*old(week) })
        },
{
    if !week.ticket_sales_open {
        return Err(LotteryError::AlreadyClosed);
    }
    week.ticket_sales_open = false;
    Ok(())
}

/// What a purchase of tickets costs and where the money goes.
#[derive(Clone, Copy, Debug, PartialEq, Eq, Structural)]
pub struct TicketPurchase {
    pub tickets: u64,
    pub total_cost: u64,
    /// What the caller moves to the admin.
    pub admin_fee: u64,
    /// What the caller moves to the prize vault.
    pub prize_amount: u64,
}

/// The price of `tickets` tickets.
pub open spec fn cost_of(tickets: int) -> int {
    tickets * TICKET_PRICE
}

/// The admin's share of the price of `tickets` tickets.
pub open spec fn admin_fee_of(tickets: int) -> int {
    (cost_of(tickets) * ADMIN_FEE_PERCENT) / 100
}

/// What the price of `tickets` tickets adds to the prize pool.
pub open spec fn prize_share_of(tickets: int) -> int {
    cost_of(tickets) - admin_fee_of(tickets)
}

/// A ticket as it is bought.
pub open spec fn bought_ticket(numbers: [u8; 5], now: i64) -> UserTicket {
    UserTicket { numbers, purchase_time: now, claimed: false, prize_tier: 0, prize_amount: 0 }
}

/// Why a purchase is rejected, if it is: the sales must be open, and there
/// must be between one and a hundred tickets, each of them valid.
pub open spec fn purchase_rejection(week: WeekState, tickets: Seq<[u8; 5]>) -> Option<
    LotteryError,
> {
    if !week.ticket_sales_open {
        Some(LotteryError::SalesClosed)
    } else if tickets.len() == 0 {
        Some(LotteryError::NoTickets)
    } else if tickets.len() > MAX_TICKETS_PER_PURCHASE {
        Some(LotteryError::TooManyTickets)
    } else if exists|i: int| 0 <= i < tickets.len() && !valid_ticket(#[trigger] tickets[i]) {
        Some(LotteryError::InvalidNumbers)
    } else {
        None
    }
}

/// Whether the counters have room for a purchase of `tickets` tickets.
pub open spec fn purchase_fits(week: WeekState, state: LotteryState, tickets: int) -> bool {
    &&& week.total_tickets + tickets <= u64::MAX
    &&& week.prize_pool + prize_share_of(tickets) <= u64::MAX
    &&& state.total_tickets_sold + tickets <= u64::MAX
}

/// Checks a purchase: the sales must be open, and there must be between one
/// and a hundred tickets, each of them valid.
#[verifier::loop_isolation(false)]
pub fn check_purchase(week: &WeekState, ticket_numbers: &Vec<[u8; 5]>) -> (r: Result<
    (),
    LotteryError,
>)
    ensures
        match purchase_rejection(*week, ticket_numbers@) {
            Some(e) => r is Err && r->Err_0 == e,
            None => r is Ok,
        },
{
    if !week.ticket_sales_open {
        return Err(LotteryError::SalesClosed);
    }
    if ticket_numbers.len() == 0 {
        return Err(LotteryError::NoTickets);
    }
    if ticket_numbers.len() > MAX_TICKETS_PER_PURCHASE {
        return Err(LotteryError::TooManyTickets);
    }
    let count = ticket_numbers.len();
    let mut i: usize = 0;
    while i < count
        invariant
            i <= count,
            count == ticket_numbers@.len(),
            forall|k: int| 0 <= k < i ==> valid_ticket(#[trigger] ticket_numbers@[k]),
        decreases count - i,
    {
        match validate_ticket_numbers(&ticket_numbers[i]) {
            Ok(()) => {},
            Err(e) => {
                assert(!valid_ticket(ticket_numbers@[i as int]));
                return Err(e);
            },
        }
        i += 1;
    }
    Ok(())
}

/// Tests whether the counters have room for a purchase of `tickets`
/// tickets.
pub fn purchase_has_room(week: &WeekState, state: &LotteryState, tickets: usize) -> (room: bool)
    ensures
        room == purchase_fits(*week, *state, tickets as int),
{
    let count = tickets as u128;
    assert(count * TICKET_PRICE <= 0xffff_ffff_ffff_ffff * 10_000_000) by (nonlinear_arith)
        requires
            count <= 0xffff_ffff_ffff_ffff,
            TICKET_PRICE == 10_000_000,
    ;
    let cost: u128 = count * TICKET_PRICE as u128;
    assert(cost * ADMIN_FEE_PERCENT <= 0xffff_ffff_ffff_ffff * 10_000_000 * 20)
        by (nonlinear_arith)
        requires
            cost <= 0xffff_ffff_ffff_ffff * 10_000_000,
            ADMIN_FEE_PERCENT == 20,
    ;
    let prize: u128 = cost - cost * ADMIN_FEE_PERCENT as u128 / 100;
    week.total_tickets as u128 + count <= u64::MAX as u128 && week.prize_pool as u128 + prize
        <= u64::MAX as u128 && state.total_tickets_sold as u128 + count <= u64::MAX as u128
}

/// Sells tickets to a user.
///
/// The tickets are added to those the user holds for the week, each stamped
/// with `now`; a user's first purchase puts the user's name and the week on
/// the record. The week counts the tickets and its share of the price, the
/// lottery counts the tickets. On success the caller moves the admin's fee
/// and the prize amount as the answer says. On failure nothing changes.
///
/// The counters must have room for the purchase.
#[verifier::loop_isolation(false)]
pub fn buy_tickets(
    week: &mut WeekState,
    state: &mut LotteryState,
    user_tickets: &mut UserTickets,
    user: Address,
    ticket_numbers: &Vec<[u8; 5]>,
    now: i64,
) -> (r: Result<TicketPurchase, LotteryError>)
    requires
        purchase_rejection(*old(week), ticket_numbers@) is None ==>
            purchase_fits(*old(week), *old(state), ticket_numbers@.len() as int),
    ensures
        match purchase_rejection(*old(week), ticket_numbers@) {
            Some(e) => {
                &&& r is Err && r->Err_0 == e
                &&& *final(week) == *old(week)
                &&& *final(state) == *old(state)
                &&& *final(user_tickets) == *old(user_tickets)
            },
            None => {
                &&& r is Ok
                &&& r->Ok_0 == (TicketPurchase {
                    tickets: ticket_numbers@.len() as u64,
                    total_cost: cost_of(ticket_numbers@.len() as int) as u64,
                    admin_fee: admin_fee_of(ticket_numbers@.len() as int) as u64,
                    prize_amount: prize_share_of(ticket_numbers@.len() as int) as u64,
                })
                &&& *final(week) == (WeekState {
                    total_tickets: (old(week).total_tickets + ticket_numbers@.len()) as u64,
                    prize_pool: (old(week).prize_pool + prize_share_of(
                        ticket_numbers@.len() as int,
                    )) as u64,
                    ..*old(week)
                })
                &&& *final(state) == (LotteryState {
                    total_tickets_sold: (old(state).total_tickets_sold
                        + ticket_numbers@.len()) as u64,
                    ..*old(state)
                })
                &&& final(user_tickets).tickets@ == old(user_tickets).tickets@ + Seq::new(
                    ticket_numbers@.len(),
                    |i: int| bought_ticket(ticket_numbers@[i], now),
                )
                &&& old(user_tickets).tickets@.len() == 0 ==> {
                    &&& final(user_tickets).user == user
                    &&& final(user_tickets).week_number == old(week).week_number
                }
                &&& old(user_tickets).tickets@.len() > 0 ==> {
                    &&& final(user_tickets).user == old(user_tickets).user
                    &&& final(user_tickets).week_number == old(user_tickets).week_number
                }
            },
        },
{
    match check_purchase(week, ticket_numbers) {
        Ok(()) => {},
        Err(e) => {
            return Err(e);
        },
    }
    let count = ticket_numbers.len();
    let num_tickets = count as u64;
    let total_cost = num_tickets * TICKET_PRICE;
    let admin_fee = total_cost * ADMIN_FEE_PERCENT / 100;
    let prize_amount = total_cost - admin_fee;

    if user_tickets.tickets.len() == 0 {
        user_tickets.user = user;
        user_tickets.week_number = week.week_number;
    }
    let mut i: usize = 0;
    while i < count
        invariant
            i <= count,
            count == ticket_numbers@.len(),
            user_tickets.tickets@ == old(user_tickets).tickets@ + Seq::new(
                i as nat,
                |k: int| bought_ticket(ticket_numbers@[k], now),
            ),
            user_tickets.user == if old(user_tickets).tickets@.len() == 0 {
                user
            } else {
                old(user_tickets).user
            },
            user_tickets.week_number == if old(user_tickets).tickets@.len() == 0 {
                week.week_number
            } else {
                old(user_tickets).week_number
            },
        decreases count - i,
    {
        user_tickets.tickets.push(
            UserTicket {
                numbers: ticket_numbers[i],
                purchase_time: now,
                claimed: false,
                prize_tier: 0,
                prize_amount: 0,
            },
        );
        i += 1;
        assert(user_tickets.tickets@ =~= old(user_tickets).tickets@ + Seq::new(
            i as nat,
            |k: int| bought_ticket(ticket_numbers@[k], now),
        ));
    }
    week.total_tickets = week.total_tickets + num_tickets;
    week.prize_pool = week.prize_pool + prize_amount;
    state.total_tickets_sold = state.total_tickets_sold + num_tickets;
    Ok(TicketPurchase { tickets: num_tickets, total_cost, admin_fee, prize_amount })
}

/// The number that four bytes starting at `at` encode, least significant
/// byte first.
pub open spec fn le_u32_at(bytes: Seq<u8>, at: int) -> int {
    bytes[at] + bytes[at + 1] * 0x100 + bytes[at + 2] * 0x1_0000 + bytes[at + 3] * 0x100_0000
}

/// The `i`-th number that the random bytes `vrf` give: the `i`-th group of
/// four bytes, brought into the range from 1 to 59.
pub open spec fn drawn_number(vrf: Seq<u8>, i: int) -> u8 {
    (le_u32_at(vrf, 4 * i) % 59 + 1) as u8
}

/// The five numbers that the random bytes `vrf` give, in the order of the
/// bytes.
pub open spec fn drawn_numbers(vrf: Seq<u8>) -> Seq<u8> {
    Seq::new(5, |i: int| drawn_number(vrf, i))
}

/// The order of numbers.
pub open spec fn at_most() -> spec_fn(u8, u8) -> bool {
    |a: u8, b: u8| a <= b
}

/// The numbers of `s` in ascending order.
pub open spec fn ascending(s: Seq<u8>) -> Seq<u8> {
    s.sort_by(at_most())
}

/// The number after `n`, with 1 after 59.
pub open spec fn successor(n: u8) -> u8 {
    (n % 59 + 1) as u8
}

/// The numbers of `s` after the places 1 to `upto` have been looked at in
/// turn: a number equal to the one before it, as that one is by then, is
/// replaced by its successor.
pub open spec fn spread(s: Seq<u8>, upto: int) -> Seq<u8>
    decreases upto,
{
    if upto <= 0 {
        s
    } else {
        let t = spread(s, upto - 1);
        if t[upto] == t[upto - 1] {
            t.update(upto, successor(t[upto]))
        } else {
            t
        }
    }
}

/// The winning numbers that the random bytes `vrf` give: the five drawn
/// numbers, put in ascending order, and equal neighbours spread apart.
pub open spec fn winning_numbers_of(vrf: Seq<u8>) -> Seq<u8> {
    spread(ascending(drawn_numbers(vrf)), 4)
}

/// Numbers in ascending order are the same numbers, each as often as
/// before, and none of them is greater than one that follows it.
pub proof fn lemma_ascending_is_sorted_permutation(s: Seq<u8>)
    ensures
        ascending(s).len() == s.len(),
        ascending(s).to_multiset() == s.to_multiset(),
        forall|i: int, j: int| 0 <= i < j < s.len() ==> ascending(s)[i] <= ascending(s)[j],
{
    let leq = at_most();
    assert(total_ordering(leq));
    s.lemma_sort_by_ensures(leq);
    s.to_multiset_ensures();
    ascending(s).to_multiset_ensures();
    assert forall|i: int, j: int| 0 <= i < j < s.len() implies ascending(s)[i] <= ascending(
        s,
    )[j] by {
        assert(leq(ascending(s)[i], ascending(s)[j]));
    }
}

/// Puts five numbers in ascending order.
fn sort_five(numbers: &mut [u8; 5])
    ensures
        final(numbers)@ == ascending(old(numbers)@),
{
    let mut i: usize = 0;
    while i < 4
        invariant
            i <= 4,
            numbers@.to_multiset() == old(numbers)@.to_multiset(),
            forall|x: int, y: int| 0 <= x < y < 5 && x < i ==> numbers@[x] <= numbers@[y],
        decreases 4 - i,
    {
        let mut least: usize = i;
        let mut j: usize = i + 1;
        while j < 5
            invariant
                i < 4,
                i <= least < 5,
                i < j <= 5,
                forall|k: int| i <= k < j ==> numbers@[least as int] <= numbers@[k],
            decreases 5 - j,
        {
            if numbers[j] < numbers[least] {
                least = j;
            }
            j += 1;
        }
        let ghost before = numbers@;
        let low = numbers[least];
        let high = numbers[i];
        numbers[i] = low;
        numbers[least] = high;
        proof {
            broadcast use vstd::multiset::group_multiset_axioms;

            let between = before.update(i as int, low);
            to_multiset_update(before, i as int, low);
            to_multiset_update(between, least as int, high);
            before.to_multiset_ensures();
            assert(before.to_multiset().count(before[i as int]) > 0);
            assert(before.to_multiset().count(before[least as int]) > 0);
            assert(between[least as int] == low);
            assert(numbers@ =~= between.update(least as int, high));
            assert(numbers@.to_multiset() =~= before.to_multiset());
        }
        i += 1;
    }
    proof {
        let leq = at_most();
        assert(total_ordering(leq));
        assert(sorted_by(numbers@, leq));
        old(numbers)@.lemma_sort_by_ensures(leq);
        lemma_sorted_unique(numbers@, old(numbers)@.sort_by(leq), leq);
    }
}

/// Spreads equal neighbours apart, from the second place to the last.
fn spread_five(numbers: &mut [u8; 5])
    ensures
        final(numbers)@ == spread(old(numbers)@, 4),
{
    let mut i: usize = 1;
    while i < 5
        invariant
            1 <= i <= 5,
            numbers@ == spread(old(numbers)@, i - 1),
        decreases 5 - i,
    {
        if numbers[i] == numbers[i - 1] {
            numbers[i] = numbers[i] % 59 + 1;
        }
        i += 1;
    }
}

/// Reads the `i`-th number out of the random bytes.
fn number_from(vrf_result: &[u8; 32], i: usize) -> (n: u8)
    requires
        i < 5,
    ensures
        n == drawn_number(vrf_result@, i as int),
        1 <= n <= HIGHEST_NUMBER,
{
    let at = i * 4;
    let value: u32 = vrf_result[at] as u32 + vrf_result[at + 1] as u32 * 0x100 + vrf_result[at
        + 2] as u32 * 0x1_0000 + vrf_result[at + 3] as u32 * 0x100_0000;
    (value % 59 + 1) as u8
}

/// Draws the winning numbers of a week from 32 random bytes.
///
/// The sales must be closed and the week not drawn yet. On failure the week
/// is unchanged.
pub fn draw_numbers(week: &mut WeekState, vrf_result: &[u8; 32], now: i64) -> (r: Result<
    [u8; 5],
    LotteryError,
>)
    ensures
        old(week).ticket_sales_open ==> {
            &&& r matches Err(LotteryError::SalesStillOpen)
            &&& *final(week) == *old(week)
        },
        !old(week).ticket_sales_open && old(week).drawn ==> {
            &&& r matches Err(LotteryError::AlreadyDrawn)
            &&& *final(week) == *old(week)
        },
        !old(week).ticket_sales_open && !old(week).drawn ==> {
            &&& r is Ok
            &&& r->Ok_0@ == winning_numbers_of(vrf_result@)
            &&& *final(week) == (WeekState {
                winning_numbers: r->Ok_0,
                draw_time: now,
                drawn: true,
                ..*old(week)
            })
        },
{
    if week.ticket_sales_open {
        return Err(LotteryError::SalesStillOpen);
    }
    if week.drawn {
        return Err(LotteryError::AlreadyDrawn);
    }
    let mut winning_numbers: [u8; 5] = [
        number_from(vrf_result, 0),
        number_from(vrf_result, 1),
        number_from(vrf_result, 2),
        number_from(vrf_result, 3),
        number_from(vrf_result, 4),
    ];
    assert(winning_numbers@ =~= drawn_numbers(vrf_result@));
    sort_five(&mut winning_numbers);
    spread_five(&mut winning_numbers);
    week.winning_numbers = winning_numbers;
    week.draw_time = now;
    week.drawn = true;
    Ok(winning_numbers)
}

/// The share of the pool that a tier has, in percent: half for five
/// matches, then a quarter, 15 and 10 percent.
pub open spec fn tier_percent(tier: int) -> int {
    if tier == 0 {
        50
    } else if tier == 1 {
        25
    } else if tier == 2 {
        15
    } else {
        10
    }
}

/// What a week has to share out: what its tickets brought in and what the
/// week before left over.
pub open spec fn total_pool(week: WeekState) -> int {
    week.prize_pool + week.rollover_amount
}

/// The part of the pool that a tier has.
pub open spec fn tier_pool(week: WeekState, tier: int) -> int {
    (total_pool(week) * tier_percent(tier)) / 100
}

/// The prize of one of `winners` winners of a tier: an equal part of the
/// tier's pool, and nothing if nobody won.
pub open spec fn tier_prize(week: WeekState, tier: int, winners: u32) -> int {
    if winners > 0 {
        tier_pool(week, tier) / (winners as int)
    } else {
        0
    }
}

/// The part of a pool of two 64-bit amounts that a tier has. No tier has
/// more than half, so that the part fits 64 bits.
fn part_of(pool: u128, percent: u128) -> (part: u64)
    requires
        pool <= 2 * u64::MAX,
        percent <= 50,
    ensures
        part == (pool * percent) / 100,
{
    assert(pool * percent <= 2 * u64::MAX * 50) by (nonlinear_arith)
        requires
            pool <= 2 * u64::MAX,
            percent <= 50,
    ;
    (pool * percent / 100) as u64
}

fn prize_of(pool: u128, percent: u128, winners: u32) -> (prize: u64)
    requires
        pool <= 2 * u64::MAX,
        percent <= 50,
    ensures
        winners > 0 ==> prize == ((pool * percent) / 100) / (winners as int),
        winners == 0 ==> prize == 0,
{
    if winners > 0 {
        part_of(pool, percent) / winners as u64
    } else {
        0
    }
}

/// Records how many tickets won in each tier and sets the prize of each.
///
/// The week must have been drawn; if not, nothing changes.
pub fn announce_winners(week: &mut WeekState, tier_winner_counts: [u32; 4]) -> (r: Result<
    (),
    LotteryError,
>)
    ensures
        !old(week).drawn ==> {
            &&& r matches Err(LotteryError::NotDrawnYet)
            &&& *final(week) == *old(week)
        },
        old(week).drawn ==> {
            &&& r is Ok
            &&& final(week).tier_winners == tier_winner_counts
            &&& forall|tier: int|
                0 <= tier < 4 ==> #[trigger] final(week).tier_prizes[tier] == tier_prize(
                    *old(week),
                    tier,
                    tier_winner_counts[tier],
                )
            &&& *final(week) == (WeekState {
                tier_winners: final(week).tier_winners,
                tier_prizes: final(week).tier_prizes,
                ..*old(week)
            })
        },
{
    if !week.drawn {
        return Err(LotteryError::NotDrawnYet);
    }
    proof {
        assert(tier_percent(0) == 50 && tier_percent(1) == 25 && tier_percent(2) == 15
            && tier_percent(3) == 10);
    }
    let pool: u128 = week.prize_pool as u128 + week.rollover_amount as u128;
    let prizes: [u64; 4] = [
        prize_of(pool, 50, tier_winner_counts[0]),
        prize_of(pool, 25, tier_winner_counts[1]),
        prize_of(pool, 15, tier_winner_counts[2]),
        prize_of(pool, 10, tier_winner_counts[3]),
    ];
    week.tier_winners = tier_winner_counts;
    week.tier_prizes = prizes;
    Ok(())
}

/// Why a winner record is refused, if it is: the week must have been drawn,
/// a winner has from two to five matches, and the ticket must exist.
pub open spec fn winner_rejection(
    week: WeekState,
    user_tickets: UserTickets,
    ticket_index: u32,
    match_count: u8,
) -> Option<LotteryError> {
    if !week.drawn {
        Some(LotteryError::NotDrawnYet)
    } else if match_count < 2 || match_count > 5 {
        Some(LotteryError::InvalidMatchCount)
    } else if ticket_index >= user_tickets.tickets@.len() {
        Some(LotteryError::InvalidTicketIndex)
    } else {
        None
    }
}

/// Makes the record of a prize that one of a user's tickets has won.
pub fn create_winner_record(
    week: &WeekState,
    user_tickets: &UserTickets,
    user: Address,
    ticket_index: u32,
    match_count: u8,
    prize_amount: u64,
    now: i64,
    bump: u8,
) -> (r: Result<WinnerRecord, LotteryError>)
    ensures
        match winner_rejection(*week, *user_tickets, ticket_index, match_count) {
            Some(e) => r is Err && r->Err_0 == e,
            None => r is Ok
                && r->Ok_0 == (WinnerRecord {
                    week_number: week.week_number,
                    user,
                    ticket_index,
                    numbers: user_tickets.tickets@[ticket_index as int].numbers,
                    match_count,
                    prize_amount,
                    claimed: false,
                    claim_time: 0,
                    created_at: now,
                    bump,
                }),
        },
{
    if !week.drawn {
        return Err(LotteryError::NotDrawnYet);
    }
    if match_count < 2 || match_count > 5 {
        return Err(LotteryError::InvalidMatchCount);
    }
    if ticket_index as usize >= user_tickets.tickets.len() {
        return Err(LotteryError::InvalidTicketIndex);
    }
    Ok(
        WinnerRecord {
            week_number: week.week_number,
            user,
            ticket_index,
            numbers: user_tickets.tickets[ticket_index as usize].numbers,
            match_count,
            prize_amount,
            claimed: false,
            claim_time: 0,
            created_at: now,
            bump,
        },
    )
}

/// Whether a prize of a week drawn at `draw_time` can still be claimed at
/// `now`: as long as no more than 30 whole days have passed since the draw.
pub open spec fn claim_window_open(draw_time: i64, now: i64) -> bool {
    now - draw_time < (CLAIM_WINDOW_DAYS + 1) * SECONDS_PER_DAY
}

fn window_open(draw_time: i64, now: i64) -> (open: bool)
    ensures
        open == claim_window_open(draw_time, now),
{
    let since_draw: i128 = now as i128 - draw_time as i128;
    let days_since_draw: i128 = since_draw / SECONDS_PER_DAY as i128;
    days_since_draw <= CLAIM_WINDOW_DAYS as i128
}

/// Why a claim of a prize is rejected, if it is.
pub open spec fn prize_claim_rejection(record: WinnerRecord, week: WeekState, now: i64) -> Option<
    LotteryError,
> {
    if record.claimed {
        Some(LotteryError::AlreadyClaimed)
    } else if !week.drawn {
        Some(LotteryError::NotDrawnYet)
    } else if !claim_window_open(week.draw_time, now) {
        Some(LotteryError::ClaimExpired)
    } else {
        None
    }
}

/// Checks a claim of a prize: the prize must be unclaimed, the week drawn,
/// and the 30 days in which it can be claimed not over.
pub fn check_prize_claim(record: &WinnerRecord, week: &WeekState, now: i64) -> (r: Result<
    (),
    LotteryError,
>)
    ensures
        match prize_claim_rejection(*record, *week, now) {
            Some(e) => r is Err && r->Err_0 == e,
            None => r is Ok,
        },
{
    if record.claimed {
        return Err(LotteryError::AlreadyClaimed);
    }
    if !week.drawn {
        return Err(LotteryError::NotDrawnYet);
    }
    if !window_open(week.draw_time, now) {
        return Err(LotteryError::ClaimExpired);
    }
    Ok(())
}

/// Pays a prize to its winner, within 30 days of the draw.
///
/// On success the record is marked as claimed at `now`, the lottery counts
/// the prize, and the caller moves the prize, which is the answer, from the
/// prize vault to the winner. On failure nothing changes.
///
/// The lottery's count of prizes must have room for this one.
pub fn claim_prize(
    record: &mut WinnerRecord,
    week: &WeekState,
    state: &mut LotteryState,
    now: i64,
) -> (r: Result<u64, LotteryError>)
    requires
        prize_claim_rejection(*old(record), *week, now) is None ==>
            old(state).total_prizes_claimed + old(record).prize_amount <= u64::MAX,
    ensures
        match prize_claim_rejection(*old(record), *week, now) {
            Some(e) => {
                &&& r is Err && r->Err_0 == e
                &&& *final(record) == *old(record)
                &&& *final(state) == *old(state)
            },
            None => {
                &&& r is Ok && r->Ok_0 == old(record).prize_amount
                &&& *final(record) == (WinnerRecord {
                    claimed: true,
                    claim_time: now,
                    ..*old(record)
                })
                &&& *final(state) == (LotteryState {
                    total_prizes_claimed: (
                        old(state).total_prizes_claimed + old(record).prize_amount
                    ) as u64,
                    ..*old(state)
                })
            },
        },
{
    match check_prize_claim(record, week, now) {
        Ok(()) => {},
        Err(e) => {
            return Err(e);
        },
    }
    record.claimed = true;
    record.claim_time = now;
    state.total_prizes_claimed = state.total_prizes_claimed + record.prize_amount;
    Ok(record.prize_amount)
}

/// Why a prize cannot be taken back, if it cannot: it must be unclaimed, and
/// the 30 days in which it could be claimed must be over.
pub open spec fn reclaim_rejection(record: WinnerRecord, week: WeekState, now: i64) -> Option<
    LotteryError,
> {
    if record.claimed {
        Some(LotteryError::AlreadyClaimed)
    } else if claim_window_open(week.draw_time, now) {
        Some(LotteryError::ClaimNotExpired)
    } else {
        None
    }
}

/// Takes back a prize that nobody claimed in time.
///
/// On success the record is marked as claimed at `now` and the caller moves
/// the prize, which is the answer, from the prize vault to the admin. On
/// failure nothing changes.
pub fn reclaim_unclaimed(record: &mut WinnerRecord, week: &WeekState, now: i64) -> (r: Result<
    u64,
    LotteryError,
>)
    ensures
        match reclaim_rejection(*old(record), *week, now) {
            Some(e) => {
                &&& r is Err && r->Err_0 == e
                &&& *final(record) == *old(record)
            },
            None => {
                &&& r is Ok && r->Ok_0 == old(record).prize_amount
                &&& *final(record) == (WinnerRecord {
                    claimed: true,
                    claim_time: now,
                    ..*old(record)
                })
            },
        },
{
    if record.claimed {
        return Err(LotteryError::AlreadyClaimed);
    }
    if window_open(week.draw_time, now) {
        return Err(LotteryError::ClaimNotExpired);
    }
    record.claimed = true;
    record.claim_time = now;
    Ok(record.prize_amount)
}

/// What the tiers from `tier` on leave over: the pools of those without a
/// winner.
pub open spec fn unwon_from(week: WeekState, tier: int) -> int
    decreases 4 - tier,
{
    if tier >= 4 {
        0
    } else if week.tier_winners[tier] == 0 {
        tier_pool(week, tier) + unwon_from(week, tier + 1)
    } else {
        unwon_from(week, tier + 1)
    }
}

/// What a week leaves over for the next: what it had got from the week
/// before, and the pools of the tiers that nobody won.
pub open spec fn rollover_of(week: WeekState) -> int {
    week.rollover_amount + unwon_from(week, 0)
}

/// Whether the rollover of a week fits 64 bits.
pub open spec fn rollover_fits(week: WeekState) -> bool {
    rollover_of(week) <= u64::MAX
}

/// What a week leaves over, in 128 bits.
fn wide_rollover(week: &WeekState) -> (rollover: u128)
    ensures
        rollover == rollover_of(*week),
{
    let percentages: [u128; 4] = [50, 25, 15, 10];
    let pool: u128 = week.prize_pool as u128 + week.rollover_amount as u128;
    let mut rollover: u128 = week.rollover_amount as u128;
    let mut i: usize = 0;
    while i < 4
        invariant
            i <= 4,
            pool == total_pool(*week),
            percentages@ =~= seq![50u128, 25u128, 15u128, 10u128],
            rollover + unwon_from(*week, i as int) == rollover_of(*week),
            rollover <= u64::MAX + i * u64::MAX,
        decreases 4 - i,
    {
        proof {
            assert(percentages@[i as int] == tier_percent(i as int));
        }
        if week.tier_winners[i] == 0 {
            rollover = rollover + part_of(pool, percentages[i]) as u128;
        }
        i += 1;
    }
    rollover
}

/// Tests whether the rollover of a week fits 64 bits.
pub fn rollover_is_storable(week: &WeekState) -> (storable: bool)
    ensures
        storable == rollover_fits(*week),
{
    wide_rollover(week) <= u64::MAX as u128
}

/// Works out what a drawn week leaves over and hands it to the lottery for
/// the next week. The answer is the rollover.
///
/// The week must have been drawn; if not, nothing changes. The rollover must
/// fit 64 bits.
pub fn calculate_rollover(week: &WeekState, state: &mut LotteryState) -> (r: Result<
    u64,
    LotteryError,
>)
    requires
        week.drawn ==> rollover_fits(*week),
    ensures
        !week.drawn ==> {
            &&& r matches Err(LotteryError::NotDrawnYet)
            &&& *final(state) == *old(state)
        },
        week.drawn ==> {
            &&& r is Ok && r->Ok_0 == rollover_of(*week)
            &&& *final(state) == (LotteryState {
                rollover_jackpot: rollover_of(*week) as u64,
                ..*old(state)
            })
        },
{
    if !week.drawn {
        return Err(LotteryError::NotDrawnYet);
    }
    let rollover_amount = wide_rollover(week) as u64;
    state.rollover_jackpot = rollover_amount;
    Ok(rollover_amount)
}

/// Lets the admin take `amount` out of the prize vault: the answer is what
/// the vault and the admin's wallet hold afterwards.
///
/// The vault must hold the amount and the wallet have room for it.
pub fn emergency_withdraw(vault_balance: u64, admin_balance: u64, amount: u64) -> (r: (u64, u64))
    requires
        can_move(vault_balance, admin_balance, amount),
    ensures
        r.0 == vault_balance - amount,
        r.1 == admin_balance + amount,
{
    move_lamports(vault_balance, admin_balance, amount)
}

} // verus!
