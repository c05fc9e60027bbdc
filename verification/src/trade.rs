//! Multi-phase trade negotiation data: per-party offers, accept flags,
//! phases, and the integer pricing function that balances a pending trade.

use vstd::prelude::*;

verus! {

/// Phases a negotiation moves through.
#[derive(Clone, Copy, PartialEq, Eq, Debug)]
pub enum TradePhase {
    Mutate,
    Review,
    Complete,
}

/// The two sides of a pending trade: the party that issued the invite and
/// its counterparty.
#[derive(Clone, Copy, PartialEq, Eq, Debug)]
pub enum TradeParty {
    Issuer,
    Counterparty,
}

impl TradeParty {
    pub open spec fn spec_other(self) -> TradeParty {
        match self {
            TradeParty::Issuer => TradeParty::Counterparty,
            TradeParty::Counterparty => TradeParty::Issuer,
        }
    }

    /// The opposite side.
    pub fn other(self) -> (r: TradeParty)
        ensures
            r == self.spec_other(),
    {
        match self {
            TradeParty::Issuer => TradeParty::Counterparty,
            TradeParty::Counterparty => TradeParty::Issuer,
        }
    }
}

/// How a finished trade ended.
#[derive(Clone, Copy, PartialEq, Eq, Debug)]
pub enum TradeResult {
    Completed,
    Declined,
    NotEnoughSpace,
}

/// A protocol action the agent asks the world to apply to a trade.
#[derive(Clone, Copy, PartialEq, Eq, Debug)]
pub enum TradeAction {
    Accept(TradePhase),
    Decline,
}

/// A quantity of one item kind.
#[derive(Clone, Copy, PartialEq, Eq, Debug)]
pub struct ItemQty {
    pub item: u64,
    pub qty: u32,
}

/// The unit value of one item kind.
#[derive(Clone, Copy, PartialEq, Eq, Debug)]
pub struct ItemPrice {
    pub item: u64,
    pub price: u32,
}

/// Bounds that keep every balance within `u64` headroom.
pub const QTY_LIMIT: u32 = 1_000_000;

pub const PRICE_LIMIT: u32 = 1_000_000;

pub const OFFER_LEN_LIMIT: usize = 1_000;

/// Largest value one offer line can carry.
pub const LINE_LIMIT: u64 = 1_000_000_000_000;

/// Largest value one side of a trade can carry.
pub const BALANCE_LIMIT: u64 = 1_000_000_000_000_000;

pub open spec fn entries_wf(s: Seq<ItemQty>) -> bool {
    &&& s.len() <= OFFER_LEN_LIMIT
    &&& forall|i: int| 0 <= i < s.len() ==> 1 <= (#[trigger] s[i]).qty <= QTY_LIMIT
    &&& forall|i: int, j: int| 0 <= i < j < s.len() ==> s[i].item != s[j].item
}

/// What one party has put on the table.
#[derive(Clone, PartialEq, Eq, Debug)]
pub struct PendingTrade {
    pub issuer_offer: Vec<ItemQty>,
    pub counter_offer: Vec<ItemQty>,
    pub issuer_accepted: bool,
    pub counter_accepted: bool,
    pub phase: TradePhase,
}

impl PendingTrade {
    pub open spec fn wf(&self) -> bool {
        &&& entries_wf(self.issuer_offer@)
        &&& entries_wf(self.counter_offer@)
    }

    pub open spec fn spec_offer_of(&self, party: TradeParty) -> Seq<ItemQty> {
        match party {
            TradeParty::Issuer => self.issuer_offer@,
            TradeParty::Counterparty => self.counter_offer@,
        }
    }

    pub open spec fn spec_accepted(&self, party: TradeParty) -> bool {
        match party {
            TradeParty::Issuer => self.issuer_accepted,
            TradeParty::Counterparty => self.counter_accepted,
        }
    }

    /// The offer the given party has made.
    pub fn offer_of(&self, party: TradeParty) -> (r: &Vec<ItemQty>)
        ensures
            r@ == self.spec_offer_of(party),
    {
        match party {
            TradeParty::Issuer => &self.issuer_offer,
            TradeParty::Counterparty => &self.counter_offer,
        }
    }

    /// Whether the given party has set its accept flag.
    pub fn accepted(&self, party: TradeParty) -> (r: bool)
        ensures
            r == self.spec_accepted(party),
    {
        match party {
            TradeParty::Issuer => self.issuer_accepted,
            TradeParty::Counterparty => self.counter_accepted,
        }
    }

    pub open spec fn spec_is_empty(&self) -> bool {
        self.issuer_offer@.len() == 0 && self.counter_offer@.len() == 0
    }

    /// Whether nothing at all is on the table.
    pub fn is_empty_trade(&self) -> (r: bool)
        ensures
            r == self.spec_is_empty(),
    {
        self.issuer_offer.len() == 0 && self.counter_offer.len() == 0
    }
}

/// What each party holds, for valuing offers against actual stock.
#[derive(Clone, PartialEq, Eq, Debug)]
pub struct Inventory {
    pub items: Vec<ItemQty>,
}

impl Inventory {
    pub open spec fn wf(&self) -> bool {
        entries_wf(self.items@)
    }
}

/// The two parties' inventories, in trade-party order.
#[derive(Clone, PartialEq, Eq, Debug)]
pub struct TradeInventories {
    pub issuer: Inventory,
    pub counterparty: Inventory,
}

impl TradeInventories {
    pub open spec fn wf(&self) -> bool {
        self.issuer.wf() && self.counterparty.wf()
    }

    pub open spec fn spec_of(&self, party: TradeParty) -> Seq<ItemQty> {
        match party {
            TradeParty::Issuer => self.issuer.items@,
            TradeParty::Counterparty => self.counterparty.items@,
        }
    }

    /// The inventory of the given party.
    pub fn of(&self, party: TradeParty) -> (r: &Inventory)
        ensures
            r.items@ == self.spec_of(party),
    {
        match party {
            TradeParty::Issuer => &self.issuer,
            TradeParty::Counterparty => &self.counterparty,
        }
    }
}

/// Unit values of item kinds; an unlisted kind is worth nothing.
#[derive(Clone, PartialEq, Eq, Debug)]
pub struct PriceBook {
    pub prices: Vec<ItemPrice>,
}

pub open spec fn prices_wf(s: Seq<ItemPrice>) -> bool {
    forall|i: int| 0 <= i < s.len() ==> (#[trigger] s[i]).price <= PRICE_LIMIT
}

/// Unit value of an item kind, scanning from the given index.
pub open spec fn spec_price_of_from(s: Seq<ItemPrice>, item: u64, i: int) -> int
    decreases s.len() - i,
{
    if i < 0 || i >= s.len() {
        0
    } else if s[i].item == item {
        s[i].price as int
    } else {
        spec_price_of_from(s, item, i + 1)
    }
}

pub open spec fn spec_price_of(s: Seq<ItemPrice>, item: u64) -> int {
    spec_price_of_from(s, item, 0)
}

/// Count of an item kind in an inventory, scanning from the given index.
pub open spec fn spec_count_of_from(s: Seq<ItemQty>, item: u64, i: int) -> int
    decreases s.len() - i,
{
    if i < 0 || i >= s.len() {
        0
    } else if s[i].item == item {
        s[i].qty as int
    } else {
        spec_count_of_from(s, item, i + 1)
    }
}

pub open spec fn spec_count_of(s: Seq<ItemQty>, item: u64) -> int {
    spec_count_of_from(s, item, 0)
}

pub open spec fn spec_min(a: int, b: int) -> int {
    if a <= b {
        a
    } else {
        b
    }
}

/// Value of one offer line: the offered quantity, capped by the offering
/// party's stock when `reduce` is set, times the unit value.
pub open spec fn spec_line_value(
    e: ItemQty,
    prices: Seq<ItemPrice>,
    inv: Seq<ItemQty>,
    reduce: bool,
) -> int {
    (if reduce {
        spec_min(e.qty as int, spec_count_of(inv, e.item))
    } else {
        e.qty as int
    }) * spec_price_of(prices, e.item)
}

/// Total value of an offer from the given line on.
pub open spec fn spec_balance_from(
    offer: Seq<ItemQty>,
    prices: Seq<ItemPrice>,
    inv: Seq<ItemQty>,
    reduce: bool,
    i: int,
) -> int
    decreases offer.len() - i,
{
    if i < 0 || i >= offer.len() {
        0
    } else {
        spec_line_value(offer[i], prices, inv, reduce) + spec_balance_from(
            offer,
            prices,
            inv,
            reduce,
            i + 1,
        )
    }
}

/// Total value of one party's offer under a price book and the offering
/// party's inventory. A pure function of its inputs: identical offers,
/// prices and inventories always balance identically.
pub open spec fn spec_balance(
    offer: Seq<ItemQty>,
    prices: Seq<ItemPrice>,
    inv: Seq<ItemQty>,
    reduce: bool,
) -> int {
    spec_balance_from(offer, prices, inv, reduce, 0)
}

pub proof fn lemma_price_of_bound(s: Seq<ItemPrice>, item: u64, i: int)
    requires
        prices_wf(s),
    ensures
        0 <= spec_price_of_from(s, item, i) <= PRICE_LIMIT,
    decreases s.len() - i,
{
    if 0 <= i < s.len() && s[i].item != item {
        lemma_price_of_bound(s, item, i + 1);
    }
}

pub proof fn lemma_line_value_bound(
    e: ItemQty,
    prices: Seq<ItemPrice>,
    inv: Seq<ItemQty>,
    reduce: bool,
)
    requires
        prices_wf(prices),
        1 <= e.qty <= QTY_LIMIT,
    ensures
        0 <= spec_line_value(e, prices, inv, reduce) <= LINE_LIMIT,
{
    lemma_price_of_bound(prices, e.item, 0);
    let q = if reduce {
        spec_min(e.qty as int, spec_count_of(inv, e.item))
    } else {
        e.qty as int
    };
    lemma_count_of_nonneg(inv, e.item, 0);
    let p = spec_price_of(prices, e.item);
    assert(0 <= q * p <= LINE_LIMIT) by (nonlinear_arith)
        requires
            0 <= q <= QTY_LIMIT,
            0 <= p <= PRICE_LIMIT,
            LINE_LIMIT == QTY_LIMIT * PRICE_LIMIT,
    ;
}

pub proof fn lemma_count_of_nonneg(s: Seq<ItemQty>, item: u64, i: int)
    ensures
        spec_count_of_from(s, item, i) >= 0,
    decreases s.len() - i,
{
    if 0 <= i < s.len() && s[i].item != item {
        lemma_count_of_nonneg(s, item, i + 1);
    }
}

pub proof fn lemma_balance_bound(
    offer: Seq<ItemQty>,
    prices: Seq<ItemPrice>,
    inv: Seq<ItemQty>,
    reduce: bool,
    i: int,
)
    requires
        entries_wf(offer),
        prices_wf(prices),
        0 <= i <= offer.len(),
    ensures
        0 <= spec_balance_from(offer, prices, inv, reduce, i) <= (offer.len() - i) * LINE_LIMIT,
    decreases offer.len() - i,
{
    if i < offer.len() {
        lemma_line_value_bound(offer[i], prices, inv, reduce);
        lemma_balance_bound(offer, prices, inv, reduce, i + 1);
    }
}

/// Count of an item kind in an inventory.
fn count_of(items: &Vec<ItemQty>, item: u64) -> (r: u32)
    ensures
        r == spec_count_of(items@, item),
{
    let n: usize = items.len();
    let mut i: usize = 0;
    while i < n
        invariant
            n == items@.len(),
            0 <= i <= n,
            spec_count_of(items@, item) == spec_count_of_from(items@, item, i as int),
        decreases n - i,
    {
        if items[i].item == item {
            return items[i].qty;
        }
        i = i + 1;
    }
    0
}

/// Unit value of an item kind under a price book.
fn price_of(prices: &Vec<ItemPrice>, item: u64) -> (r: u32)
    ensures
        r == spec_price_of(prices@, item),
{
    let n: usize = prices.len();
    let mut i: usize = 0;
    while i < n
        invariant
            n == prices@.len(),
            0 <= i <= n,
            spec_price_of(prices@, item) == spec_price_of_from(prices@, item, i as int),
        decreases n - i,
    {
        if prices[i].item == item {
            return prices[i].price;
        }
        i = i + 1;
    }
    0
}

impl PriceBook {
    pub open spec fn wf(&self) -> bool {
        prices_wf(self.prices@)
    }

    /// Total value of the given party's offer: each offered quantity,
    /// capped by that party's stock when `reduce` is set, times the unit
    /// value of its item kind.
    pub fn balance(
        &self,
        pending: &PendingTrade,
        invs: &TradeInventories,
        party: TradeParty,
        reduce: bool,
    ) -> (r: u64)
        requires
            self.wf(),
            pending.wf(),
            invs.wf(),
        ensures
            r == spec_balance(
                pending.spec_offer_of(party),
                self.prices@,
                invs.spec_of(party),
                reduce,
            ),
            r <= BALANCE_LIMIT,
    {
        let offer: &Vec<ItemQty> = pending.offer_of(party);
        let inv: &Inventory = invs.of(party);
        let ghost offer_seq = offer@;
        let ghost inv_seq = inv.items@;
        let n: usize = offer.len();
        let mut acc: u64 = 0;
        let mut i: usize = 0;
        proof {
            lemma_balance_bound(offer_seq, self.prices@, inv_seq, reduce, 0);
        }
        while i < n
            invariant
                n == offer_seq.len(),
                0 <= i <= n,
                offer@ == offer_seq,
                inv.items@ == inv_seq,
                self.wf(),
                entries_wf(offer_seq),
                acc + spec_balance_from(offer_seq, self.prices@, inv_seq, reduce, i as int)
                    == spec_balance(offer_seq, self.prices@, inv_seq, reduce),
                acc <= BALANCE_LIMIT,
                0 <= spec_balance_from(offer_seq, self.prices@, inv_seq, reduce, i as int),
                acc + spec_balance_from(offer_seq, self.prices@, inv_seq, reduce, i as int)
                    <= BALANCE_LIMIT,
            decreases n - i,
        {
            let e: ItemQty = offer[i];
            let price: u32 = price_of(&self.prices, e.item);
            let eff: u32 = if reduce {
                let have: u32 = count_of(&inv.items, e.item);
                if e.qty <= have {
                    e.qty
                } else {
                    have
                }
            } else {
                e.qty
            };
            proof {
                lemma_line_value_bound(e, self.prices@, inv_seq, reduce);
                lemma_balance_bound(offer_seq, self.prices@, inv_seq, reduce, i + 1);
            }
            let line: u64 = (eff as u64) * (price as u64);
            assert(line == spec_line_value(e, self.prices@, inv_seq, reduce));
            acc = acc + line;
            i = i + 1;
        }
        acc
    }
}

/// The pricing function is pure: two balances of identical offers, prices
/// and inventories are identical, however often and wherever they are
/// computed.
pub proof fn lemma_trade_balance_pure(
    offer: Seq<ItemQty>,
    prices: Seq<ItemPrice>,
    inv: Seq<ItemQty>,
    reduce: bool,
    r1: int,
    r2: int,
)
    requires
        r1 == spec_balance(offer, prices, inv, reduce),
        r2 == spec_balance(offer, prices, inv, reduce),
    ensures
        r1 == r2,
{
}

} // verus!
