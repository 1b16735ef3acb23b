//! Checks that every entry must pass, whatever the strategy.
//!
//! In order: the sum of the token prices, the age of the prices, the size of the Binance
//! move, the cap on the price, and for reversals a cap of their own.

use vstd::prelude::*;

use crate::num::{num, Arith, Calc, Num, Op, ZERO};
use crate::signal::{DeltaPctSignal, LatestPolySignal, SpreadSignal};
use crate::types::{EntryType, TradeIntent};

verus! {

#[derive(Clone, Copy, Debug, PartialEq, Eq, Structural)]
pub enum GateBlock {
    SpreadPremium,
    SpreadDiscount,
    PolyStale,
    MinDeltaPct,
    MaxBuyPrice,
    PriceHighRev,
}

impl GateBlock {
    pub open spec fn text(self) -> Seq<char> {
        match self {
            GateBlock::SpreadPremium => "spread_premium"@,
            GateBlock::SpreadDiscount => "spread_discount"@,
            GateBlock::PolyStale => "poly_stale"@,
            GateBlock::MinDeltaPct => "min_delta_pct"@,
            GateBlock::MaxBuyPrice => "max_buy_price"@,
            GateBlock::PriceHighRev => "price_high_rev"@,
        }
    }

    pub fn as_str(&self) -> (r: &'static str)
        ensures
            r@ == self.text(),
    {
        match self {
            GateBlock::SpreadPremium => "spread_premium",
            GateBlock::SpreadDiscount => "spread_discount",
            GateBlock::PolyStale => "poly_stale",
            GateBlock::MinDeltaPct => "min_delta_pct",
            GateBlock::MaxBuyPrice => "max_buy_price",
            GateBlock::PriceHighRev => "price_high_rev",
        }
    }
}

#[derive(Clone, Copy, Debug)]
pub struct GateParams {
    pub spread_premium_limit: Num,
    pub spread_discount_limit: Num,
    pub max_price_age_secs: Num,
    pub delta_pct_rev: Num,
    pub delta_pct_hp: Num,
    pub delta_pct_v: Num,
    pub max_buy_price: Num,
    /// Zero switches this cap off.
    pub price_high_rev: Num,
}

impl GateParams {
    /// The smallest Binance move that an entry of this type takes.
    pub open spec fn min_delta(self, entry_type: EntryType) -> Num {
        match entry_type {
            EntryType::Reversal => self.delta_pct_rev,
            EntryType::HighProb => self.delta_pct_hp,
            EntryType::VShape => self.delta_pct_v,
        }
    }

    /// Whether a gate stands in the way, each taken by itself.
    pub open spec fn blocks(
        self,
        gate: GateBlock,
        intent: TradeIntent,
        spread: SpreadSignal,
        latest_poly: LatestPolySignal,
        delta_pct: DeltaPctSignal,
        now: Num,
        calc: Calc,
    ) -> bool {
        match gate {
            GateBlock::SpreadPremium => spread.total(calc).gt(self.spread_premium_limit),
            GateBlock::SpreadDiscount => spread.total(calc).lt(self.spread_discount_limit),
            GateBlock::PolyStale => latest_poly.age_at(now, calc).gt(self.max_price_age_secs),
            GateBlock::MinDeltaPct => delta_pct.delta(calc).abs().lt(
                self.min_delta(intent.entry_type),
            ),
            GateBlock::MaxBuyPrice => intent.token_price().gt(self.max_buy_price),
            GateBlock::PriceHighRev => intent.entry_type == EntryType::Reversal
                && self.price_high_rev.gt(num(ZERO)) && intent.token_price().gt(
                self.price_high_rev,
            ),
        }
    }

    /// The gates in the order in which they are tried.
    pub open spec fn order() -> Seq<GateBlock> {
        seq![
            GateBlock::SpreadPremium,
            GateBlock::SpreadDiscount,
            GateBlock::PolyStale,
            GateBlock::MinDeltaPct,
            GateBlock::MaxBuyPrice,
            GateBlock::PriceHighRev,
        ]
    }

    /// The first gate that stands in the way.
    pub open spec fn first_block(
        self,
        intent: TradeIntent,
        spread: SpreadSignal,
        latest_poly: LatestPolySignal,
        delta_pct: DeltaPctSignal,
        now: Num,
        calc: Calc,
    ) -> Option<GateBlock> {
        if self.blocks(
            GateBlock::SpreadPremium,
            intent,
            spread,
            latest_poly,
            delta_pct,
            now,
            calc,
        ) {
            Some(GateBlock::SpreadPremium)
        } else if self.blocks(
            GateBlock::SpreadDiscount,
            intent,
            spread,
            latest_poly,
            delta_pct,
            now,
            calc,
        ) {
            Some(GateBlock::SpreadDiscount)
        } else if self.blocks(
            GateBlock::PolyStale,
            intent,
            spread,
            latest_poly,
            delta_pct,
            now,
            calc,
        ) {
            Some(GateBlock::PolyStale)
        } else if self.blocks(
            GateBlock::MinDeltaPct,
            intent,
            spread,
            latest_poly,
            delta_pct,
            now,
            calc,
        ) {
            Some(GateBlock::MinDeltaPct)
        } else if self.blocks(
            GateBlock::MaxBuyPrice,
            intent,
            spread,
            latest_poly,
            delta_pct,
            now,
            calc,
        ) {
            Some(GateBlock::MaxBuyPrice)
        } else if self.blocks(
            GateBlock::PriceHighRev,
            intent,
            spread,
            latest_poly,
            delta_pct,
            now,
            calc,
        ) {
            Some(GateBlock::PriceHighRev)
        } else {
            None
        }
    }
}

/// An intent passes exactly when no gate taken by itself stands in its way, and a refusal
/// names the first gate in the order that does.
pub proof fn refusal_is_first_gate(
    params: GateParams,
    intent: TradeIntent,
    spread: SpreadSignal,
    latest_poly: LatestPolySignal,
    delta_pct: DeltaPctSignal,
    now: Num,
    calc: Calc,
)
    ensures
        match params.first_block(intent, spread, latest_poly, delta_pct, now, calc) {
            None => forall|g: GateBlock|
                !#[trigger] params.blocks(g, intent, spread, latest_poly, delta_pct, now, calc),
            Some(block) => exists|i: int|
                {
                    &&& 0 <= i < GateParams::order().len()
                    &&& #[trigger] GateParams::order()[i] == block
                    &&& params.blocks(block, intent, spread, latest_poly, delta_pct, now, calc)
                    &&& forall|j: int|
                        0 <= j < i ==> !params.blocks(
                            #[trigger] GateParams::order()[j],
                            intent,
                            spread,
                            latest_poly,
                            delta_pct,
                            now,
                            calc,
                        )
                },
        },
{
    let order = GateParams::order();
    assert(order[0] == GateBlock::SpreadPremium);
    assert(order[1] == GateBlock::SpreadDiscount);
    assert(order[2] == GateBlock::PolyStale);
    assert(order[3] == GateBlock::MinDeltaPct);
    assert(order[4] == GateBlock::MaxBuyPrice);
    assert(order[5] == GateBlock::PriceHighRev);
}

/// The reason to refuse the intent, if there is one.
pub fn check_gates<F: Fn(Op, Num, Num) -> Num>(
    intent: &TradeIntent,
    spread: &SpreadSignal,
    latest_poly: &LatestPolySignal,
    delta_pct: &DeltaPctSignal,
    params: &GateParams,
    now: Num,
    arith: &Arith<F>,
) -> (r: Option<GateBlock>)
    ensures
        r == params.first_block(*intent, *spread, *latest_poly, *delta_pct, now, arith@),
{
    let total = spread.value(arith);
    if total.gt(params.spread_premium_limit) {
        return Some(GateBlock::SpreadPremium);
    }
    if total.lt(params.spread_discount_limit) {
        return Some(GateBlock::SpreadDiscount);
    }
    let age = latest_poly.age(now, arith);
    if age.gt(params.max_price_age_secs) {
        return Some(GateBlock::PolyStale);
    }
    let dp = delta_pct.value(arith).abs();
    let min_delta = match intent.entry_type {
        EntryType::Reversal => params.delta_pct_rev,
        EntryType::HighProb => params.delta_pct_hp,
        EntryType::VShape => params.delta_pct_v,
    };
    if dp.lt(min_delta) {
        return Some(GateBlock::MinDeltaPct);
    }
    let token_price = intent.token_price();
    if token_price.gt(params.max_buy_price) {
        return Some(GateBlock::MaxBuyPrice);
    }
    if intent.entry_type == EntryType::Reversal && params.price_high_rev.gt(num(ZERO))
        && token_price.gt(params.price_high_rev) {
        return Some(GateBlock::PriceHighRev);
    }
    None
}

} // verus!
