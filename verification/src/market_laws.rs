//! What reporting prices, governing markets and keeping accounts come down to, in the
//! fields of the accounts.
use vstd::prelude::*;

use crate::baskets::{BasketEntry, law_projection_adds_the_leg, project_post_leg};
use crate::collateral_laws::{all_shown_properly, lemma_walk_finds_faults};
use crate::errors::{EnvelopeError, FlashBookError, HaircutError};
use crate::events::{
    GainReleasedToHaircutEvent, HaircutDustFlushedEvent, MarketAuthorityBurnedEvent,
    MarketAuthorityTransferredEvent, MarketInitializedEvent, MarketOracleConfigInitializedEvent,
    MarketParamsUpdatedEvent, MarketSequencerRotatedEvent, MarketStatusChangedEvent,
    OracleUpdatedFromPythEvent, PositionConvertedEvent, PositionLeverageUpdatedEvent,
    PositionMarginModeChangedEvent, PositionMaturedEvent, PredictedFundingEvent,
    ProtocolSolvencyCheckedEvent, ResidualSeededEvent, TraderBuilderUpdatedEvent,
    TraderDelegateUpdatedEvent, TraderFeeTierUpdatedEvent, TraderReferrerSetEvent,
};
use crate::funding::view_predicted_funding;
use crate::haircut::{
    Conversion, HaircutAccounts, ReleaseGainToHaircut, convert_position, flush_haircut_dust,
    mature_position, release_gain_to_haircut, seed_residual, verify_protocol_solvency,
};
use crate::keys::Pubkey;
use crate::margin_mode::{SetPositionMarginMode, set_position_cross, set_position_isolated};
use crate::market::{
    InitializeMarket, InvariantBreach, burn_market_authority, initialize_market,
    set_market_sequencer, set_market_status, transfer_market_authority, update_market_params,
    verify_market_invariants,
};
use crate::math::abs_int;
use crate::oracle::{
    UpdateOracle, gate_oracle_update, max3, median3, min3, update_oracle, update_oracle_quorum,
};
use crate::pool_laws::{lemma_product, lemma_rounds_down};
use crate::position_laws::{exposure, lemma_within_bps};
use crate::pyth::{
    PythUpdate, UpdateOracleFromPyth, init_market_oracle_config, lemma_pow10_grows, pow10,
    update_oracle_from_pyth,
};
use crate::risk::{Assessment, Binding, PortfolioEntry, RiskPosSnap};
use crate::settlement::Release;
use crate::state::{
    FeedId, InsuranceFundAccount, MarketAccount, MarketEnvelopeConfigAccount,
    MarketHaircutStateAccount, MarketOracleConfigAccount, MarketParams, OracleSource,
    PositionAccount, PositionHaircutSnapshot, PositionHaircutStateAccount, Side,
    TraderStateAccount,
};
use crate::trader::{
    set_position_leverage, set_trader_builder, set_trader_delegate, set_trader_fee_tier,
    set_trader_referrer,
};

verus! {

/// What the bounds on price moves make of a new price: without bounds, or as the first
/// price, it passes; within a slot it may only be repeated; else the verdict decides. A
/// price that passes is remembered, one that does not is only counted.
pub open spec fn goes_through_bounds(
    before: Option<MarketEnvelopeConfigAccount>,
    after: Option<MarketEnvelopeConfigAccount>,
    price: u64,
    slot: u64,
    verdict: Result<(), EnvelopeError>,
    passed: bool,
) -> bool {
    match before {
        None => passed && after is None,
        Some(c) => {
            let first = c.last_observed_slot == 0;
            let later = slot > c.last_observed_slot;
            &&& after is Some
            &&& passed <==> (first || (later && verdict is Ok) || (!later && price
                == c.last_observed_price_ticks))
            &&& passed && (first || later) ==> after->0.last_observed_slot == slot
                && after->0.last_observed_price_ticks == price && after->0.gate_rejects
                == c.gate_rejects
            &&& passed && !first && !later ==> after->0 == c
            &&& !passed ==> after->0.last_observed_slot == c.last_observed_slot
                && after->0.last_observed_price_ticks == c.last_observed_price_ticks && (
            c.gate_rejects < u64::MAX ==> after->0.gate_rejects == c.gate_rejects + 1)
            &&& after->0.params == c.params && after->0.market == c.market && after->0.version
                == c.version
        },
    }
}

/// A price goes through the bounds of its market.
pub proof fn law_price_goes_through_bounds(
    c: &mut Option<MarketEnvelopeConfigAccount>,
    price: u64,
    slot: u64,
    verdict: Result<(), EnvelopeError>,
    r: Result<(), FlashBookError>,
)
    requires
        call_ensures(gate_oracle_update, (c, price, slot, verdict), r),
    ensures
        goes_through_bounds(*old(c), *final(c), price, slot, verdict, r is Ok),
{
}

/// A price that may be believed: reported by the authority, positive, recent and
/// certain enough.
pub open spec fn believable(
    a: UpdateOracle,
    price: u64,
    confidence: u64,
    published: u64,
    unix_now: i64,
) -> bool {
    let now = if unix_now < 0 {
        0
    } else {
        unix_now as int
    };
    let k = a.market.params;
    &&& a.market.authority == a.authority
    &&& price > 0
    &&& k.oracle_staleness_max_seconds == 0 || now <= published + k.oracle_staleness_max_seconds
    &&& k.oracle_confidence_max_bps == 0 || confidence * 10_000 < (k.oracle_confidence_max_bps + 1)
        * price
}

/// A reported price is written down exactly if it may be believed and passes the
/// market's own bounds; nothing else of the market changes.
pub proof fn law_reported_price_is_written(
    a: &mut UpdateOracle,
    price: u64,
    confidence: u64,
    published: u64,
    unix_now: i64,
    slot: u64,
    verdict: Result<(), EnvelopeError>,
    r: Result<(), FlashBookError>,
)
    requires
        call_ensures(
            update_oracle,
            (a, price, confidence, published, unix_now, slot, verdict),
            r,
        ),
    ensures
        ({
            let x = *old(a);
            let y = *final(a);
            let asked = believable(x, price, confidence, published, unix_now) && (
            x.envelope_config matches Some(c) ==> c.market == x.market_key);
            &&& r is Ok ==> asked
            &&& !asked ==> y == x
            &&& asked ==> goes_through_bounds(
                x.envelope_config,
                y.envelope_config,
                price,
                slot,
                verdict,
                r is Ok,
            )
            &&& r is Ok ==> y.market == (MarketAccount {
                oracle_price_ticks: price,
                oracle_confidence: confidence,
                oracle_published_at_unix_seconds: published,
                ..x.market
            })
            &&& r is Err ==> y.market == x.market
            &&& y.authority == x.authority && y.market_key == x.market_key
        }),
{
    let x = *old(a);
    if price > 0 {
        lemma_within_bps(confidence, price, x.market.params.oracle_confidence_max_bps);
    }
}

/// `m` is the middle one of three.
pub open spec fn middle(m: u64, a: u64, b: u64, c: u64) -> bool {
    ||| m == a && (b <= a <= c || c <= a <= b)
    ||| m == b && (a <= b <= c || c <= b <= a)
    ||| m == c && (a <= c <= b || b <= c <= a)
}

/// Of three reported prices, each of which has to be believable, the middle one is
/// written down, with the widest confidence and the oldest time, unless they lie too
/// far apart.
pub proof fn law_quorum_writes_the_middle_price(
    a: &mut UpdateOracle,
    p: [u64; 3],
    c: [u64; 3],
    t: [u64; 3],
    unix_now: i64,
    slot: u64,
    verdict: Result<(), EnvelopeError>,
    r: Result<(), FlashBookError>,
)
    requires
        call_ensures(update_oracle_quorum, (a, p, c, t, unix_now, slot, verdict), r),
    ensures
        ({
            let x = *old(a);
            let y = *final(a);
            let price = y.market.oracle_price_ticks;
            let conf = y.market.oracle_confidence;
            let time = y.market.oracle_published_at_unix_seconds;
            let spread = x.market.params.oracle_quorum_max_dispersion_bps;
            &&& r is Err ==> y.market == x.market
            &&& r is Ok ==> {
                &&& believable(x, p[0], c[0], t[0], unix_now) && believable(
                    x,
                    p[1],
                    c[1],
                    t[1],
                    unix_now,
                ) && believable(x, p[2], c[2], t[2], unix_now)
                &&& middle(price, p[0], p[1], p[2])
                &&& conf >= c[0] && conf >= c[1] && conf >= c[2] && (conf == c[0] || conf == c[1]
                    || conf == c[2])
                &&& time <= t[0] && time <= t[1] && time <= t[2] && (time == t[0] || time == t[1]
                    || time == t[2])
                &&& spread > 0 ==> forall|i: int, j: int|
                    0 <= i < 3 && 0 <= j < 3 ==> (#[trigger] p[i] - #[trigger] p[j]) * 10_000 < (
                    spread + 1) * price
                &&& y.market == (MarketAccount {
                    oracle_price_ticks: price,
                    oracle_confidence: conf,
                    oracle_published_at_unix_seconds: time,
                    ..x.market
                })
                &&& goes_through_bounds(
                    x.envelope_config,
                    y.envelope_config,
                    price,
                    slot,
                    verdict,
                    true,
                )
            }
        }),
{
    let x = *old(a);
    if r is Ok {
        let max_conf = x.market.params.oracle_confidence_max_bps;
        lemma_within_bps(c[0], p[0], max_conf);
        lemma_within_bps(c[1], p[1], max_conf);
        lemma_within_bps(c[2], p[2], max_conf);
        let lo = min3(p[0], p[1], p[2]);
        let hi = max3(p[0], p[1], p[2]);
        let mid = median3(p[0], p[1], p[2]);
        let spread = x.market.params.oracle_quorum_max_dispersion_bps;
        lemma_within_bps((hi - lo) as u64, mid, spread);
        assert forall|i: int, j: int| spread > 0 && 0 <= i < 3 && 0 <= j < 3 implies (
        #[trigger] p[i] - #[trigger] p[j]) * 10_000 < (spread + 1) * mid by {
            assert(i == 0 || i == 1 || i == 2);
            assert(j == 0 || j == 1 || j == 2);
            assert(p[i] - p[j] <= hi - lo);
        }
    }
}

/// A price of the Pyth network is taken for the market's feed only if it was fully
/// verified, is recent, positive and certain enough; it is written down in ticks,
/// rounded down.
pub proof fn law_network_price_is_written_in_ticks(
    a: &mut UpdateOracleFromPyth,
    u: &PythUpdate,
    unix_now: i64,
    slot: u64,
    verdict: Result<(), EnvelopeError>,
    r: Result<OracleUpdatedFromPythEvent, FlashBookError>,
)
    requires
        call_ensures(update_oracle_from_pyth, (a, u, unix_now, slot, verdict), r),
    ensures
        r is Err ==> final(a).target.market == old(a).target.market,
        r matches Ok(e) ==> {
            let x = *old(a);
            let y = *final(a);
            let cfg = x.oracle_config;
            let n = u.exponent + cfg.tick_decimals;
            let ticks = y.target.market.oracle_price_ticks;
            &&& cfg.market == x.target.market_key && cfg.source == OracleSource::Pyth
            &&& u.partial_signatures is None && u.feed_id.bytes@ == cfg.pyth_price_feed_id.bytes@
            &&& u.publish_time + cfg.max_staleness_seconds >= unix_now
            &&& u.price > 0 && u.conf * 10_000 < (cfg.max_confidence_bps + 1) * u.price
            &&& ticks > 0
            &&& n >= 0 ==> ticks == u.price * pow10(n)
            &&& n < 0 ==> ticks * pow10(-n) <= u.price < (ticks + 1) * pow10(-n)
            &&& y.target.market == (MarketAccount {
                oracle_price_ticks: ticks,
                oracle_confidence: u.conf,
                oracle_published_at_unix_seconds:
                    y.target.market.oracle_published_at_unix_seconds,
                ..x.target.market
            })
            &&& u.publish_time >= 0 ==> y.target.market.oracle_published_at_unix_seconds
                == u.publish_time
            &&& goes_through_bounds(
                x.target.envelope_config,
                y.target.envelope_config,
                ticks,
                slot,
                verdict,
                true,
            )
            &&& e.new_oracle_ticks == ticks && e.pyth_price == u.price && e.market
                == x.target.market_key
        },
        pow10(0) == 1,
        pow10(3) == 1_000,
{
    assert(pow10(3) == 1_000) by {
        reveal_with_fuel(pow10, 5);
    }
    if r is Ok {
        let cfg = old(a).oracle_config;
        let n = u.exponent + cfg.tick_decimals;
        lemma_within_bps(u.conf, u.price as u64, cfg.max_confidence_bps);
        if n < 0 {
            lemma_pow10_grows(0, -n);
            let f = pow10(-n);
            lemma_rounds_down(u.price as int, f);
            assert(u.price as int / f <= u.price) by (nonlinear_arith)
                requires
                    f >= 1,
                    u.price > 0,
            ;
        } else {
            lemma_pow10_grows(0, n);
            lemma_product(u.price as int, pow10(n));
        }
    }
}

/// A market is bound to a feed by its authority, with an age and a confidence limit
/// that mean something.
pub proof fn law_feed_is_bound(
    market_key: Pubkey,
    m: &MarketAccount,
    authority: Pubkey,
    bump: u8,
    feed: FeedId,
    age: u32,
    conf: u32,
    decimals: i8,
    r: Result<(MarketOracleConfigAccount, MarketOracleConfigInitializedEvent), FlashBookError>,
)
    requires
        call_ensures(
            init_market_oracle_config,
            (market_key, m, authority, bump, feed, age, conf, decimals),
            r,
        ),
    ensures
        r is Ok <==> m.authority == authority && age > 0 && 0 < conf <= 1_000,
        r matches Ok((c, e)) ==> c.market == market_key && c.source == OracleSource::Pyth
            && c.pyth_price_feed_id.bytes@ == feed.bytes@ && c.max_staleness_seconds == age
            && c.max_confidence_bps == conf && c.tick_decimals == decimals,
{
}

/// The signer governs the market: it is the authority, and there is one.
pub open spec fn is_authority(m: MarketAccount, signer: Pubkey) -> bool {
    m.authority == signer && signer != (Pubkey { hi: 0, lo: 0 })
}

/// A market's status is set by its authority, to one that exists, and never again once
/// the market is closed.
pub proof fn law_status_is_set(
    m: &mut MarketAccount,
    key: Pubkey,
    signer: Pubkey,
    status: u8,
    r: Result<MarketStatusChangedEvent, FlashBookError>,
)
    requires
        call_ensures(set_market_status, (m, key, signer, status), r),
    ensures
        r is Ok <==> status <= 4 && is_authority(*old(m), signer) && old(m).status != 4,
        r is Err ==> *final(m) == *old(m),
        r matches Ok(e) ==> *final(m) == (MarketAccount { status, ..*old(m) }) && e.previous_status
            == old(m).status && e.new_status == status && e.market == key,
{
}

/// A market's parameters are set by its authority. Its units stay, maintenance is no
/// more than initial margin, and with the extra for concentration margin stays below
/// one half.
pub proof fn law_parameters_are_set(
    m: &mut MarketAccount,
    key: Pubkey,
    signer: Pubkey,
    p: MarketParams,
    r: Result<MarketParamsUpdatedEvent, FlashBookError>,
)
    requires
        call_ensures(update_market_params, (m, key, signer, p), r),
    ensures
        r is Ok <==> {
            let k = old(m).params;
            &&& is_authority(*old(m), signer)
            &&& p.tick_size == k.tick_size && p.base_lot_size == k.base_lot_size
                && p.quote_lot_size == k.quote_lot_size && p.min_base_lots == k.min_base_lots
            &&& p.max_leverage > 0
            &&& p.maintenance_margin_ratio_bps <= p.initial_margin_ratio_bps < 5_000
            &&& p.maintenance_margin_ratio_bps + p.concentration_extra_mmr_bps < 5_000
            &&& p.flp_max_growth_per_batch_bps <= 10_000 && p.oracle_band_bps <= 10_000
        },
        r is Err ==> *final(m) == *old(m),
        r is Ok ==> *final(m) == (MarketAccount { params: p, ..*old(m) }),
{
}

/// The authority passes on its place, gives it up for good, or names a sequencer; each
/// changes that one key, and nobody else can.
pub proof fn law_keys_of_a_market(
    m: &mut MarketAccount,
    n: &mut MarketAccount,
    o: &mut MarketAccount,
    key: Pubkey,
    signer: Pubkey,
    new_key: Pubkey,
    slot: u64,
    moved: Result<MarketAuthorityTransferredEvent, FlashBookError>,
    burned: Result<MarketAuthorityBurnedEvent, FlashBookError>,
    named: Result<MarketSequencerRotatedEvent, FlashBookError>,
)
    requires
        call_ensures(transfer_market_authority, (m, key, signer, new_key), moved),
        call_ensures(burn_market_authority, (n, key, signer, slot), burned),
        call_ensures(set_market_sequencer, (o, key, signer, new_key), named),
    ensures
        moved is Ok <==> is_authority(*old(m), signer),
        *final(m) == (if moved is Ok {
            MarketAccount { authority: new_key, ..*old(m) }
        } else {
            *old(m)
        }),
        burned is Ok <==> is_authority(*old(n), signer),
        *final(n) == (if burned is Ok {
            MarketAccount { authority: Pubkey { hi: 0, lo: 0 }, ..*old(n) }
        } else {
            *old(n)
        }),
        named is Ok <==> is_authority(*old(o), signer) && new_key != (Pubkey { hi: 0, lo: 0 }),
        *final(o) == (if named is Ok {
            MarketAccount { sequencer: new_key, ..*old(o) }
        } else {
            *old(o)
        }),
{
}

/// A market is set up by the protocol's authority, with units, a leverage and a price
/// that are not zero; it opens at that price, without positions, fees or creator.
pub proof fn law_market_opens_empty(
    a: &InitializeMarket,
    p: MarketParams,
    price: u64,
    unix_now: i64,
    r: Result<(MarketAccount, MarketInitializedEvent), FlashBookError>,
)
    requires
        call_ensures(initialize_market, (a, p, price, unix_now), r),
    ensures
        r is Ok <==> a.authority == a.protocol_authority && p.tick_size > 0 && p.base_lot_size > 0
            && p.quote_lot_size > 0 && p.max_leverage > 0 && price > 0,
        r matches Ok((m, e)) ==> {
            &&& m.authority == a.authority && m.sequencer == a.authority && m.creator == (Pubkey {
                hi: 0,
                lo: 0,
            })
            &&& m.status == 1 && m.params == p
            &&& m.oracle_price_ticks == price && m.mark_price_ticks == price
            &&& m.oi_long_lots == 0 && m.oi_short_lots == 0 && m.cum_funding_index == 0
            &&& m.total_fees_collected == 0 && m.total_toxicity_tax_collected == 0
                && m.total_liquidations == 0 && m.last_mark_settle_slot == 0
            &&& m.base_mint == a.base_mint && m.quote_mint == a.quote_mint && m.base_vault
                == a.base_vault && m.quote_vault == a.quote_vault && m.insurance_fund
                == a.insurance_fund && m.flp_pool == a.flp_exposure && m.oracle_account
                == a.oracle_account
            &&& e.market == a.market_key && e.initial_oracle_ticks == price
        },
{
}

/// Unbalanced open interest stops a market; a balanced one goes on as it is.
pub proof fn law_imbalance_stops_the_market(
    m: &mut MarketAccount,
    key: Pubkey,
    r: Result<(), InvariantBreach>,
)
    requires
        call_ensures(verify_market_invariants, (m, key), r),
    ensures
        r is Ok <==> old(m).oi_long_lots == old(m).oi_short_lots,
        r is Ok ==> *final(m) == *old(m),
        r matches Err(b) ==> *final(m) == (MarketAccount {
            status: if old(m).status == 4 {
                4u8
            } else {
                3u8
            },
            ..*old(m)
        }) && b.event.expected == old(m).oi_long_lots && b.event.actual == old(m).oi_short_lots
            && b.event.market == key,
{
}

/// Isolating moves the amount from the pool to an open pooled position, if all other
/// positions were shown, are pooled, and everything stays healthy.
pub proof fn law_isolating_moves_collateral(
    a: &mut SetPositionMarginMode,
    es: &Vec<PortfolioEntry>,
    b: &Binding,
    amount: u64,
    assessment: Assessment,
    r: Result<PositionMarginModeChangedEvent, FlashBookError>,
)
    requires
        call_ensures(set_position_isolated, (a, es, b, amount, assessment), r),
    ensures
        ({
            let x = *old(a);
            let others = if x.trader_state.open_positions == 0 {
                0
            } else {
                x.trader_state.open_positions - 1
            };
            &&& r is Ok <==> {
                &&& x.trader_state.trader == x.trader && x.target_position.trader == x.trader
                &&& x.target_position.market == x.target_market_key
                &&& x.target_position.size_lots > 0 && x.target_position.collateral_quote_lots == 0
                &&& 0 < amount <= x.trader_state.collateral_quote_lots
                &&& es@.len() == others
                &&& all_shown_properly(es@, x.trader, *b, Some(x.target_market_key))
                &&& assessment is Ok && assessment->Ok_0.is_healthy
            }
            &&& r is Err ==> *final(a) == x
            &&& r is Ok ==> *final(a) == (SetPositionMarginMode {
                trader_state: TraderStateAccount {
                    collateral_quote_lots: (x.trader_state.collateral_quote_lots - amount) as u64,
                    ..x.trader_state
                },
                target_position: PositionAccount {
                    collateral_quote_lots: amount,
                    ..x.target_position
                },
                ..x
            })
            &&& r matches Ok(e) ==> e.mode == 1 && e.new_isolated_collateral_quote_lots == amount
                && e.new_cross_collateral_quote_lots == x.trader_state.collateral_quote_lots
                - amount
        }),
{
    let x = *old(a);
    lemma_walk_finds_faults(
        es@,
        0,
        x.trader_state.trader,
        *b,
        FlashBookError::Unauthorized,
        Some(x.target_market_key),
    );
}

/// Going back to the pool returns all of a position's own collateral.
pub proof fn law_pooling_returns_collateral(
    a: &mut SetPositionMarginMode,
    es: &Vec<PortfolioEntry>,
    b: &Binding,
    assessment: Assessment,
    r: Result<PositionMarginModeChangedEvent, FlashBookError>,
)
    requires
        call_ensures(set_position_cross, (a, es, b, assessment), r),
    ensures
        ({
            let x = *old(a);
            let own = x.target_position.collateral_quote_lots;
            let others = if x.trader_state.open_positions == 0 {
                0
            } else {
                x.trader_state.open_positions - 1
            };
            &&& r is Ok <==> {
                &&& x.trader_state.trader == x.trader && x.target_position.trader == x.trader
                &&& x.target_position.market == x.target_market_key
                &&& own > 0 && x.trader_state.collateral_quote_lots + own <= u64::MAX
                &&& es@.len() == others
                &&& all_shown_properly(es@, x.trader, *b, Some(x.target_market_key))
                &&& es@.len() > 0 || x.target_position.size_lots > 0 ==> assessment is Ok
                    && assessment->Ok_0.is_healthy
            }
            &&& r is Err ==> *final(a) == x
            &&& r is Ok ==> *final(a) == (SetPositionMarginMode {
                trader_state: TraderStateAccount {
                    collateral_quote_lots: (x.trader_state.collateral_quote_lots + own) as u64,
                    ..x.trader_state
                },
                target_position: PositionAccount { collateral_quote_lots: 0, ..x.target_position },
                ..x
            })
            &&& r matches Ok(e) ==> e.mode == 0 && e.new_isolated_collateral_quote_lots == 0
        }),
{
    let x = *old(a);
    lemma_walk_finds_faults(
        es@,
        0,
        x.trader_state.trader,
        *b,
        FlashBookError::Unauthorized,
        Some(x.target_market_key),
    );
}

/// Gains that have matured are counted for the position and the market alike, and
/// nothing counts that has not.
pub proof fn law_maturing_counts_once(
    a: &mut HaircutAccounts,
    step: Result<(PositionHaircutSnapshot, u64), HaircutError>,
    r: Result<PositionMaturedEvent, FlashBookError>,
)
    requires
        call_ensures(mature_position, (a, step), r),
    ensures
        r is Err ==> *final(a) == *old(a),
        r matches Ok(e) ==> {
            let x = *old(a);
            let y = *final(a);
            let (s, delta) = step->Ok_0;
            &&& step is Ok && delta > 0
            &&& x.position_market == x.haircut_state.market && x.position_haircut.market
                == x.haircut_state.market && x.position_haircut.position == x.position_key
            &&& y.haircut_state == (MarketHaircutStateAccount {
                matured_pos_total_quote_lots: (x.haircut_state.matured_pos_total_quote_lots
                    + delta) as u128,
                ..x.haircut_state
            })
            &&& x.haircut_state.matured_pos_total_quote_lots + delta <= u128::MAX
            &&& y.position_haircut.released_reserve_quote_lots == s.released_reserve_quote_lots
                && y.position_haircut.matured_pos_quote_lots == s.matured_pos_quote_lots
                && y.position_haircut.released_attached_at_slot == s.released_attached_at_slot
                && y.position_haircut.original_reserve_at_attach == s.original_reserve_at_attach
                && y.position_haircut.position == x.position_haircut.position
            &&& e.matured_delta == delta && e.matured_pos_after == s.matured_pos_quote_lots
        },
{
}

/// A conversion takes a position's matured gains out of the market's total, what it
/// credits out of the residual, and leaves the dust behind.
pub proof fn law_conversion_balances(
    a: &mut HaircutAccounts,
    v: Conversion,
    slot: u64,
    r: Result<PositionConvertedEvent, FlashBookError>,
)
    requires
        call_ensures(convert_position, (a, v, slot), r),
    ensures
        r is Err ==> *final(a) == *old(a),
        r matches Ok(e) ==> {
            let x = old(a).haircut_state;
            let y = final(a).haircut_state;
            &&& old(a).position_haircut.matured_pos_quote_lots > 0
            &&& y.residual_quote_lots + v.credit == x.residual_quote_lots
            &&& y.dust_accrued_quote_lots == x.dust_accrued_quote_lots + v.dust
            &&& y.matured_pos_total_quote_lots + old(a).position_haircut.matured_pos_quote_lots
                == x.matured_pos_total_quote_lots
            &&& final(a).position_haircut == (PositionHaircutStateAccount {
                matured_pos_quote_lots: v.matured_after,
                ..old(a).position_haircut
            })
            &&& y.h_cached_at_slot == slot && (v.h_scaled <= u64::MAX ==> y.h_scaled_cached
                == v.h_scaled)
            &&& y.h_min_slots == x.h_min_slots && y.h_max_slots == x.h_max_slots && y.market
                == x.market
            &&& e.credit_quote_lots == v.credit && e.dust_quote_lots == v.dust && e.h_scaled
                == v.h_scaled
        },
{
}

/// Dust goes to the insurance fund, as much as it holds, and the fund counts it.
pub proof fn law_dust_goes_to_the_fund(
    st: &mut MarketHaircutStateAccount,
    f: &mut InsuranceFundAccount,
    r: Result<HaircutDustFlushedEvent, FlashBookError>,
)
    requires
        call_ensures(flush_haircut_dust, (st, f), r),
    ensures
        r is Err ==> *final(st) == *old(st) && *final(f) == *old(f),
        r matches Ok(e) ==> {
            let moved = e.dust_quote_lots;
            &&& moved > 0
            &&& old(st).dust_accrued_quote_lots <= u64::MAX ==> moved == old(st).dust_accrued_quote_lots
            &&& *final(st) == (MarketHaircutStateAccount {
                dust_accrued_quote_lots: (old(st).dust_accrued_quote_lots - moved) as u128,
                ..*old(st)
            })
            &&& *final(f) == (InsuranceFundAccount {
                balance_quote_lots: (old(f).balance_quote_lots + moved) as u64,
                total_contributions: (old(f).total_contributions + moved) as u64,
                ..*old(f)
            })
            &&& old(f).balance_quote_lots + moved <= u64::MAX
        },
        0 < old(st).dust_accrued_quote_lots && old(st).dust_accrued_quote_lots + old(f).balance_quote_lots <= u64::MAX && old(st).dust_accrued_quote_lots + old(f).total_contributions <= u64::MAX ==> r is Ok,
{
}

/// The market's authority moves collateral behind a position into its reserve: out of
/// the position's own bucket if it is isolated, else out of the pool.
pub proof fn law_release_takes_collateral(
    a: &mut ReleaseGainToHaircut,
    gain: u64,
    release: Release,
    r: Result<GainReleasedToHaircutEvent, FlashBookError>,
)
    requires
        call_ensures(release_gain_to_haircut, (a, gain, release), r),
    ensures
        r is Err ==> *final(a) == *old(a),
        r matches Ok(e) ==> {
            let x = *old(a);
            let y = *final(a);
            let iso = x.position.collateral_quote_lots > 0;
            &&& x.market.authority == x.authority && gain > 0
            &&& x.position.market == x.market_key && x.trader_state.trader == x.position.trader
            &&& x.position_haircut.position == x.position_key
            &&& y.position.collateral_quote_lots == x.position.collateral_quote_lots - (if iso {
                gain as int
            } else {
                0
            })
            &&& y.trader_state.collateral_quote_lots == x.trader_state.collateral_quote_lots - (
            if iso {
                0
            } else {
                gain as int
            })
            &&& y.position_haircut.released_reserve_quote_lots
                == release->Ok_0.released_reserve_quote_lots
            &&& e.gain_quote_lots == gain && e.isolated == iso && e.reserve_after
                == release->Ok_0.released_reserve_quote_lots
        },
{
}

/// The market's authority adds to its residual or takes from it, down to nothing.
pub proof fn law_residual_is_seeded(
    key: Pubkey,
    m: &MarketAccount,
    st: &mut MarketHaircutStateAccount,
    signer: Pubkey,
    delta: i128,
    r: Result<ResidualSeededEvent, FlashBookError>,
)
    requires
        call_ensures(seed_residual, (key, m, st, signer, delta), r),
    ensures
        r is Ok <==> old(st).market == key && m.authority == signer && 0 <= old(st).residual_quote_lots + delta <= u128::MAX,
        r is Err ==> *final(st) == *old(st),
        r matches Ok(e) ==> final(st).residual_quote_lots == old(st).residual_quote_lots + delta
            && *final(st) == (MarketHaircutStateAccount {
            residual_quote_lots: final(st).residual_quote_lots,
            ..*old(st)
        }) && e.new_residual == final(st).residual_quote_lots,
{
}

/// The protocol is solvent exactly if the vault holds what the fund and the pool claim
/// together.
pub proof fn law_solvency(
    vault: u64,
    f: &InsuranceFundAccount,
    capital: u64,
    r: Result<ProtocolSolvencyCheckedEvent, FlashBookError>,
)
    requires
        call_ensures(verify_protocol_solvency, (vault, f, capital), r),
    ensures
        r is Ok <==> f.balance_quote_lots + capital <= vault,
        r matches Ok(e) ==> e.solvent && e.surplus_quote_lots + f.balance_quote_lots + capital
            == vault,
{
}

/// A trader's own settings: the discount is the protocol's to give and at most 120
/// percent; delegate, builder and referrer are the trader's, the builder's share at
/// most all, and the referrer chosen once.
pub proof fn law_trader_settings(
    a: &mut TraderStateAccount,
    b: &mut TraderStateAccount,
    c: &mut TraderStateAccount,
    d: &mut TraderStateAccount,
    f: &InsuranceFundAccount,
    signer: Pubkey,
    key: Pubkey,
    bps: u32,
    tier: Result<TraderFeeTierUpdatedEvent, FlashBookError>,
    delegate: Result<TraderDelegateUpdatedEvent, FlashBookError>,
    builder: Result<TraderBuilderUpdatedEvent, FlashBookError>,
    referrer: Result<TraderReferrerSetEvent, FlashBookError>,
)
    requires
        call_ensures(set_trader_fee_tier, (a, f, signer, bps), tier),
        call_ensures(set_trader_delegate, (b, signer, key), delegate),
        call_ensures(set_trader_builder, (c, signer, key, bps), builder),
        call_ensures(set_trader_referrer, (d, signer, key), referrer),
    ensures
        tier is Ok <==> f.authority == signer && bps <= 12_000,
        *final(a) == (if tier is Ok {
            TraderStateAccount { fee_discount_bps: bps, ..*old(a) }
        } else {
            *old(a)
        }),
        delegate is Ok <==> old(b).trader == signer,
        *final(b) == (if delegate is Ok {
            TraderStateAccount { delegate: key, ..*old(b) }
        } else {
            *old(b)
        }),
        builder is Ok <==> old(c).trader == signer && bps <= 10_000,
        *final(c) == (if builder is Ok {
            TraderStateAccount {
                builder: key,
                builder_max_fee_share_bps: if key == (Pubkey { hi: 0, lo: 0 }) {
                    0
                } else {
                    bps
                },
                ..*old(c)
            }
        } else {
            *old(c)
        }),
        referrer is Ok <==> old(d).trader == signer && !old(d).referrer_locked && old(d).referrer
            == (Pubkey { hi: 0, lo: 0 }),
        *final(d) == (if referrer is Ok {
            TraderStateAccount { referrer: key, referrer_locked: true, ..*old(d) }
        } else {
            *old(d)
        }),
{
}

/// A position's leverage cap is set by its trader or the trader's delegate, to at most
/// the market's.
pub proof fn law_leverage_cap(
    key: Pubkey,
    m: &MarketAccount,
    s: &TraderStateAccount,
    p: &mut PositionAccount,
    signer: Pubkey,
    cap: u32,
    r: Result<PositionLeverageUpdatedEvent, FlashBookError>,
)
    requires
        call_ensures(set_position_leverage, (key, m, s, p, signer, cap), r),
    ensures
        r is Ok <==> s.trader == old(p).trader && (signer == s.trader || (s.delegate != (Pubkey {
            hi: 0,
            lo: 0,
        }) && signer == s.delegate)) && cap <= m.params.max_leverage,
        *final(p) == (if r is Ok {
            PositionAccount { leverage_cap: cap, ..*old(p) }
        } else {
            *old(p)
        }),
        r matches Ok(e) ==> e.previous_cap == old(p).leverage_cap && e.new_cap == cap,
{
}

/// The position after a leg is the position plus the leg, at the entry price of a
/// position that was there and at the leg's limit otherwise; one that is closed exactly
/// is gone.
pub proof fn law_leg_is_projected(
    e: &BasketEntry,
    trader: Pubkey,
    r: Result<Option<RiskPosSnap>, FlashBookError>,
)
    requires
        call_ensures(project_post_leg, (e, trader), r),
        e.position.side <= 1,
        e.leg.side <= 1,
        e.leg.size_lots > 0,
        e.position.size_lots + e.leg.size_lots <= u64::MAX,
    ensures
        ({
            let p = e.position;
            let leg = e.leg;
            let sum = exposure(p.side, p.size_lots as int) + exposure(
                leg.side,
                leg.size_lots as int,
            );
            &&& r is Ok <==> p.size_lots == 0 || (p.trader == trader && p.market == e.market_key)
            &&& r is Ok ==> (r->Ok_0 is None <==> sum == 0)
            &&& r is Ok && r->Ok_0 is Some ==> {
                let s = r->Ok_0->0;
                &&& s.market == e.market_key
                &&& sum == if s.side == Side::Long {
                    s.size_lots as int
                } else {
                    -(s.size_lots as int)
                }
                &&& s.entry_price_ticks == (if p.size_lots == 0 {
                    leg.limit_ticks
                } else {
                    p.entry_price_ticks
                })
                &&& s.collateral_quote_lots == p.collateral_quote_lots
                &&& s.cum_funding_index_at_entry == (if p.size_lots == 0 {
                    e.market.cum_funding_index
                } else {
                    p.cum_funding_index_at_entry
                })
            }
        }),
{
    law_projection_adds_the_leg(*e);
}

/// The predicted rate has the sign of the premium and is within the market's limit;
/// without a published price it is nothing.
pub proof fn law_predicted_funding(key: Pubkey, m: &MarketAccount, r: PredictedFundingEvent)
    requires
        call_ensures(view_predicted_funding, (key, m), r),
    ensures
        r.market == key && r.mark_price_ticks == m.mark_price_ticks && r.oracle_price_ticks
            == m.oracle_price_ticks && r.current_cum_index == m.cum_funding_index,
        m.oracle_price_ticks == 0 ==> r.rate_bps_per_sec == 0 && r.premium_bps == 0,
        -(m.params.funding_rate_max_bps_per_sec as int) <= r.rate_bps_per_sec
            <= m.params.funding_rate_max_bps_per_sec,
        m.mark_price_ticks >= m.oracle_price_ticks ==> r.premium_bps >= 0 && r.rate_bps_per_sec
            >= 0,
        m.mark_price_ticks <= m.oracle_price_ticks ==> r.premium_bps <= 0 && r.rate_bps_per_sec
            <= 0,
        m.oracle_price_ticks > 0 && m.mark_price_ticks >= m.oracle_price_ticks && r.premium_bps
            < i64::MAX ==> r.premium_bps * m.oracle_price_ticks <= (m.mark_price_ticks
            - m.oracle_price_ticks) * 10_000 < (r.premium_bps + 1) * m.oracle_price_ticks,
        m.oracle_price_ticks > 0 && m.mark_price_ticks <= m.oracle_price_ticks ==> -r.premium_bps
            * m.oracle_price_ticks <= (m.oracle_price_ticks - m.mark_price_ticks) * 10_000 < (
        -r.premium_bps + 1) * m.oracle_price_ticks,
        m.oracle_price_ticks > 0 && r.premium_bps >= 0 && r.rate_bps_per_sec
            < m.params.funding_rate_max_bps_per_sec ==> r.rate_bps_per_sec * 10_000
            <= m.params.funding_rate_k_bps * r.premium_bps < (r.rate_bps_per_sec + 1) * 10_000,
{
    let o = m.oracle_price_ticks as int;
    let k = m.params.funding_rate_k_bps as int;
    if o > 0 {
        let d = abs_int(m.mark_price_ticks - o) * 10_000;
        lemma_rounds_down(d, o);
        let q = d / o;
        let p = r.premium_bps as int;
        if m.mark_price_ticks <= o {
            assert(q <= 10_000) by (nonlinear_arith)
                requires
                    q == d / o,
                    0 <= d <= o * 10_000,
                    o > 0,
            ;
        }
        let kp = k * abs_int(p);
        lemma_product(k, abs_int(p));
        lemma_rounds_down(kp, 10_000);
        assert(k * p == if p >= 0 {
            kp
        } else {
            -kp
        }) by (nonlinear_arith)
            requires
                kp == k * abs_int(p),
                p >= 0 ==> abs_int(p) == p,
                p < 0 ==> abs_int(p) == -p,
        ;
        if p == 0 {
            assert(kp == 0) by (nonlinear_arith)
                requires
                    kp == k * abs_int(p),
                    abs_int(p) == 0,
            ;
        }
    }
}

} // verus!
