//! Fixed numbers of the protocol.
use vstd::prelude::*;

verus! {

/// One hundred percent, in basis points.
pub const BPS_DENOM: u64 = 10_000;

/// Largest per-trader fee discount: 120%, so that a taker can be paid to trade.
pub const MAX_FEE_DISCOUNT_BPS: u32 = 12_000;

/// Largest fee or rebate that a fee tier may carry: 10%.
pub const MAX_FEE_TIER_BPS: u32 = 1_000;

/// Number of fee tiers a table holds.
pub const MAX_FEE_TIERS: usize = 10;

/// Number of leverage tiers a table holds.
pub const MAX_LEVERAGE_TIERS: usize = 8;

/// One dollar in the six-decimal fixed point of share prices.
pub const USD_UNIT: u64 = 1_000_000;

/// Levels per side that the book depth view reports.
pub const BOOK_DEPTH_LEVELS: usize = 4;

/// Resting orders per side that one taker order may walk.
pub const MAX_BATCH_ORDERS_PER_SIDE_V2: usize = 256;

/// Share of the open notional that has to stay behind a partial withdrawal: 10%.
pub const WITHDRAWAL_FLOOR_BPS: u32 = 1_000;

/// Resting orders that one bulk cancel removes at most.
pub const MAX_CANCELS_PER_IX_V2: usize = 24;

/// Bytes of a freshly created market book account.
pub const MARKET_BOOK_TOTAL_BYTES: u64 = 8_264;

/// Bytes of the market book that precede its nodes.
pub const MARKET_BOOK_PREFIX_BYTES: u64 = 264;

/// Bytes of the node area of a freshly created market book.
pub const MARKET_BOOK_DATA_BYTES: u64 = 8_000;

/// Bytes by which one call may grow an account.
pub const MAX_PERMITTED_DATA_INCREASE: u64 = 10_240;

/// Slots of the pool's exposure table.
pub const FLP_MARKET_SLOTS: usize = 16;

/// Side byte of an unused slot of the pool's exposure table.
pub const EMPTY_SIDE: u8 = 255;

/// Deployment-wide limits that every market of a deployment shares.
#[derive(Clone, Copy, Debug, PartialEq, Eq, Structural)]
pub struct Limits {
    /// Order sequence numbers from here on belong to the pool's virtual quotes.
    pub flp_seq_reserved_offset: u64,
    /// Orders that one trader may place in one batch.
    pub max_orders_per_trader_per_batch: u32,
    /// Legs of one basket order.
    pub max_basket_legs_n: usize,
    /// Slots after which a trader's rolling volume starts over.
    pub default_volume_window_slots: u64,
}

} // verus!
