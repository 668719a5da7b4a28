//! What a request can be refused for.
use vstd::prelude::*;

verus! {

/// Every reason for which the exchange refuses a request.
#[derive(Clone, Copy, Debug, PartialEq, Eq, Structural)]
pub enum FlashBookError {
    AdlNotEligible,
    AlreadyInitialized,
    ArithmeticOverflow,
    ArithmeticUnderflow,
    BufferFull,
    DivisionByZero,
    EnvelopeAccrualWindowInvalid,
    EnvelopeFundingCapInvalid,
    EnvelopeLiqFeeInvalid,
    EnvelopeMaintenanceInvalid,
    EnvelopePriceCapInvalid,
    EnvelopePriceMoveExceedsCap,
    EnvelopeSameSlotMove,
    EnvelopeViolated,
    FillOrKillNotFilled,
    FlpWithdrawUndercollateralized,
    HaircutInvertedWindow,
    HaircutNothingToConvert,
    HaircutNothingToMature,
    HaircutResidualUnderflow,
    HaircutStateMismatch,
    HaircutWindowTooLarge,
    HaircutZeroGain,
    InsufficientCollateral,
    LeverageExceeded,
    LiquidationStale,
    MissingMarketAccount,
    NotLiquidatable,
    OcoPairMismatch,
    OpenInterestCapExceeded,
    OpenInterestImbalance,
    OracleConfidenceTooWide,
    OracleQuorumDispersionTooWide,
    OracleTooStale,
    OutOfRange,
    PositionSizeCapExceeded,
    PostOnlyWouldCross,
    PriceNotOnTick,
    RateLimited,
    SelfTrade,
    SizeBelowMinLot,
    SweepRequiresFlat,
    TraderLiquidatable,
    TriggerSlippageExceeded,
    Unauthorized,
    VaultBelowHighWaterMark,
    VaultNavNonPositive,
    WrongMarket,
    WrongTrader,
    ZeroPrice,
    ZeroSize,
}

/// Failures of the haircut arithmetic.
#[derive(Clone, Copy, Debug, PartialEq, Eq, Structural)]
pub enum HaircutError {
    Overflow,
    Underflow,
    InvertedWindow,
    WindowTooLarge,
    ZeroGain,
}

/// Failures of the price-envelope arithmetic.
#[derive(Clone, Copy, Debug, PartialEq, Eq, Structural)]
pub enum EnvelopeError {
    PriceCapZero,
    PriceCapTooLarge,
    AccrualDtZero,
    AccrualDtTooLarge,
    FundingCapTooLarge,
    MaintenanceZero,
    MaintenanceTooLarge,
    LiqFeeTooLarge,
    Overflow,
    SameSlotMove,
    PriceMoveExceedsCap,
    EnvelopeViolated,
}

/// The refusal that a haircut failure stands for.
pub open spec fn haircut_refusal(e: HaircutError) -> FlashBookError {
    match e {
        HaircutError::Overflow => FlashBookError::ArithmeticOverflow,
        HaircutError::Underflow => FlashBookError::ArithmeticUnderflow,
        HaircutError::InvertedWindow => FlashBookError::HaircutInvertedWindow,
        HaircutError::WindowTooLarge => FlashBookError::HaircutWindowTooLarge,
        HaircutError::ZeroGain => FlashBookError::HaircutZeroGain,
    }
}

/// Turns a haircut failure into the refusal that callers see.
pub fn map_haircut_error(e: HaircutError) -> (r: FlashBookError)
    ensures
        r == haircut_refusal(e),
{
    match e {
        HaircutError::Overflow => FlashBookError::ArithmeticOverflow,
        HaircutError::Underflow => FlashBookError::ArithmeticUnderflow,
        HaircutError::InvertedWindow => FlashBookError::HaircutInvertedWindow,
        HaircutError::WindowTooLarge => FlashBookError::HaircutWindowTooLarge,
        HaircutError::ZeroGain => FlashBookError::HaircutZeroGain,
    }
}

/// The refusal that an envelope failure stands for.
pub open spec fn envelope_refusal(e: EnvelopeError) -> FlashBookError {
    match e {
        EnvelopeError::PriceCapZero => FlashBookError::EnvelopePriceCapInvalid,
        EnvelopeError::PriceCapTooLarge => FlashBookError::EnvelopePriceCapInvalid,
        EnvelopeError::AccrualDtZero => FlashBookError::EnvelopeAccrualWindowInvalid,
        EnvelopeError::AccrualDtTooLarge => FlashBookError::EnvelopeAccrualWindowInvalid,
        EnvelopeError::FundingCapTooLarge => FlashBookError::EnvelopeFundingCapInvalid,
        EnvelopeError::MaintenanceZero => FlashBookError::EnvelopeMaintenanceInvalid,
        EnvelopeError::MaintenanceTooLarge => FlashBookError::EnvelopeMaintenanceInvalid,
        EnvelopeError::LiqFeeTooLarge => FlashBookError::EnvelopeLiqFeeInvalid,
        EnvelopeError::Overflow => FlashBookError::ArithmeticOverflow,
        EnvelopeError::SameSlotMove => FlashBookError::EnvelopeSameSlotMove,
        EnvelopeError::PriceMoveExceedsCap => FlashBookError::EnvelopePriceMoveExceedsCap,
        EnvelopeError::EnvelopeViolated => FlashBookError::EnvelopeViolated,
    }
}

/// Turns an envelope failure into the refusal that callers see.
pub fn map_envelope_error(e: EnvelopeError) -> (r: FlashBookError)
    ensures
        r == envelope_refusal(e),
{
    match e {
        EnvelopeError::PriceCapZero => FlashBookError::EnvelopePriceCapInvalid,
        EnvelopeError::PriceCapTooLarge => FlashBookError::EnvelopePriceCapInvalid,
        EnvelopeError::AccrualDtZero => FlashBookError::EnvelopeAccrualWindowInvalid,
        EnvelopeError::AccrualDtTooLarge => FlashBookError::EnvelopeAccrualWindowInvalid,
        EnvelopeError::FundingCapTooLarge => FlashBookError::EnvelopeFundingCapInvalid,
        EnvelopeError::MaintenanceZero => FlashBookError::EnvelopeMaintenanceInvalid,
        EnvelopeError::MaintenanceTooLarge => FlashBookError::EnvelopeMaintenanceInvalid,
        EnvelopeError::LiqFeeTooLarge => FlashBookError::EnvelopeLiqFeeInvalid,
        EnvelopeError::Overflow => FlashBookError::ArithmeticOverflow,
        EnvelopeError::SameSlotMove => FlashBookError::EnvelopeSameSlotMove,
        EnvelopeError::PriceMoveExceedsCap => FlashBookError::EnvelopePriceMoveExceedsCap,
        EnvelopeError::EnvelopeViolated => FlashBookError::EnvelopeViolated,
    }
}

} // verus!
