//! Flash Book: the rules of a pool-backed order-book exchange for perpetuals.
use vstd::prelude::*;

pub mod baskets;
pub mod baskets_n;
pub mod book;
pub mod collateral;
pub mod collateral_laws;
pub mod conditional_laws;
pub mod constants;
pub mod delegation;
pub mod deleveraging;
pub mod envelope;
pub mod errors;
pub mod events;
pub mod fees;
pub mod fill_laws;
pub mod flp;
pub mod flp_settlement;
pub mod flp_v3;
pub mod funding;
pub mod haircut;
pub mod iceberg;
pub mod insurance;
pub mod jit_offers;
pub mod keys;
pub mod liquidation;
pub mod liquidation_laws;
pub mod margin_mode;
pub mod mark;
pub mod market;
pub mod market_laws;
pub mod matching;
pub mod math;
pub mod oracle;
pub mod order_laws;
pub mod orders;
pub mod pda;
pub mod pool_laws;
pub mod portfolio_liquidation;
pub mod position;
pub mod position_laws;
pub mod pyth;
pub mod quoter;
pub mod risk;
pub mod settlement;
pub mod settlement_laws;
pub mod setup_laws;
pub mod state;
pub mod tiers;
pub mod trader;
pub mod trailing;
pub mod triggers;
pub mod triggers_v3;
pub mod twap;
pub mod vaults;
pub mod vaults_v3;
pub mod view_laws;

verus! {

} // verus!
