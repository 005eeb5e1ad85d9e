//! Records of the exchange's account responses. Every amount is kept as
//! the decimal text that the exchange sends.
use vstd::prelude::*;

verus! {

/// Balance of one currency.
#[derive(Debug, Clone, PartialEq, Eq)]
pub struct Balance {
    /// Currency code (wire name `ccy`).
    pub ccy: String,
    /// Cash balance (wire name `cashBal`).
    pub balance: String,
    /// Available balance (wire name `availBal`).
    pub available_balance: String,
    /// Frozen balance (wire name `frozenBal`).
    pub frozen_balance: String,
    /// Liabilities (wire name `liab`), where they apply.
    pub liability: Option<String>,
    /// Available equity (wire name `availEq`), where it applies.
    pub available_equity: Option<String>,
    /// Unrealized profit and loss (wire name `upl`), where it applies.
    pub unrealized_pl: Option<String>,
}

/// Account-wide figures in USD, with the balance of each currency.
#[derive(Debug, Clone, PartialEq, Eq)]
pub struct AccountBalanceInfo {
    pub adj_eq: String,
    pub borrow_froz: String,
    pub details: Vec<Balance>,
    pub imr: String,
    pub iso_eq: String,
    pub mgn_ratio: String,
    pub mmr: String,
    pub notional_usd: String,
    pub notional_usd_for_borrow: String,
    pub notional_usd_for_futures: String,
    pub notional_usd_for_option: String,
    pub notional_usd_for_swap: String,
    pub ord_froz: String,
    pub total_eq: String,
    pub u_time: String,
    pub upl: String,
}

/// How collateral is shared between positions.
#[derive(Debug, Clone, Copy, PartialEq, Eq, Structural)]
pub enum MarginMode {
    /// All positions share the account's collateral (wire value `cross`).
    Cross,
    /// Each position has collateral of its own (wire value `isolated`).
    Isolated,
}

/// Account settings.
#[derive(Debug, Clone, PartialEq, Eq)]
pub struct AccountConfig {
    /// Account id (wire name `acctId`).
    pub account_id: String,
    /// Position mode (wire name `posMode`).
    pub position_mode: String,
    /// Whether the account borrows automatically (wire name `autoLoan`).
    pub auto_loan: bool,
    /// Account level.
    pub level: String,
    /// Margin mode (wire name `mgnMode`).
    pub margin_mode: MarginMode,
}

/// Risk figures of the account.
#[derive(Debug, Clone, PartialEq, Eq)]
pub struct AccountRisk {
    /// Current risk.
    pub risk: String,
    /// Risk level (wire name `riskLvl`).
    pub risk_level: String,
    /// Total equity (wire name `totalEq`).
    pub total_equity: String,
}

} // verus!
