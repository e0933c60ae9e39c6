//! Verified core of the velocity fuzzing harnesses.
//!
//! The harnesses drive a perpetuals exchange program inside a virtual machine
//! and watch its global invariants. Everything that only computes lives here
//! and is proved: the wire encodings, the transactions each action sends, the
//! account states a scenario starts from, and the invariants that are checked
//! after every action. Running the machine and reading its accounts is left to
//! the application around this library.

pub mod accounts;
pub mod address_laws;
pub mod amm_pricing;
pub mod book;
pub mod call_laws;
pub mod compound;
pub mod constants;
pub mod discriminators;
pub mod envelope;
pub mod fixture;
pub mod idl;
pub mod idl_laws;
pub mod insurance;
pub mod invariant_laws;
pub mod invariants;
pub mod keys;
pub mod lazer;
pub mod liq;
pub mod liq_call_laws;
pub mod liq_laws;
pub mod margin;
pub mod margin_laws;
pub mod message_call_laws;
pub mod message_laws;
pub mod model;
pub mod oracle;
pub mod oracle_laws;
pub mod order_call_laws;
pub mod order_calls;
pub mod params;
pub mod pause;
pub mod preparation_laws;
pub mod pricing_laws;
pub mod programs;
pub mod repay;
pub mod revshare;
pub mod scenario;
pub mod scenario_call_laws;
pub mod scenario_laws;
pub mod settlement;
pub mod setup;
pub mod setup_laws;
pub mod signed_msg;
pub mod spot_actions;
pub mod spot_call_laws;
pub mod sum_laws;
pub mod sweep_laws;
pub mod swift;
pub mod trading;
pub mod trading_call_laws;
pub mod trading_laws;
pub mod user_actions;
pub mod user_call_laws;
pub mod wire;
pub mod wire_laws;
