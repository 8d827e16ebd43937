//! On-chain FATF Travel Rule compliance: a registry of VASPs, per-asset and
//! per-jurisdiction compliance thresholds, and a payment escrow that holds
//! payments at or above the threshold until the beneficiary VASP attests.

pub mod bytes;
pub mod types;
pub mod bytemap;
pub mod rules;
pub mod steps;
pub mod contract;
pub mod laws;

pub use contract::{ComplyRailContract, Env, EnvView};
pub use types::{
    Address, Approvals, Bytes32, ContractError, Event, PaymentRecord, PaymentStatus, ThresholdConfig,
    VaspEntry, VaspStatus,
};
