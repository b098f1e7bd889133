//! The account state of the stake pool, gathered in one place.

pub use crate::fee::{Fee, FeeType, FutureEpoch, FutureEpochFee};
pub use crate::pool::{AccountType, Lockup, StakePool};
pub use crate::validator::{PodStakeStatus, StakeStatus, ValidatorStakeInfo};
pub use crate::validator_list::{DerivedStakeAccount, ValidatorList, ValidatorListHeader};
