//! What the wallet drivers decide. The drivers themselves talk to processes and networks; here is
//! what they say, and what they make of the answers.

pub mod launch;
pub mod polling;
pub mod usage;
pub mod shared;
pub mod new_wallet;
pub mod old_wallet;
pub mod payment_processor;
pub mod library_wallet;
