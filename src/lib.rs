//! Anchor and device management, registration gating and delegation bookkeeping
//! of an identity anchor service, with contracts proved by Verus.

pub mod principal;
pub mod device;
pub mod anchor;
pub mod tentative;
pub mod rate_limit;
pub mod challenge;
pub mod storage;
pub mod registration;
pub mod signature_map;
pub mod delegation;
pub mod assets;
pub mod state;
pub mod fixtures;
