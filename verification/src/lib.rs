//! The domain of a firearm-owner's backend, verified: users and
//! sessions, guns and the gun catalog, licenses, the ammunition ledger
//! and laws, with the decisions of the account and authentication flows
//! and the HTTP answers to domain errors.

pub mod text;
pub mod clock;
pub mod base64;
pub mod errors;
pub mod user;
pub mod identity;
pub mod ammo;
pub mod armory;
pub mod law;
pub mod license;
pub mod api_error;
pub mod auth;
pub mod account;
pub mod sighting;
pub mod audit;
