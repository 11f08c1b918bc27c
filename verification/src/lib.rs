//! Verified core of a confession bot: anonymous author ids, message texts,
//! button identifiers and the decisions of each command.
pub mod config;
pub mod text;
pub mod hash;
pub mod button;
pub mod messages;
pub mod vetting;
pub mod confess;
pub mod review;
pub mod setup;
pub mod guild;
