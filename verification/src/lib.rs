//! A setup tool's verified core: a catalog of installable and launchable
//! packages, selection of release assets by name patterns, and the
//! decisions behind fetching, installing and launching — all stated as
//! contracts and checked. The host side (network transfers, file writes,
//! process spawns, the window toolkit) sits outside and executes the plans
//! this library resolves.

pub mod data;
pub mod display;
pub mod fetch;
pub mod messages;
pub mod output;
pub mod package;
pub mod plan;
pub mod release;
pub mod text;
