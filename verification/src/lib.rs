//! The core of a dependency-injection framework.
//!
//! * [`container`] holds the registry: at most one published component per
//!   key, never replaced once published.
//! * [`traits`] and [`types`] hold the resolution protocol built on it:
//!   portals that build their component on first use, providers that point to
//!   a portal, and handles tagged to register one target several times.
//! * [`derive_di_portal`], [`provider`], [`di`], [`def_di_provider_sync`] and
//!   [`def_async_di_provider`] turn declarations, described by the types of
//!   [`syntax`], into the code of portals, providers and resolving calls.

pub mod container;
pub mod def_async_di_provider;
pub mod def_di_provider_sync;
pub mod derive_di_portal;
pub mod di;
pub mod error;
pub mod helper;
pub mod ident;
pub mod provider;
pub mod syntax;
pub mod traits;
pub mod types;
