//! Verified core of a reactive web client: a keyed cache of asynchronously
//! fetched values, remote mutations (login, logout, theme change) with
//! version counters, invalidation effects that refetch stale cache entries
//! once per mutation, and the derived signals the navigation renders from.

pub mod app;
pub mod effect;
pub mod errors;
pub mod mutation;
pub mod resource;
pub mod signals;
pub mod site;
pub mod theme;
