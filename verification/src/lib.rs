//! Core of a small network-accessible log database: the manifest registry of
//! named logs and named derived iterators, the command dispatch over it, and
//! the per-connection step logic that frames responses.

pub mod clock;
pub mod commands;
pub mod conn;
pub mod db;
pub mod errors;
pub mod manifest;
pub mod name_map;
