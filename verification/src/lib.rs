//! Verified building blocks of the Light Protocol client and program libraries:
//! indexer API models, batched address tree parameters, transaction event
//! assembly, input account metadata and light system program invocation.

pub mod models;
pub mod pubkey;
pub mod address_tree;
pub mod event;
pub mod account_meta;
pub mod verify;
