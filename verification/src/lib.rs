//! Control-plane logic for a single-host virtual machine manager: the entity
//! schema with its validation and migration chain, store keys, rendered host
//! units, the hypervisor bootstrap plan and the DNS zone plan.

pub mod apiserver;
pub mod ch;
pub mod client;
pub mod dns;
pub mod entity;
pub mod error;
pub mod facade;
pub mod hashing;
pub mod json;
pub mod laws;
pub mod mac;
pub mod migrate;
pub mod patterns;
pub mod schema;
pub mod store;
pub mod systemd;
pub mod text;
pub mod unitserver;
pub mod value;
