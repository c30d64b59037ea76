//! Request logic of the UpEnv API: bearer-token extraction, Supabase REST
//! request construction and reply handling, input validation for devices and
//! backups, and the backup-fork workflow, each with its contract.

pub mod text;
pub mod error;
pub mod ids;
pub mod http_values;
pub mod models;
pub mod auth;
pub mod supabase;
pub mod routes;
pub mod cors;
pub mod backup;
pub mod config;
