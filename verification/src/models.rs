//! The records the API reads and writes. Identifiers are UUIDs held as `u128`
//! (see `ids`); backup manifests are JSON values carried through unread.

use vstd::prelude::*;

verus! {

/// `serde_json::Value`, declared so that backup manifests can be carried
/// through; nothing inside a value is read or claimed.
#[verifier::external_type_specification]
#[verifier::external_body]
pub struct ExJsonValue(serde_json::Value);

/// The signed-in caller, as Supabase Auth identified them.
#[derive(Debug, Clone, PartialEq, Eq)]
pub struct CurrentUser {
    pub id: u128,
    pub email: Option<String>,
}

/// The user record that Supabase Auth returns for a valid access token.
#[derive(Debug, Clone, PartialEq, Eq)]
pub struct SupabaseUser {
    pub id: u128,
    pub email: Option<String>,
}

/// The body of `POST /api/devices`.
#[derive(Debug, Clone, PartialEq, Eq)]
pub struct CreateDevice {
    pub name: String,
    pub platform: String,
    pub architecture: Option<String>,
    pub app_version: Option<String>,
}

/// A device row.
#[derive(Debug, Clone, PartialEq, Eq)]
pub struct Device {
    pub id: u128,
    pub user_id: u128,
    pub name: String,
    pub platform: String,
    pub architecture: Option<String>,
    pub app_version: Option<String>,
    pub created_at: Option<String>,
    pub updated_at: Option<String>,
}

/// The body of `POST /api/backups`.
#[derive(Debug, PartialEq)]
pub struct CreateBackup {
    pub device_id: u128,
    pub name: String,
    pub manifest: serde_json::Value,
    pub is_public: bool,
}

/// A backup row.
#[derive(Debug, PartialEq)]
pub struct Backup {
    pub id: u128,
    pub user_id: u128,
    pub device_id: u128,
    pub name: String,
    pub manifest: serde_json::Value,
    pub status: String,
    pub is_public: bool,
    pub fork_count: Option<i32>,
    pub forked_from: Option<u128>,
    pub created_at: Option<String>,
    pub updated_at: Option<String>,
}

/// The body of `POST /api/backups/:id/fork`: the device to copy a backup onto,
/// and an optional name for the copy.
#[derive(Debug, Clone, PartialEq, Eq)]
pub struct ForkBackupRequest {
    pub target_device_id: u128,
    pub name: Option<String>,
}

/// Filter options for browsing public backups.
#[derive(Debug, Clone, PartialEq, Eq)]
pub struct PublicBackupsQuery {
    pub limit: Option<i64>,
    pub offset: Option<i64>,
    pub search: Option<String>,
}

/// The row inserted by `POST /api/devices`.
#[derive(Debug, Clone, PartialEq, Eq)]
pub struct NewDevice {
    pub user_id: u128,
    pub name: String,
    pub platform: String,
    pub architecture: Option<String>,
    pub app_version: Option<String>,
}

/// The row inserted for a new backup; `is_public` is sent only when it is set.
#[derive(Debug, PartialEq)]
pub struct NewBackup {
    pub user_id: u128,
    pub device_id: u128,
    pub name: String,
    pub manifest: serde_json::Value,
    pub status: String,
    pub is_public: Option<bool>,
}

/// The answer to a delete that Supabase accepted: `{"deleted": true}`.
#[derive(Debug, Clone, Copy, PartialEq, Eq)]
pub struct Deleted {
    pub deleted: bool,
}

} // verus!
