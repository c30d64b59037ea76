//! What the device and backup endpoints ask of Supabase: the PostgREST paths
//! they read and delete, the rows they insert, and the checks on their input.

use vstd::prelude::*;
use vstd::string::*;

use crate::error::ApiError;
use crate::ids::{uuid_text, uuid_to_string};
use crate::models::{CreateBackup, CreateDevice, CurrentUser, NewBackup, NewDevice};
use crate::text::{is_blank, trimmed};

verus! {

/// `head + id + tail`, with the id in its hyphenated form.
fn around_id(head: &str, id: u128, tail: &str) -> (r: String)
    ensures
        r@ == head@ + uuid_text(id) + tail@,
{
    let mut r = String::from_str(head);
    let id_text = uuid_to_string(id);
    r.append(id_text.as_str());
    r.append(tail);
    r
}

/// The PostgREST path listing the caller's devices, newest first (`GET /api/devices`).
pub fn list_devices_path(user_id: u128) -> (r: String)
    ensures
        r@ == "devices?select=*&user_id=eq."@ + uuid_text(user_id) + "&order=created_at.desc"@,
{
    around_id("devices?select=*&user_id=eq.", user_id, "&order=created_at.desc")
}

/// The PostgREST path listing the caller's backups, newest first (`GET /api/backups`).
pub fn list_backups_path(user_id: u128) -> (r: String)
    ensures
        r@ == "backups?select=*&user_id=eq."@ + uuid_text(user_id) + "&order=created_at.desc"@,
{
    around_id("backups?select=*&user_id=eq.", user_id, "&order=created_at.desc")
}

/// `table?id=eq.<id>&user_id=eq.<user_id>`.
fn owned_row_path(table_and_id: &str, id: u128, user_id: u128) -> (r: String)
    ensures
        r@ == table_and_id@ + uuid_text(id) + "&user_id=eq."@ + uuid_text(user_id),
{
    let mut r = around_id(table_and_id, id, "&user_id=eq.");
    let user_text = uuid_to_string(user_id);
    r.append(user_text.as_str());
    r
}

/// The PostgREST path of device `id`, restricted to the caller's rows
/// (`DELETE /api/devices/:id`).
pub fn delete_device_path(id: u128, user_id: u128) -> (r: String)
    ensures
        r@ == "devices?id=eq."@ + uuid_text(id) + "&user_id=eq."@ + uuid_text(user_id),
{
    owned_row_path("devices?id=eq.", id, user_id)
}

/// The PostgREST path of backup `id`, restricted to the caller's rows
/// (`DELETE /api/backups/:id`).
pub fn delete_backup_path(id: u128, user_id: u128) -> (r: String)
    ensures
        r@ == "backups?id=eq."@ + uuid_text(id) + "&user_id=eq."@ + uuid_text(user_id),
{
    owned_row_path("backups?id=eq.", id, user_id)
}

/// The row `POST /api/devices` inserts for the caller: refused with
/// `BadRequest` when the name or the platform is blank.
pub fn create_device(user: &CurrentUser, input: CreateDevice) -> (r: Result<NewDevice, ApiError>)
    ensures
        trimmed(input.name@).len() == 0 || trimmed(input.platform@).len() == 0 ==> (r matches Err(
            ApiError::BadRequest(m),
        ) && m@ == "name and platform are required"@),
        trimmed(input.name@).len() != 0 && trimmed(input.platform@).len() != 0 ==> r == Ok::<
            NewDevice,
            ApiError,
        >(
            NewDevice {
                user_id: user.id,
                name: input.name,
                platform: input.platform,
                architecture: input.architecture,
                app_version: input.app_version,
            },
        ),
{
    if is_blank(input.name.as_str()) || is_blank(input.platform.as_str()) {
        return Err(ApiError::BadRequest(String::from_str("name and platform are required")));
    }
    Ok(
        NewDevice {
            user_id: user.id,
            name: input.name,
            platform: input.platform,
            architecture: input.architecture,
            app_version: input.app_version,
        },
    )
}

/// The row `POST /api/backups` inserts for the caller, with status `ready`:
/// refused with `BadRequest` when the name is blank. The request's `is_public`
/// is not sent.
pub fn create_backup(user: &CurrentUser, input: CreateBackup) -> (r: Result<NewBackup, ApiError>)
    ensures
        trimmed(input.name@).len() == 0 ==> (r matches Err(ApiError::BadRequest(m)) && m@
            == "name is required"@),
        trimmed(input.name@).len() != 0 ==> (r matches Ok(row) && row.user_id == user.id
            && row.device_id == input.device_id && row.name == input.name && row.manifest
            == input.manifest && row.status@ == "ready"@ && row.is_public is None),
{
    if is_blank(input.name.as_str()) {
        return Err(ApiError::BadRequest(String::from_str("name is required")));
    }
    Ok(
        NewBackup {
            user_id: user.id,
            device_id: input.device_id,
            name: input.name,
            manifest: input.manifest,
            status: String::from_str("ready"),
            is_public: None,
        },
    )
}

/// The row that an insert returned: the first row Supabase sent back, or
/// `Internal` when it sent none.
pub fn first_row<T>(rows: Vec<T>) -> (r: Result<T, ApiError>)
    ensures
        rows@.len() > 0 ==> r == Ok::<T, ApiError>(rows@[0]),
        rows@.len() == 0 ==> r == Err::<T, ApiError>(ApiError::Internal),
{
    let mut rows = rows;
    if rows.len() > 0 {
        Ok(rows.remove(0))
    } else {
        Err(ApiError::Internal)
    }
}

} // verus!
