use upenv_api::backup::{ForkAction, ForkEvent, ForkJob};
use upenv_api::config::{cors_origins, cors_policy, listen_address, CorsMethod};
use upenv_api::cors::allowed_origins;
use upenv_api::error::ApiError;
use upenv_api::models::{
    Backup, CreateBackup, CreateDevice, CurrentUser, Device, ForkBackupRequest, NewBackup, NewDevice,
    PublicBackupsQuery,
};
use upenv_api::routes::{
    create_backup, create_device, delete_backup_path, delete_device_path, first_row, list_backups_path,
    list_devices_path,
};
use upenv_api::text::{is_blank, trim, trim_leading_slashes, trim_trailing_slashes};

const USER: u128 = 0x67e55044_10b1_426f_9247_bb680e5fe0c8;
const OTHER: u128 = 0xa1a2a3a4_b1b2_c1c2_d1d2_d3d4d5d6d7d8;

fn user() -> CurrentUser {
    CurrentUser { id: USER, email: None }
}

fn manifest() -> serde_json::Value {
    serde_json::from_str(r#"{"git":{"user_name":"Example User"}}"#).unwrap()
}

fn backup(owner: u128, public: bool) -> Backup {
    Backup {
        id: 5,
        user_id: owner,
        device_id: 6,
        name: "Mac Setup".to_string(),
        manifest: manifest(),
        status: "ready".to_string(),
        is_public: public,
        fork_count: Some(0),
        forked_from: None,
        created_at: None,
        updated_at: None,
    }
}

fn device(owner: u128) -> Device {
    Device {
        id: 9,
        user_id: owner,
        name: "MacBook Pro".to_string(),
        platform: "macos".to_string(),
        architecture: None,
        app_version: None,
        created_at: None,
        updated_at: None,
    }
}

fn request(name: Option<&str>) -> ForkBackupRequest {
    ForkBackupRequest { target_device_id: 9, name: name.map(|n| n.to_string()) }
}

#[test]
fn list_paths_filter_by_caller() {
    assert_eq!(
        list_devices_path(USER),
        "devices?select=*&user_id=eq.67e55044-10b1-426f-9247-bb680e5fe0c8&order=created_at.desc"
    );
    assert_eq!(
        list_backups_path(OTHER),
        "backups?select=*&user_id=eq.a1a2a3a4-b1b2-c1c2-d1d2-d3d4d5d6d7d8&order=created_at.desc"
    );
}

#[test]
fn delete_paths_name_row_and_caller() {
    assert_eq!(
        delete_device_path(OTHER, USER),
        "devices?id=eq.a1a2a3a4-b1b2-c1c2-d1d2-d3d4d5d6d7d8&user_id=eq.67e55044-10b1-426f-9247-bb680e5fe0c8"
    );
    assert_eq!(
        delete_backup_path(0, USER),
        "backups?id=eq.00000000-0000-0000-0000-000000000000&user_id=eq.67e55044-10b1-426f-9247-bb680e5fe0c8"
    );
}

#[test]
fn create_device_builds_the_row() {
    let input = CreateDevice {
        name: "MacBook Pro".to_string(),
        platform: "macos".to_string(),
        architecture: Some("arm64".to_string()),
        app_version: Some("0.1.0".to_string()),
    };
    assert_eq!(
        create_device(&user(), input),
        Ok(NewDevice {
            user_id: USER,
            name: "MacBook Pro".to_string(),
            platform: "macos".to_string(),
            architecture: Some("arm64".to_string()),
            app_version: Some("0.1.0".to_string()),
        })
    );
}

#[test]
fn create_device_refuses_blank_fields() {
    let expected = Err(ApiError::BadRequest("name and platform are required".to_string()));
    let blank_name = CreateDevice {
        name: " \t\n".to_string(),
        platform: "linux".to_string(),
        architecture: None,
        app_version: None,
    };
    assert_eq!(create_device(&user(), blank_name), expected);
    let blank_platform =
        CreateDevice { name: "box".to_string(), platform: String::new(), architecture: None, app_version: None };
    assert_eq!(create_device(&user(), blank_platform), expected);
    let unicode_blank = CreateDevice {
        name: "box".to_string(),
        platform: "\u{3000}\u{a0}".to_string(),
        architecture: None,
        app_version: None,
    };
    assert_eq!(create_device(&user(), unicode_blank), expected);
}

#[test]
fn create_backup_builds_a_ready_row_and_ignores_is_public() {
    let input = CreateBackup { device_id: 6, name: "My MacBook backup".to_string(), manifest: manifest(), is_public: true };
    assert_eq!(
        create_backup(&user(), input),
        Ok(NewBackup {
            user_id: USER,
            device_id: 6,
            name: "My MacBook backup".to_string(),
            manifest: manifest(),
            status: "ready".to_string(),
            is_public: None,
        })
    );
}

#[test]
fn create_backup_refuses_blank_name() {
    let input = CreateBackup { device_id: 6, name: "   ".to_string(), manifest: manifest(), is_public: false };
    assert_eq!(create_backup(&user(), input), Err(ApiError::BadRequest("name is required".to_string())));
}

#[test]
fn first_row_of_an_insert() {
    assert_eq!(first_row(vec![3, 4]), Ok(3));
    assert_eq!(first_row(Vec::<u8>::new()), Err(ApiError::Internal));
}

#[test]
fn fork_of_a_public_backup_onto_own_device() {
    let (job, action) = ForkJob::start(&user(), 5, request(None));
    assert_eq!(action, ForkAction::FetchBackup(5));
    let (job, action) = job.fork_backup(ForkEvent::SourceFound(Some(backup(OTHER, true))));
    assert_eq!(action, ForkAction::FetchDevice(9));
    let (job, action) = job.fork_backup(ForkEvent::TargetFound(Some(device(USER))));
    assert_eq!(
        action,
        ForkAction::CreateBackup(NewBackup {
            user_id: USER,
            device_id: 9,
            name: "Mac Setup (Fork)".to_string(),
            manifest: manifest(),
            status: "ready".to_string(),
            is_public: Some(false),
        })
    );
    let copy = backup(USER, false);
    let (_, action) = job.fork_backup(ForkEvent::Copied(copy));
    assert_eq!(action, ForkAction::Respond { status: 201, backup: backup(USER, false), count_fork_of: 5 });
}

#[test]
fn fork_of_own_private_backup_keeps_requested_name() {
    let (job, _) = ForkJob::start(&user(), 5, request(Some("Cloned setup")));
    let (job, action) = job.fork_backup(ForkEvent::SourceFound(Some(backup(USER, false))));
    assert_eq!(action, ForkAction::FetchDevice(9));
    let (_, action) = job.fork_backup(ForkEvent::TargetFound(Some(device(USER))));
    match action {
        ForkAction::CreateBackup(row) => {
            assert_eq!(row.name, "Cloned setup");
            assert_eq!(row.is_public, Some(false));
        }
        other => panic!("unexpected {:?}", other),
    }
}

#[test]
fn fork_of_missing_backup_is_not_found() {
    let (job, _) = ForkJob::start(&user(), 5, request(None));
    let (_, action) = job.fork_backup(ForkEvent::SourceFound(None));
    assert_eq!(action, ForkAction::Fail(ApiError::NotFound("Backup not found or is private".to_string())));
}

#[test]
fn fork_of_someone_elses_private_backup_is_forbidden() {
    let (job, _) = ForkJob::start(&user(), 5, request(None));
    let (_, action) = job.fork_backup(ForkEvent::SourceFound(Some(backup(OTHER, false))));
    assert_eq!(action, ForkAction::Fail(ApiError::Forbidden("Cannot fork a private backup".to_string())));
}

#[test]
fn fork_onto_missing_device_is_bad_request() {
    let (job, _) = ForkJob::start(&user(), 5, request(None));
    let (job, _) = job.fork_backup(ForkEvent::SourceFound(Some(backup(OTHER, true))));
    let (_, action) = job.fork_backup(ForkEvent::TargetFound(None));
    assert_eq!(
        action,
        ForkAction::Fail(ApiError::BadRequest("Target device does not exist or does not belong to you".to_string()))
    );
}

#[test]
fn fork_onto_someone_elses_device_is_forbidden() {
    let (job, _) = ForkJob::start(&user(), 5, request(None));
    let (job, _) = job.fork_backup(ForkEvent::SourceFound(Some(backup(USER, true))));
    let (_, action) = job.fork_backup(ForkEvent::TargetFound(Some(device(OTHER))));
    assert_eq!(action, ForkAction::Fail(ApiError::Forbidden("Target device does not belong to you".to_string())));
}

#[test]
fn fork_event_out_of_turn_is_internal() {
    let (job, _) = ForkJob::start(&user(), 5, request(None));
    let (job, action) = job.fork_backup(ForkEvent::TargetFound(Some(device(USER))));
    assert_eq!(action, ForkAction::Fail(ApiError::Internal));
    let (_, action) = job.fork_backup(ForkEvent::SourceFound(None));
    assert_eq!(action, ForkAction::Fail(ApiError::Internal));
}

#[test]
fn cors_origins_are_trimmed_and_checked() {
    assert_eq!(allowed_origins("http://localhost:1420"), vec!["http://localhost:1420".to_string()]);
    assert_eq!(
        allowed_origins(" https://a.dev , https://b.dev,https://bad\u{7f}.dev"),
        vec!["https://a.dev".to_string(), "https://b.dev".to_string()]
    );
    assert_eq!(allowed_origins("a,,b"), vec!["a".to_string(), String::new(), "b".to_string()]);
    assert_eq!(allowed_origins(""), vec![String::new()]);
    assert_eq!(allowed_origins("x\u{1}y,z"), vec!["z".to_string()]);
}

#[test]
fn text_helpers() {
    assert_eq!(trim("  a b \n"), "a b");
    assert_eq!(trim("\u{2003}x\u{3000}"), "x");
    assert_eq!(trim("   "), "");
    assert!(is_blank(" \t\r\n"));
    assert!(is_blank(""));
    assert!(!is_blank(" x "));
    assert_eq!(trim_leading_slashes("//a/b/"), "a/b/");
    assert_eq!(trim_trailing_slashes("/a/b//"), "/a/b");
    assert_eq!(trim_trailing_slashes("///"), "");
}

#[test]
fn public_backups_query_holds_its_filters() {
    let query = PublicBackupsQuery { limit: Some(20), offset: Some(40), search: Some("mac".to_string()) };
    assert_eq!(query.clone(), query);
}

#[test]
fn listen_address_defaults() {
    assert_eq!(listen_address(None, None), "0.0.0.0:8080");
    assert_eq!(listen_address(Some("127.0.0.1"), Some("9000")), "127.0.0.1:9000");
    assert_eq!(listen_address(None, Some("1")), "0.0.0.0:1");
}

#[test]
fn cors_origins_default() {
    assert_eq!(cors_origins(None), vec!["http://localhost:1420".to_string()]);
    assert_eq!(cors_origins(Some("https://x.dev, https://y.dev")), vec!["https://x.dev".to_string(), "https://y.dev".to_string()]);
}

#[test]
fn cors_policy_methods_headers_credentials() {
    let policy = cors_policy(Some("https://a.dev"));
    assert_eq!(policy.origins, vec!["https://a.dev".to_string()]);
    assert_eq!(
        policy.methods,
        vec![CorsMethod::Get, CorsMethod::Post, CorsMethod::Patch, CorsMethod::Delete, CorsMethod::Options]
    );
    assert_eq!(policy.headers, vec!["authorization".to_string(), "content-type".to_string()]);
    assert!(policy.allow_credentials);
}

#[test]
fn fork_failure_ends_the_fork_with_its_error() {
    let (job, _) = ForkJob::start(&user(), 5, request(None));
    let failure = ApiError::Supabase("down".to_string());
    let (job, action) = job.fork_backup(ForkEvent::Failed(failure.clone()));
    assert_eq!(action, ForkAction::Fail(failure));
    let (_, action) = job.fork_backup(ForkEvent::Copied(backup(USER, false)));
    assert_eq!(action, ForkAction::Fail(ApiError::Internal));
}

#[test]
fn white_space_is_the_unicode_set() {
    assert_eq!(trim("\u{85}\u{1680}x\u{200b}\u{202f}"), "x\u{200b}");
    assert!(!is_blank("\u{200b}"));
    assert!(is_blank("\u{b}\u{c}\u{2028}\u{2029}\u{205f}"));
}
