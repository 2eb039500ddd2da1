use svld::copy::CopyError;
use svld::restore::{RestoreAction, RestoreError, RestoreEvent, RestoreSession};
use svld::snapshot::{
    backup_label, check_not_cataloged, make_record, save_time_text, snapshot_name, snapshot_path,
    Backup, SaveAction, SaveError, SaveEvent, SaveSession,
};

const DIGEST: &str = "0123456789abcdef0123456789abcdef0123456789abcdef0123456789abcdef";

fn record(digest: &str) -> Backup {
    Backup {
        id: 3,
        name: Some("before boss".to_string()),
        digest: digest.to_string(),
        size: 30,
        path: "backups/backup_0123456789ab".to_string(),
        save_time: "2024-01-01T00:00:00Z".to_string(),
        more_info: None,
    }
}

fn save_until_probe(root: &str) -> (SaveSession, SaveAction) {
    let (s, a) = SaveSession::begin("live".to_string(), root.to_string());
    assert!(matches!(a, SaveAction::CheckSource { ref path } if path == "live"));
    let (s, a) = s.step(SaveEvent::SourceChecked { exists: true });
    assert!(matches!(a, SaveAction::Fingerprint { ref path } if path == "live"));
    s.step(SaveEvent::Fingerprinted { digest: DIGEST.to_string() })
}

#[test]
fn test_description() {
    let d1: Option<&str> = Option::Some("d1");
    let d2: Option<&str> = Option::None;
    assert!(d1.map(|s| s.to_string()).is_some());
    assert!(d2.map(|s| s.to_string()).is_none());
}

#[test]
fn snapshot_names_use_twelve_digits() {
    assert_eq!(snapshot_name(&DIGEST.to_string()), Some("backup_0123456789ab".to_string()));
    assert_eq!(snapshot_name(&"0123456789a".to_string()), None);
    assert_eq!(
        snapshot_path(&"backups".to_string(), &DIGEST.to_string()),
        Some("backups/backup_0123456789ab".to_string())
    );
}

#[test]
fn labels_default_to_save_time() {
    let t = save_time_text(0);
    assert_eq!(t, "1970-01-01T00:00:00Z");
    assert_eq!(backup_label(Some("d1".to_string()), &t), "d1");
    assert_eq!(backup_label(Some("  \t".to_string()), &t), "存档_1970-01-01T00:00:00Z");
    assert_eq!(backup_label(None, &t), "存档_1970-01-01T00:00:00Z");
}

#[test]
fn save_time_covers_years_zero_to_9999() {
    assert_eq!(save_time_text(1_700_000_000), "2023-11-14T22:13:20Z");
    assert_eq!(save_time_text(-62_167_219_200), "0000-01-01T00:00:00Z");
    assert_eq!(save_time_text(253_402_300_799), "9999-12-31T23:59:59Z");
    assert_eq!(save_time_text(253_402_300_800), "");
    let t = save_time_text(1_700_000_000);
    assert_eq!(backup_label(None, &t), "存档_2023-11-14T22:13:20Z");
}

#[test]
fn fresh_save_copies_then_measures() {
    let (s, a) = save_until_probe("backups");
    assert!(matches!(a, SaveAction::Probe { ref path } if path == "backups/backup_0123456789ab"));
    let (s, a) = s.step(SaveEvent::Probed { exists: false });
    match a {
        SaveAction::Copy { ref from, ref to } => {
            assert_eq!(from, "live");
            assert_eq!(to, "backups/backup_0123456789ab");
        }
        _ => panic!("expected a copy"),
    }
    let (s, a) = s.step(SaveEvent::CopyFinished(Ok(())));
    assert!(matches!(a, SaveAction::Measure { .. }));
    let (_, a) = s.step(SaveEvent::Measured { size: Some(30) });
    match a {
        SaveAction::Done(o) => {
            assert_eq!(o.digest, DIGEST);
            assert_eq!(o.snapshot_name, "backup_0123456789ab");
            assert_eq!(o.snapshot_path, "backups/backup_0123456789ab");
            assert_eq!(o.size, 30);
            assert!(!o.reused);
            let r = make_record(o, "d1".to_string(), "2024-01-01T00:00:00Z".to_string());
            assert_eq!(r.id, 0);
            assert_eq!(r.name, Some("d1".to_string()));
            assert_eq!(r.path, "backups/backup_0123456789ab");
        }
        _ => panic!("expected a finished save"),
    }
}

#[test]
fn second_save_of_unchanged_source_copies_nothing() {
    let (s, a) = save_until_probe("backups");
    assert!(matches!(a, SaveAction::Probe { .. }));
    let (s, a) = s.step(SaveEvent::Probed { exists: true });
    assert!(matches!(a, SaveAction::Measure { ref path } if path == "backups/backup_0123456789ab"));
    let (_, a) = s.step(SaveEvent::Measured { size: Some(30) });
    match a {
        SaveAction::Done(o) => assert!(o.reused),
        _ => panic!("expected a finished save"),
    }
}

#[test]
fn missing_source_fails_save() {
    let (s, _) = SaveSession::begin("gone".to_string(), "backups".to_string());
    let (_, a) = s.step(SaveEvent::SourceChecked { exists: false });
    assert!(matches!(a, SaveAction::Fail(SaveError::SourceNotFound { ref path }) if path == "gone"));
}

#[test]
fn failed_copy_fails_save() {
    let (s, _) = save_until_probe("backups");
    let (s, _) = s.step(SaveEvent::Probed { exists: false });
    let err = CopyError::PartialFailure { failed: 1, copied: 2, samples: Vec::new() };
    let (_, a) = s.step(SaveEvent::CopyFinished(Err(err)));
    assert!(matches!(a, SaveAction::Fail(SaveError::Copy(CopyError::PartialFailure { failed: 1, .. }))));
}

#[test]
fn short_digest_and_missing_size_fail_save() {
    let (s, _) = SaveSession::begin("live".to_string(), "backups".to_string());
    let (s, _) = s.step(SaveEvent::SourceChecked { exists: true });
    let (_, a) = s.step(SaveEvent::Fingerprinted { digest: "abc".to_string() });
    assert!(matches!(a, SaveAction::Fail(SaveError::MalformedDigest { .. })));
    let (s, _) = save_until_probe("backups");
    let (s, _) = s.step(SaveEvent::Probed { exists: true });
    let (_, a) = s.step(SaveEvent::Measured { size: None });
    assert!(matches!(a, SaveAction::Fail(SaveError::SizeUnavailable { .. })));
}

#[test]
fn catalog_rejects_duplicate_digest() {
    assert!(check_not_cataloged(None).is_ok());
    match check_not_cataloged(Some(record(DIGEST))) {
        Err(SaveError::DuplicateDigest { existing_name }) => {
            assert_eq!(existing_name, Some("before boss".to_string()))
        }
        _ => panic!("expected a duplicate"),
    }
}

#[test]
fn restore_replaces_target_after_verifying() {
    let (s, a) = RestoreSession::begin(Some(record(DIGEST)), 3, &"backups".to_string(), "live".to_string());
    assert!(matches!(a, RestoreAction::ProbeSnapshot { ref path } if path == "backups/backup_0123456789ab"));
    let (s, a) = s.step(RestoreEvent::SnapshotProbed { exists: true });
    assert!(matches!(a, RestoreAction::Fingerprint { .. }));
    let (s, a) = s.step(RestoreEvent::Fingerprinted { digest: DIGEST.to_string() });
    assert!(matches!(a, RestoreAction::ClearTarget { ref path } if path == "live"));
    let (s, a) = s.step(RestoreEvent::TargetCleared(Ok(())));
    assert!(matches!(a, RestoreAction::EnsureParent { .. }));
    let (s, a) = s.step(RestoreEvent::ParentReady(Ok(())));
    match a {
        RestoreAction::Copy { ref from, ref to } => {
            assert_eq!(from, "backups/backup_0123456789ab");
            assert_eq!(to, "live");
        }
        _ => panic!("expected a copy"),
    }
    let (_, a) = s.step(RestoreEvent::CopyFinished(Ok(())));
    match a {
        RestoreAction::Done(sum) => {
            assert_eq!(sum.name, Some("before boss".to_string()));
            assert_eq!(sum.target, "live");
        }
        _ => panic!("expected a finished restore"),
    }
}

#[test]
fn corrupted_snapshot_is_not_restored() {
    let (s, _) = RestoreSession::begin(Some(record(DIGEST)), 3, &"backups".to_string(), "live".to_string());
    let (s, _) = s.step(RestoreEvent::SnapshotProbed { exists: true });
    let other = "f".repeat(64);
    let (s, a) = s.step(RestoreEvent::Fingerprinted { digest: other.clone() });
    match a {
        RestoreAction::Fail(RestoreError::Corrupted { expected, found }) => {
            assert_eq!(expected, DIGEST);
            assert_eq!(found, other);
        }
        _ => panic!("expected corruption"),
    }
    assert!(!s.expects(&RestoreEvent::TargetCleared(Ok(()))));
}

#[test]
fn missing_record_or_snapshot_fails_restore() {
    let (_, a) = RestoreSession::begin(None, 9, &"backups".to_string(), "live".to_string());
    assert!(matches!(a, RestoreAction::Fail(RestoreError::RecordNotFound { id: 9 })));
    let (s, _) = RestoreSession::begin(Some(record(DIGEST)), 3, &"backups".to_string(), "live".to_string());
    let (_, a) = s.step(RestoreEvent::SnapshotProbed { exists: false });
    assert!(matches!(a, RestoreAction::Fail(RestoreError::SnapshotNotFound { .. })));
    let (_, a) = RestoreSession::begin(Some(record("abc")), 3, &"backups".to_string(), "live".to_string());
    assert!(matches!(a, RestoreAction::Fail(RestoreError::SnapshotNotFound { .. })));
}

#[test]
fn failed_clear_or_parent_fails_restore() {
    let (s, _) = RestoreSession::begin(Some(record(DIGEST)), 3, &"backups".to_string(), "live".to_string());
    let (s, _) = s.step(RestoreEvent::SnapshotProbed { exists: true });
    let (s, _) = s.step(RestoreEvent::Fingerprinted { digest: DIGEST.to_string() });
    let (_, a) = s.step(RestoreEvent::TargetCleared(Err("busy".to_string())));
    assert!(matches!(a, RestoreAction::Fail(RestoreError::ClearFailed { ref message, .. }) if message == "busy"));
}

#[test]
fn restore_of_saved_record_reads_the_saved_snapshot() {
    let (s, _) = save_until_probe("backups");
    let (s, _) = s.step(SaveEvent::Probed { exists: false });
    let (s, _) = s.step(SaveEvent::CopyFinished(Ok(())));
    let (_, a) = s.step(SaveEvent::Measured { size: Some(30) });
    let outcome = match a {
        SaveAction::Done(o) => o,
        _ => panic!("expected a finished save"),
    };
    let written = outcome.snapshot_path.clone();
    let r = make_record(outcome, "d1".to_string(), "t".to_string());
    let (s, a) = RestoreSession::begin(Some(r), 1, &"backups".to_string(), "live".to_string());
    assert!(matches!(a, RestoreAction::ProbeSnapshot { ref path } if *path == written));
    let (s, _) = s.step(RestoreEvent::SnapshotProbed { exists: true });
    let (s, _) = s.step(RestoreEvent::Fingerprinted { digest: DIGEST.to_string() });
    let (s, _) = s.step(RestoreEvent::TargetCleared(Ok(())));
    let (_, a) = s.step(RestoreEvent::ParentReady(Ok(())));
    assert!(matches!(a, RestoreAction::Copy { ref from, .. } if *from == written));
}
