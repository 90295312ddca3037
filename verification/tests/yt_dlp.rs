use nocturne::update::{
    advance_update, begin_update, GitHubRelease, GitHubReleaseAsset, UpdateAction,
    UpdateCheckResult, UpdateEvent, UpdatePhase,
};
use nocturne::yt_dlp::{
    bootstrap_source, bootstrap_version, check_hash, compute_sha256, executable_choice,
    first_output_line, managed_binary_file_name, managed_binary_path, parse_checksum_file,
    release_asset_name, release_url_for_channel, staged_binary_path, BootstrapSource,
    ExecutableChoice, LocalYtDlpSettings, LocalYtDlpSettingsStore, ManagedBinaryState,
    YtDlpReleaseChannel, YT_DLP_UPDATE_INTERVAL,
};

#[test]
fn checksum_parser_returns_named_hash() {
    let checksums = b"abc123  yt-dlp.exe\ndef456  yt-dlp_x86.exe\n";
    assert_eq!(
        parse_checksum_file(checksums, "yt-dlp.exe").as_deref(),
        Some("abc123")
    );
    assert!(parse_checksum_file(checksums, "missing.exe").is_none());
}

#[test]
fn checksums_that_are_no_text_are_refused() {
    assert_eq!(parse_checksum_file(b"\xff  yt-dlp", "yt-dlp"), None);
    assert_eq!(parse_checksum_file(b"abc\n\n  def  yt-dlp", "yt-dlp").as_deref(), Some("def"));
    assert_eq!(first_output_line(b"\n 2026.05.01 \n").as_deref(), Some("2026.05.01"));
    assert_eq!(first_output_line(b"\xff"), None);
}

#[test]
fn digests_are_those_of_sha_256() {
    assert_eq!(
        compute_sha256(b"abc"),
        "ba7816bf8f01cfea414140de5dae2223b00361a396177a9cb410ff61f20015ad"
    );
    assert_eq!(
        compute_sha256(b""),
        "e3b0c44298fc1c149afbf4c8996fb92427ae41e4649b934ca495991b7852b855"
    );
    assert!(check_hash("a", "a").is_ok());
    assert_eq!(
        check_hash("a", "b").unwrap_err(),
        "yt-dlp checksum mismatch: expected a, got b"
    );
}

#[test]
fn a_pending_version_takes_over_once() {
    let state = ManagedBinaryState {
        current_version: Some(String::from("2026.04.01")),
        previous_version: None,
        pending_version: Some(String::from("2026.05.01")),
    };
    assert!(state.promote_pending_if_ready(false).is_none());
    let promoted = state.promote_pending_if_ready(true).unwrap();
    assert_eq!(promoted.current_version.as_deref(), Some("2026.05.01"));
    assert_eq!(promoted.previous_version.as_deref(), Some("2026.04.01"));
    assert_eq!(promoted.pending_version, None);
    assert!(promoted.promote_pending_if_ready(true).is_none());
    assert!(promoted.has_moved_on_from(&state));
    assert!(!state.has_moved_on_from(&state));
    assert_eq!(
        state.with_pending("x".to_owned()).pending_version.as_deref(),
        Some("x")
    );
    assert_eq!(
        ManagedBinaryState::default().with_bootstrapped("x".to_owned()).current_version.as_deref(),
        Some("x")
    );
}

#[test]
fn the_managed_version_is_run_before_one_that_is_found() {
    assert_eq!(executable_choice(true, true, true), ExecutableChoice::Environment);
    assert_eq!(executable_choice(false, true, true), ExecutableChoice::Managed);
    assert_eq!(executable_choice(false, false, true), ExecutableChoice::Bootstrap);
    assert_eq!(executable_choice(false, false, false), ExecutableChoice::Default);
    assert_eq!(bootstrap_source(true, true, true), BootstrapSource::Environment);
    assert_eq!(bootstrap_source(false, true, true), BootstrapSource::Sibling);
    assert_eq!(bootstrap_source(false, false, true), BootstrapSource::WindowsFallback);
    assert_eq!(bootstrap_source(false, false, false), BootstrapSource::SearchPath);
    assert_eq!(bootstrap_version(None), "bootstrap");
    assert_eq!(bootstrap_version(Some("1".to_owned())), "1");
}

#[test]
fn binaries_have_their_places() {
    assert_eq!(managed_binary_file_name(true), "yt-dlp.exe");
    assert_eq!(managed_binary_path("1", false), vec!["versions", "1", "yt-dlp"]);
    assert_eq!(staged_binary_path("1", true), vec!["staging", "1", "yt-dlp.exe"]);
    assert_eq!(release_asset_name(true, "x86"), "yt-dlp_x86.exe");
    assert_eq!(release_asset_name(true, "aarch64"), "yt-dlp_arm64.exe");
    assert_eq!(release_asset_name(true, "x86_64"), "yt-dlp.exe");
    assert_eq!(release_asset_name(false, "x86"), "yt-dlp");
    assert_eq!(
        release_url_for_channel(YtDlpReleaseChannel::Stable),
        "https://api.github.com/repos/yt-dlp/yt-dlp/releases/latest"
    );
    let store = LocalYtDlpSettingsStore::from_path("/x/y.json".to_owned());
    assert_eq!(store.path(), "/x/y.json");
}

#[test]
fn missing_settings_are_the_first_ones() {
    let store = LocalYtDlpSettingsStore::from_path("/x/y.json".to_owned());
    assert_eq!(store.load(None), LocalYtDlpSettings::default());
    let settings = LocalYtDlpSettings {
        auto_update: false,
        channel: YtDlpReleaseChannel::Stable,
        last_checked_unix_s: Some(123),
        release_etag: Some("etag".to_owned()),
    };
    assert_eq!(store.load(Some(settings.clone())), settings);
}

#[test]
fn releases_are_looked_for_once_a_day() {
    let mut settings = LocalYtDlpSettings::default();
    assert!(settings.should_check_now(5));
    settings.mark_checked(1_000, Some("etag".to_owned()));
    assert!(!settings.should_check_now(1_000 + YT_DLP_UPDATE_INTERVAL - 1));
    assert!(settings.should_check_now(1_000 + YT_DLP_UPDATE_INTERVAL));
    assert!(!settings.should_check_now(0));
    settings.mark_checked(2_000, None);
    assert_eq!(settings.release_etag.as_deref(), Some("etag"));
    assert_eq!(settings.last_checked_unix_s, Some(2_000));
}

fn release(version: &str, assets: &[&str]) -> GitHubRelease {
    GitHubRelease {
        tag_name: version.to_owned(),
        prerelease: false,
        draft: false,
        assets: assets
            .iter()
            .map(|name| GitHubReleaseAsset {
                name: (*name).to_owned(),
                browser_download_url: format!("https://example.com/{name}"),
            })
            .collect(),
    }
}

fn advance(phase: UpdatePhase, event: UpdateEvent) -> (UpdatePhase, UpdateAction) {
    let state = ManagedBinaryState {
        current_version: Some("2026.04.01".to_owned()),
        previous_version: None,
        pending_version: None,
    };
    advance_update(&LocalYtDlpSettings::default(), &state, "yt-dlp", phase, event)
}

#[test]
fn a_new_release_is_checked_tested_and_staged() {
    let (phase, action) = begin_update(&LocalYtDlpSettings::default());
    assert!(matches!(action, UpdateAction::Query { etag: None, .. }));
    let (phase, action) = advance(
        phase,
        UpdateEvent::ReleaseFound {
            etag: Some("tag".to_owned()),
            release: release("2026.05.01", &["yt-dlp", "SHA2-256SUMS"]),
        },
    );
    assert_eq!(
        action,
        UpdateAction::FetchChecksums { url: "https://example.com/SHA2-256SUMS".to_owned() }
    );
    let body =
        b"ba7816bf8f01cfea414140de5dae2223b00361a396177a9cb410ff61f20015ad  yt-dlp\n".to_vec();
    let (phase, action) = advance(phase, UpdateEvent::ChecksumsFetched { body });
    assert_eq!(
        action,
        UpdateAction::FetchBinary { url: "https://example.com/yt-dlp".to_owned() }
    );
    let (phase, action) = advance(phase, UpdateEvent::BinaryFetched { bytes: b"abc".to_vec() });
    assert_eq!(action, UpdateAction::Stage { version: "2026.05.01".to_owned() });
    let (phase, action) = advance(phase, UpdateEvent::Staged);
    assert_eq!(action, UpdateAction::SmokeTest { version: "2026.05.01".to_owned() });
    let (phase, action) = advance(phase, UpdateEvent::SmokeTestPassed);
    assert_eq!(
        action,
        UpdateAction::Commit { version: "2026.05.01".to_owned(), etag: Some("tag".to_owned()) }
    );
    let (phase, action) = advance(phase, UpdateEvent::Committed);
    assert_eq!(phase, UpdatePhase::Finished);
    assert_eq!(action, UpdateAction::Finish(Ok(UpdateCheckResult::Staged)));
}

#[test]
fn a_known_release_is_left_alone() {
    let (phase, _) = begin_update(&LocalYtDlpSettings::default());
    let (phase, action) = advance(
        phase,
        UpdateEvent::ReleaseFound { etag: None, release: release("2026.04.01", &[]) },
    );
    assert_eq!(action, UpdateAction::SaveCheck { etag: None });
    let (_, action) = advance(phase, UpdateEvent::CheckSaved);
    assert_eq!(action, UpdateAction::Finish(Ok(UpdateCheckResult::UpToDate)));
}

#[test]
fn a_tampered_binary_is_refused() {
    let phase = UpdatePhase::FetchingBinary {
        version: "2026.05.01".to_owned(),
        etag: None,
        expected_hash: "00".to_owned(),
    };
    let (phase, action) = advance(phase, UpdateEvent::BinaryFetched { bytes: b"abc".to_vec() });
    assert_eq!(phase, UpdatePhase::Finished);
    assert_eq!(
        action,
        UpdateAction::Finish(Err(
            "yt-dlp checksum mismatch: expected 00, got ba7816bf8f01cfea414140de5dae2223b00361a396177a9cb410ff61f20015ad"
                .to_owned()
        ))
    );
}

#[test]
fn a_look_that_is_switched_off_is_skipped() {
    let settings = LocalYtDlpSettings { auto_update: false, ..LocalYtDlpSettings::default() };
    let (phase, action) = begin_update(&settings);
    assert_eq!(phase, UpdatePhase::Finished);
    assert_eq!(action, UpdateAction::Finish(Ok(UpdateCheckResult::Skipped)));
}

#[test]
fn every_failure_of_a_look_says_what_failed() {
    let version = || "2026.05.01".to_owned();
    let error = || "why".to_owned();
    for (phase, event, message) in [
        (
            UpdatePhase::Querying,
            UpdateEvent::QueryFailed { error: error() },
            "failed to query yt-dlp releases: why",
        ),
        (
            UpdatePhase::Querying,
            UpdateEvent::QueryRefused { error: error() },
            "yt-dlp release endpoint returned an error: why",
        ),
        (
            UpdatePhase::Querying,
            UpdateEvent::MetadataUnreadable { error: error() },
            "failed to decode yt-dlp release metadata: why",
        ),
        (
            UpdatePhase::Querying,
            UpdateEvent::ReleaseFound { etag: None, release: release("2", &["other"]) },
            "yt-dlp release did not include asset yt-dlp",
        ),
        (
            UpdatePhase::Querying,
            UpdateEvent::ReleaseFound { etag: None, release: release("2", &["yt-dlp"]) },
            "yt-dlp release did not include SHA2-256SUMS",
        ),
        (
            UpdatePhase::SavingCheck,
            UpdateEvent::CheckSaveFailed { error: error() },
            "failed to persist yt-dlp check timestamp: why",
        ),
        (
            UpdatePhase::Staging { version: version(), etag: None },
            UpdateEvent::StageFailed { error: error() },
            "failed to stage yt-dlp update: why",
        ),
        (
            UpdatePhase::SmokeTesting { version: version(), etag: None },
            UpdateEvent::SmokeTestFailed { error: error() },
            "staged yt-dlp binary failed smoke test: why",
        ),
        (
            UpdatePhase::Committing,
            UpdateEvent::CommitFailed { error: error() },
            "failed to persist staged yt-dlp version: why",
        ),
        (
            UpdatePhase::FetchingChecksums {
                version: version(),
                etag: None,
                binary_url: "u".to_owned(),
            },
            UpdateEvent::ChecksumsFetched { body: b"00  other".to_vec() },
            "SHA2-256SUMS did not contain yt-dlp",
        ),
    ] {
        let (phase, action) = advance(phase, event);
        assert_eq!(phase, UpdatePhase::Finished);
        assert_eq!(action, UpdateAction::Finish(Err(message.to_owned())));
    }
}
