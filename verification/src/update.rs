//! Looking for a new yt-dlp release: the decisions between the requests. The
//! embedding program performs each action and hands back what came of it.

use vstd::prelude::*;

use crate::yt_dlp::{LocalYtDlpSettings, ManagedBinaryState};

verus! {

/// What came of a look for a release.
#[derive(Debug, Clone, Copy, PartialEq, Eq, Structural)]
pub enum UpdateCheckResult {
    Skipped,
    UpToDate,
    Staged,
}

/// A file of a release.
#[derive(Debug, PartialEq, Eq)]
pub struct GitHubReleaseAsset {
    pub name: String,
    pub browser_download_url: String,
}

/// A release.
#[derive(Debug, PartialEq, Eq)]
pub struct GitHubRelease {
    pub tag_name: String,
    pub prerelease: bool,
    pub draft: bool,
    pub assets: Vec<GitHubReleaseAsset>,
}

/// What to do next.
#[derive(Debug, PartialEq, Eq)]
pub enum UpdateAction {
    /// Ask for the latest release, unless it still has the tag.
    Query { url: String, etag: Option<String> },
    /// Note that a look was taken.
    SaveCheck { etag: Option<String> },
    /// Download the list of checksums.
    FetchChecksums { url: String },
    /// Download the binary.
    FetchBinary { url: String },
    /// Put the downloaded binary aside under its version.
    Stage { version: String },
    /// Try the staged binary.
    SmokeTest { version: String },
    /// Let the staged version wait to take over, and note that a look was taken.
    Commit { version: String, etag: Option<String> },
    /// Nothing more: this came of it.
    Finish(Result<UpdateCheckResult, String>),
}

/// How far a look for a release has come.
#[derive(Debug, PartialEq, Eq)]
pub enum UpdatePhase {
    Querying,
    SavingCheck,
    FetchingChecksums { version: String, etag: Option<String>, binary_url: String },
    FetchingBinary { version: String, etag: Option<String>, expected_hash: String },
    Staging { version: String, etag: Option<String> },
    SmokeTesting { version: String, etag: Option<String> },
    Committing,
    Finished,
}

/// What came of an action. Failures carry their text.
#[derive(Debug, PartialEq, Eq)]
pub enum UpdateEvent {
    QueryFailed { error: String },
    NotModified,
    QueryRefused { error: String },
    MetadataUnreadable { error: String },
    ReleaseFound { etag: Option<String>, release: GitHubRelease },
    CheckSaved,
    CheckSaveFailed { error: String },
    ChecksumsFailed { error: String },
    ChecksumsUnreadable { error: String },
    ChecksumsFetched { body: Vec<u8> },
    BinaryFailed { error: String },
    BinaryUnreadable { error: String },
    BinaryFetched { bytes: Vec<u8> },
    Staged,
    StageFailed { error: String },
    SmokeTestPassed,
    SmokeTestFailed { error: String },
    Committed,
    CommitFailed { error: String },
}

/// Whether an event answers the action of a phase.
pub open spec fn answers_phase(phase: UpdatePhase, event: UpdateEvent) -> bool {
    match phase {
        UpdatePhase::Querying => event is QueryFailed || event is NotModified || event
            is QueryRefused || event is MetadataUnreadable || event is ReleaseFound,
        UpdatePhase::SavingCheck => event is CheckSaved || event is CheckSaveFailed,
        UpdatePhase::FetchingChecksums { .. } => event is ChecksumsFailed || event
            is ChecksumsUnreadable || event is ChecksumsFetched,
        UpdatePhase::FetchingBinary { .. } => event is BinaryFailed || event is BinaryUnreadable
            || event is BinaryFetched,
        UpdatePhase::Staging { .. } => event is Staged || event is StageFailed,
        UpdatePhase::SmokeTesting { .. } => event is SmokeTestPassed || event is SmokeTestFailed,
        UpdatePhase::Committing => event is Committed || event is CommitFailed,
        UpdatePhase::Finished => false,
    }
}

/// The address of the first asset with the given name.
pub open spec fn asset_url(assets: Seq<GitHubReleaseAsset>, name: Seq<char>) -> Option<String>
    decreases assets.len(),
{
    if assets.len() == 0 {
        None
    } else if assets[0].name@ == name {
        Some(assets[0].browser_download_url)
    } else {
        asset_url(assets.drop_first(), name)
    }
}

fn find_asset(assets: &Vec<GitHubReleaseAsset>, name: &str) -> (url: Option<String>)
    ensures
        url == asset_url(assets@, name@),
{
    let mut i: usize = 0;
    assert(assets@.skip(0) =~= assets@);
    while i < assets.len()
        invariant
            i <= assets@.len(),
            asset_url(assets@.skip(i as int), name@) == asset_url(assets@, name@),
        decreases assets@.len() - i,
    {
        if crate::text::str_eq(assets[i].name.as_str(), name) {
            return Some(assets[i].browser_download_url.clone());
        }
        assert(assets@.skip(i as int).drop_first() =~= assets@.skip(i + 1));
        i += 1;
    }
    None
}

/// Whether an action ends the look with a failure of the given text.
pub open spec fn gives_up(phase: UpdatePhase, action: UpdateAction, message: Seq<char>) -> bool {
    &&& phase is Finished
    &&& action matches UpdateAction::Finish(Err(text))
    &&& text@ == message
}

/// Whether an action ends the look.
pub open spec fn ends(phase: UpdatePhase, action: UpdateAction, result: UpdateCheckResult) -> bool {
    phase is Finished && action == UpdateAction::Finish(Ok(result))
}

/// Whether an action notes that a look was taken.
pub open spec fn notes_check(
    phase: UpdatePhase,
    action: UpdateAction,
    etag: Option<String>,
) -> bool {
    phase is SavingCheck && action == (UpdateAction::SaveCheck { etag })
}

/// Whether there is nothing to do about a release: it is not for everyone yet,
/// or its version is already here.
pub open spec fn nothing_new(state: ManagedBinaryState, release: GitHubRelease) -> bool {
    release.draft || release.prerelease || crate::text::opt_is(state.newest(), release.tag_name@)
}

/// The start of a look for a release.
pub open spec fn begins(
    settings: LocalYtDlpSettings,
    phase: UpdatePhase,
    action: UpdateAction,
) -> bool {
    if !settings.auto_update {
        ends(phase, action, UpdateCheckResult::Skipped)
    } else {
        &&& phase is Querying
        &&& action matches UpdateAction::Query { url, etag }
        &&& url@ == crate::yt_dlp::STABLE_RELEASE_URL@
        &&& etag == settings.release_etag
    }
}

/// What follows an event.
pub open spec fn continues(
    settings: LocalYtDlpSettings,
    state: ManagedBinaryState,
    binary_asset: Seq<char>,
    phase: UpdatePhase,
    event: UpdateEvent,
    next: UpdatePhase,
    action: UpdateAction,
) -> bool {
    match event {
        UpdateEvent::QueryFailed { error } => gives_up(
            next,
            action,
            "failed to query yt-dlp releases: "@ + error@,
        ),
        UpdateEvent::NotModified => notes_check(next, action, settings.release_etag),
        UpdateEvent::QueryRefused { error } => gives_up(
            next,
            action,
            "yt-dlp release endpoint returned an error: "@ + error@,
        ),
        UpdateEvent::MetadataUnreadable { error } => gives_up(
            next,
            action,
            "failed to decode yt-dlp release metadata: "@ + error@,
        ),
        UpdateEvent::ReleaseFound { etag, release } => if nothing_new(state, release) {
            notes_check(next, action, etag)
        } else {
            match asset_url(release.assets@, binary_asset) {
                None => gives_up(
                    next,
                    action,
                    "yt-dlp release did not include asset "@ + binary_asset,
                ),
                Some(binary_url) => match asset_url(
                    release.assets@,
                    crate::yt_dlp::CHECKSUM_ASSET_NAME@,
                ) {
                    None => gives_up(
                        next,
                        action,
                        "yt-dlp release did not include SHA2-256SUMS"@,
                    ),
                    Some(checksum_url) => {
                        &&& next == (UpdatePhase::FetchingChecksums {
                            version: release.tag_name,
                            etag,
                            binary_url,
                        })
                        &&& action == (UpdateAction::FetchChecksums { url: checksum_url })
                    },
                },
            }
        },
        UpdateEvent::CheckSaved => ends(next, action, UpdateCheckResult::UpToDate),
        UpdateEvent::CheckSaveFailed { error } => gives_up(
            next,
            action,
            "failed to persist yt-dlp check timestamp: "@ + error@,
        ),
        UpdateEvent::ChecksumsFailed { error } => gives_up(
            next,
            action,
            "failed to download yt-dlp checksums: "@ + error@,
        ),
        UpdateEvent::ChecksumsUnreadable { error } => gives_up(
            next,
            action,
            "failed to read yt-dlp checksums: "@ + error@,
        ),
        UpdateEvent::ChecksumsFetched { body } => {
            let listed = if vstd::utf8::valid_utf8(body@) {
                crate::yt_dlp::listed_checksum(vstd::utf8::decode_utf8(body@), binary_asset)
            } else {
                None
            };
            match listed {
                None => gives_up(next, action, "SHA2-256SUMS did not contain "@ + binary_asset),
                Some(hash) => {
                    &&& next matches UpdatePhase::FetchingBinary { version, etag, expected_hash }
                    &&& version == phase->FetchingChecksums_version
                    &&& etag == phase->FetchingChecksums_etag
                    &&& expected_hash@ == hash
                    &&& action == (UpdateAction::FetchBinary {
                        url: phase->FetchingChecksums_binary_url,
                    })
                },
            }
        },
        UpdateEvent::BinaryFailed { error } => gives_up(
            next,
            action,
            "failed to download yt-dlp binary: "@ + error@,
        ),
        UpdateEvent::BinaryUnreadable { error } => gives_up(
            next,
            action,
            "failed to read yt-dlp binary: "@ + error@,
        ),
        UpdateEvent::BinaryFetched { bytes } => {
            let expected = phase->FetchingBinary_expected_hash@;
            let actual = crate::yt_dlp::hex(crate::yt_dlp::sha256_digest(bytes@));
            if actual == expected {
                &&& next == (UpdatePhase::Staging {
                    version: phase->FetchingBinary_version,
                    etag: phase->FetchingBinary_etag,
                })
                &&& action == (UpdateAction::Stage { version: phase->FetchingBinary_version })
            } else {
                gives_up(
                    next,
                    action,
                    "yt-dlp checksum mismatch: expected "@ + expected + ", got "@ + actual,
                )
            }
        },
        UpdateEvent::Staged => {
            &&& next == (UpdatePhase::SmokeTesting {
                version: phase->Staging_version,
                etag: phase->Staging_etag,
            })
            &&& action == (UpdateAction::SmokeTest { version: phase->Staging_version })
        },
        UpdateEvent::StageFailed { error } => gives_up(
            next,
            action,
            "failed to stage yt-dlp update: "@ + error@,
        ),
        UpdateEvent::SmokeTestPassed => {
            &&& next is Committing
            &&& action == (UpdateAction::Commit {
                version: phase->SmokeTesting_version,
                etag: phase->SmokeTesting_etag,
            })
        },
        UpdateEvent::SmokeTestFailed { error } => gives_up(
            next,
            action,
            "staged yt-dlp binary failed smoke test: "@ + error@,
        ),
        UpdateEvent::Committed => ends(next, action, UpdateCheckResult::Staged),
        UpdateEvent::CommitFailed { error } => gives_up(
            next,
            action,
            "failed to persist staged yt-dlp version: "@ + error@,
        ),
    }
}

fn give_up(what: &str, error: &str) -> (step: (UpdatePhase, UpdateAction))
    ensures
        gives_up(step.0, step.1, what@ + error@),
{
    let mut message = what.to_owned();
    message.append(error);
    (UpdatePhase::Finished, UpdateAction::Finish(Err(message)))
}

/// Starts a look for a release.
pub fn begin_update(settings: &LocalYtDlpSettings) -> (step: (UpdatePhase, UpdateAction))
    ensures
        begins(*settings, step.0, step.1),
{
    if !settings.auto_update {
        return (UpdatePhase::Finished, UpdateAction::Finish(Ok(UpdateCheckResult::Skipped)));
    }
    let url = crate::yt_dlp::release_url_for_channel(settings.channel).to_owned();
    (UpdatePhase::Querying, UpdateAction::Query { url, etag: settings.release_etag.clone() })
}

/// Decides about a release that was found.
fn judge_release(
    state: &ManagedBinaryState,
    binary_asset: &str,
    etag: Option<String>,
    release: GitHubRelease,
) -> (step: (UpdatePhase, UpdateAction))
    ensures
        forall|settings: LocalYtDlpSettings, phase: UpdatePhase| #[trigger]
            continues(
                settings,
                *state,
                binary_asset@,
                phase,
                (UpdateEvent::ReleaseFound { etag, release }),
                step.0,
                step.1,
            ),
{
    let already_here = match &state.pending_version {
        Some(version) => crate::text::str_eq(version.as_str(), release.tag_name.as_str()),
        None => crate::text::opt_eq(&state.current_version, release.tag_name.as_str()),
    };
    if release.draft || release.prerelease || already_here {
        return (UpdatePhase::SavingCheck, UpdateAction::SaveCheck { etag });
    }
    match find_asset(&release.assets, binary_asset) {
        None => give_up("yt-dlp release did not include asset ", binary_asset),
        Some(binary_url) => match find_asset(&release.assets, crate::yt_dlp::CHECKSUM_ASSET_NAME) {
            None => (
                UpdatePhase::Finished,
                UpdateAction::Finish(
                    Err("yt-dlp release did not include SHA2-256SUMS".to_owned()),
                ),
            ),
            Some(checksum_url) => (
                UpdatePhase::FetchingChecksums { version: release.tag_name, etag, binary_url },
                UpdateAction::FetchChecksums { url: checksum_url },
            ),
        },
    }
}

/// Goes on after an action: `phase` is where the look stands, `event` what came
/// of its action.
pub fn advance_update(
    settings: &LocalYtDlpSettings,
    state: &ManagedBinaryState,
    binary_asset: &str,
    phase: UpdatePhase,
    event: UpdateEvent,
) -> (step: (UpdatePhase, UpdateAction))
    requires
        answers_phase(phase, event),
    ensures
        continues(*settings, *state, binary_asset@, phase, event, step.0, step.1),
{
    match phase {
        UpdatePhase::FetchingChecksums { version, etag, binary_url } => match event {
            UpdateEvent::ChecksumsFetched { body } => {
                match crate::yt_dlp::parse_checksum_file(body.as_slice(), binary_asset) {
                    Some(expected_hash) => (
                        UpdatePhase::FetchingBinary { version, etag, expected_hash },
                        UpdateAction::FetchBinary { url: binary_url },
                    ),
                    None => give_up("SHA2-256SUMS did not contain ", binary_asset),
                }
            },
            UpdateEvent::ChecksumsUnreadable { error } => give_up(
                "failed to read yt-dlp checksums: ",
                error.as_str(),
            ),
            UpdateEvent::ChecksumsFailed { error } => give_up(
                "failed to download yt-dlp checksums: ",
                error.as_str(),
            ),
            _ => (UpdatePhase::Finished, UpdateAction::Finish(Ok(UpdateCheckResult::Skipped))),
        },
        UpdatePhase::FetchingBinary { version, etag, expected_hash } => match event {
            UpdateEvent::BinaryFetched { bytes } => {
                let actual = crate::yt_dlp::compute_sha256(bytes.as_slice());
                match crate::yt_dlp::check_hash(expected_hash.as_str(), actual.as_str()) {
                    Ok(_) => {
                        let staged = version.clone();
                        (
                            UpdatePhase::Staging { version, etag },
                            UpdateAction::Stage { version: staged },
                        )
                    },
                    Err(message) => (
                        UpdatePhase::Finished,
                        UpdateAction::Finish(Err(message)),
                    ),
                }
            },
            UpdateEvent::BinaryUnreadable { error } => give_up(
                "failed to read yt-dlp binary: ",
                error.as_str(),
            ),
            UpdateEvent::BinaryFailed { error } => give_up(
                "failed to download yt-dlp binary: ",
                error.as_str(),
            ),
            _ => (UpdatePhase::Finished, UpdateAction::Finish(Ok(UpdateCheckResult::Skipped))),
        },
        UpdatePhase::Staging { version, etag } => match event {
            UpdateEvent::StageFailed { error } => give_up(
                "failed to stage yt-dlp update: ",
                error.as_str(),
            ),
            _ => {
                let tested = version.clone();
                (
                    UpdatePhase::SmokeTesting { version, etag },
                    UpdateAction::SmokeTest { version: tested },
                )
            },
        },
        UpdatePhase::SmokeTesting { version, etag } => match event {
            UpdateEvent::SmokeTestFailed { error } => give_up(
                "staged yt-dlp binary failed smoke test: ",
                error.as_str(),
            ),
            _ => (UpdatePhase::Committing, UpdateAction::Commit { version, etag }),
        },
        _ => match event {
            UpdateEvent::QueryFailed { error } => give_up(
                "failed to query yt-dlp releases: ",
                error.as_str(),
            ),
            UpdateEvent::NotModified => (
                UpdatePhase::SavingCheck,
                UpdateAction::SaveCheck { etag: settings.release_etag.clone() },
            ),
            UpdateEvent::QueryRefused { error } => give_up(
                "yt-dlp release endpoint returned an error: ",
                error.as_str(),
            ),
            UpdateEvent::MetadataUnreadable { error } => give_up(
                "failed to decode yt-dlp release metadata: ",
                error.as_str(),
            ),
            UpdateEvent::ReleaseFound { etag, release } => judge_release(
                state,
                binary_asset,
                etag,
                release,
            ),
            UpdateEvent::CheckSaveFailed { error } => give_up(
                "failed to persist yt-dlp check timestamp: ",
                error.as_str(),
            ),
            UpdateEvent::CommitFailed { error } => give_up(
                "failed to persist staged yt-dlp version: ",
                error.as_str(),
            ),
            UpdateEvent::Committed => (
                UpdatePhase::Finished,
                UpdateAction::Finish(Ok(UpdateCheckResult::Staged)),
            ),
            _ => (UpdatePhase::Finished, UpdateAction::Finish(Ok(UpdateCheckResult::UpToDate))),
        },
    }
}

/// A binary is staged only when its checksum is the listed one.
pub proof fn only_checked_binaries_are_staged(
    settings: LocalYtDlpSettings,
    state: ManagedBinaryState,
    binary_asset: Seq<char>,
    phase: UpdatePhase,
    event: UpdateEvent,
    next: UpdatePhase,
    action: UpdateAction,
)
    requires
        answers_phase(phase, event),
        continues(settings, state, binary_asset, phase, event, next, action),
        action is Stage,
    ensures
        event matches UpdateEvent::BinaryFetched { bytes } && crate::yt_dlp::hex(
            crate::yt_dlp::sha256_digest(bytes@),
        ) == phase->FetchingBinary_expected_hash@,
{
}

/// A version waits to take over only after its binary was staged and passed its
/// test.
pub proof fn only_tested_binaries_are_committed(
    settings: LocalYtDlpSettings,
    state: ManagedBinaryState,
    binary_asset: Seq<char>,
    phase: UpdatePhase,
    event: UpdateEvent,
    next: UpdatePhase,
    action: UpdateAction,
)
    requires
        answers_phase(phase, event),
        continues(settings, state, binary_asset, phase, event, next, action),
        action is Commit,
    ensures
        phase is SmokeTesting,
        event is SmokeTestPassed,
        action->Commit_version == phase->SmokeTesting_version,
{
}

/// How many actions may still follow.
pub open spec fn actions_left(phase: UpdatePhase) -> nat {
    match phase {
        UpdatePhase::Querying => 6,
        UpdatePhase::FetchingChecksums { .. } => 5,
        UpdatePhase::FetchingBinary { .. } => 4,
        UpdatePhase::Staging { .. } => 3,
        UpdatePhase::SmokeTesting { .. } => 2,
        UpdatePhase::Committing => 1,
        UpdatePhase::SavingCheck => 1,
        UpdatePhase::Finished => 0,
    }
}

/// Every look for a release comes to an end: each event leaves fewer actions,
/// and none are left exactly when the look finishes.
pub proof fn every_look_ends(
    settings: LocalYtDlpSettings,
    state: ManagedBinaryState,
    binary_asset: Seq<char>,
    phase: UpdatePhase,
    event: UpdateEvent,
    next: UpdatePhase,
    action: UpdateAction,
)
    requires
        answers_phase(phase, event),
        continues(settings, state, binary_asset, phase, event, next, action),
    ensures
        actions_left(next) < actions_left(phase),
        actions_left(next) == 0 <==> action is Finish,
{
}

} // verus!
