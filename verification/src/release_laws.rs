//! Laws of the managed binary: when a release is looked for, which one is taken,
//! and what is run.

use vstd::prelude::*;

use crate::update::{GitHubRelease, GitHubReleaseAsset, UpdateAction, UpdateCheckResult};
use crate::update::{UpdateEvent, UpdatePhase};
use crate::yt_dlp::{BootstrapSource, ExecutableChoice, LocalYtDlpSettings, ManagedBinaryState};

verus! {

/// Whether an action ends a look with a failure that says `detail` at its end.
pub open spec fn fails_with(action: UpdateAction, detail: Seq<char>) -> bool {
    &&& action matches UpdateAction::Finish(Err(text))
    &&& detail.len() <= text@.len()
    &&& text@.skip(text@.len() - detail.len()) == detail
}

/// What went wrong in an event.
pub open spec fn trouble(event: UpdateEvent) -> Option<Seq<char>> {
    match event {
        UpdateEvent::QueryFailed { error } => Some(error@),
        UpdateEvent::QueryRefused { error } => Some(error@),
        UpdateEvent::MetadataUnreadable { error } => Some(error@),
        UpdateEvent::CheckSaveFailed { error } => Some(error@),
        UpdateEvent::ChecksumsFailed { error } => Some(error@),
        UpdateEvent::ChecksumsUnreadable { error } => Some(error@),
        UpdateEvent::BinaryFailed { error } => Some(error@),
        UpdateEvent::BinaryUnreadable { error } => Some(error@),
        UpdateEvent::StageFailed { error } => Some(error@),
        UpdateEvent::SmokeTestFailed { error } => Some(error@),
        UpdateEvent::CommitFailed { error } => Some(error@),
        _ => None,
    }
}

/// The version that a phase is about.
pub open spec fn version_of(phase: UpdatePhase) -> Option<String> {
    match phase {
        UpdatePhase::FetchingChecksums { version, .. } => Some(version),
        UpdatePhase::FetchingBinary { version, .. } => Some(version),
        UpdatePhase::Staging { version, .. } => Some(version),
        UpdatePhase::SmokeTesting { version, .. } => Some(version),
        _ => None,
    }
}

/// The release tag that a phase will note.
pub open spec fn etag_of(phase: UpdatePhase) -> Option<String> {
    match phase {
        UpdatePhase::FetchingChecksums { etag, .. } => etag,
        UpdatePhase::FetchingBinary { etag, .. } => etag,
        UpdatePhase::Staging { etag, .. } => etag,
        UpdatePhase::SmokeTesting { etag, .. } => etag,
        _ => None,
    }
}

/// No release is looked for where that is switched off; else it is asked for with
/// the tag of the last answer.
pub proof fn releases_are_looked_for_unless_switched_off(
    settings: LocalYtDlpSettings,
    phase: UpdatePhase,
    action: UpdateAction,
)
    requires
        crate::update::begins(settings, phase, action),
    ensures
        !settings.auto_update <==> action == UpdateAction::Finish(Ok(UpdateCheckResult::Skipped)),
        settings.auto_update ==> (action matches UpdateAction::Query { url, etag } && etag
            == settings.release_etag && phase is Querying),
{
}

/// Whatever goes wrong ends the look with a failure that says what it was, and
/// nothing else fails on the way but a release that cannot be used.
pub proof fn trouble_ends_the_look(
    settings: LocalYtDlpSettings,
    state: ManagedBinaryState,
    asset: Seq<char>,
    phase: UpdatePhase,
    event: UpdateEvent,
    next: UpdatePhase,
    action: UpdateAction,
)
    requires
        crate::update::answers_phase(phase, event),
        crate::update::continues(settings, state, asset, phase, event, next, action),
    ensures
        trouble(event) matches Some(error) ==> fails_with(action, error),
        (action matches UpdateAction::Finish(Err(_))) && trouble(event) is None ==> event
            is ReleaseFound || event is ChecksumsFetched || event is BinaryFetched,
{
    if let Some(error) = trouble(event) {
        if let UpdateAction::Finish(Err(text)) = action {
            let n = text@.len() - error.len();
            assert(text@.skip(n) =~= error);
        }
    }
}

/// An unchanged answer, a draft, a release on trial and a version that is already
/// here bring nothing: the look is noted, with the tag of the answer or the one
/// that still holds, and it ends with everything up to date.
pub proof fn nothing_new_is_only_noted(
    settings: LocalYtDlpSettings,
    state: ManagedBinaryState,
    asset: Seq<char>,
    phase: UpdatePhase,
    event: UpdateEvent,
    next: UpdatePhase,
    action: UpdateAction,
)
    requires
        crate::update::answers_phase(phase, event),
        crate::update::continues(settings, state, asset, phase, event, next, action),
    ensures
        event is NotModified ==> next is SavingCheck && action == (UpdateAction::SaveCheck {
            etag: settings.release_etag,
        }),
        event matches UpdateEvent::ReleaseFound { etag, release } ==> {
            let here = match state.pending_version {
                Some(version) => version@ == release.tag_name@,
                None => state.current_version matches Some(version) && version@
                    == release.tag_name@,
            };
            &&& release.draft || release.prerelease || here ==> next is SavingCheck && action == (
            UpdateAction::SaveCheck { etag })
            &&& !(release.draft || release.prerelease || here) ==> !(action is SaveCheck)
        },
        event is CheckSaved ==> action == UpdateAction::Finish(Ok(UpdateCheckResult::UpToDate)),
        event is Committed ==> action == UpdateAction::Finish(Ok(UpdateCheckResult::Staged)),
{
}

/// The file with a name is the first one in a release that has it; there is none
/// exactly where no file has it.
pub proof fn an_asset_is_found_by_its_name(
    before: Seq<GitHubReleaseAsset>,
    asset: GitHubReleaseAsset,
    behind: Seq<GitHubReleaseAsset>,
    name: Seq<char>,
)
    requires
        forall|i: int| 0 <= i < before.len() ==> (#[trigger] before[i]).name@ != name,
    ensures
        asset.name@ == name ==> crate::update::asset_url(before.push(asset) + behind, name) == Some(
            asset.browser_download_url,
        ),
        crate::update::asset_url(before, name) is None,
    decreases before.len(),
{
    let all = before.push(asset) + behind;
    if before.len() > 0 {
        let fewer = before.drop_first();
        assert forall|i: int| 0 <= i < fewer.len() implies (#[trigger] fewer[i]).name@ != name by {
            assert(fewer[i] == before[i + 1]);
        }
        an_asset_is_found_by_its_name(fewer, asset, behind, name);
        assert(all.drop_first() =~= fewer.push(asset) + behind);
        assert(all[0] == before[0]);
    } else {
        assert(all[0] == asset);
    }
}

/// A new release is fetched: first the checksums, and then the binary of the
/// machine, both at the addresses that the release gives for them.
pub proof fn the_files_of_the_release_are_fetched(
    settings: LocalYtDlpSettings,
    state: ManagedBinaryState,
    asset: Seq<char>,
    etag: Option<String>,
    release: GitHubRelease,
    next: UpdatePhase,
    action: UpdateAction,
    body: Vec<u8>,
    last: UpdatePhase,
    fetch: UpdateAction,
)
    requires
        crate::update::continues(
            settings,
            state,
            asset,
            UpdatePhase::Querying,
            UpdateEvent::ReleaseFound { etag, release },
            next,
            action,
        ),
        next is FetchingChecksums,
        crate::update::continues(
            settings,
            state,
            asset,
            next,
            UpdateEvent::ChecksumsFetched { body },
            last,
            fetch,
        ),
        !(fetch is Finish),
    ensures
        action matches UpdateAction::FetchChecksums { url } && crate::update::asset_url(
            release.assets@,
            "SHA2-256SUMS"@,
        ) == Some(url),
        fetch matches UpdateAction::FetchBinary { url } && crate::update::asset_url(
            release.assets@,
            asset,
        ) == Some(url),
        version_of(last) == Some(release.tag_name),
        etag_of(last) == etag,
        last matches UpdatePhase::FetchingBinary { expected_hash, .. }
            && vstd::utf8::valid_utf8(body@) && crate::yt_dlp::listed_checksum(
            vstd::utf8::decode_utf8(body@),
            asset,
        ) == Some(expected_hash@),
{
}

/// From its release on a version goes through every step under its name and with
/// its tag: it is staged, tried and committed, and no other is.
pub proof fn a_version_keeps_its_name(
    settings: LocalYtDlpSettings,
    state: ManagedBinaryState,
    asset: Seq<char>,
    phase: UpdatePhase,
    event: UpdateEvent,
    next: UpdatePhase,
    action: UpdateAction,
)
    requires
        crate::update::answers_phase(phase, event),
        crate::update::continues(settings, state, asset, phase, event, next, action),
        version_of(phase) is Some,
    ensures
        version_of(next) is Some ==> version_of(next) == version_of(phase) && etag_of(next)
            == etag_of(phase),
        action matches UpdateAction::Stage { version } ==> version_of(phase) == Some(version),
        action matches UpdateAction::SmokeTest { version } ==> version_of(phase) == Some(version),
        action matches UpdateAction::Commit { version, etag } ==> version_of(phase) == Some(version)
            && etag == etag_of(phase),
        event is Staged ==> action is SmokeTest,
        event is SmokeTestPassed ==> action is Commit,
        event matches UpdateEvent::BinaryFetched { bytes } ==> (action is Stage
            <==> crate::yt_dlp::hex(crate::yt_dlp::sha256_digest(bytes@))
            == phase->FetchingBinary_expected_hash@),
{
}

/// Bytes are written with two digits each, in their order, and other bytes are
/// written otherwise.
pub proof fn hexadecimal_digits_tell_bytes_apart(bytes: Seq<u8>, others: Seq<u8>, i: int)
    requires
        0 <= i < bytes.len(),
    ensures
        crate::yt_dlp::hex(bytes).len() == 2 * bytes.len(),
        ({
            let high = crate::yt_dlp::hex(bytes)[2 * i];
            let low = crate::yt_dlp::hex(bytes)[2 * i + 1];
            &&& '0' <= high <= '9' || 'a' <= high <= 'f'
            &&& '0' <= low <= '9' || 'a' <= low <= 'f'
            &&& bytes[i] == 16 * digit_value(high) + digit_value(low)
        }),
        crate::yt_dlp::hex(bytes) == crate::yt_dlp::hex(others) ==> bytes == others,
{
    lemma_hex(bytes);
    lemma_hex(others);
    lemma_hex_at(bytes, i);
    if crate::yt_dlp::hex(bytes) == crate::yt_dlp::hex(others) {
        assert forall|j: int| 0 <= j < bytes.len() implies bytes[j] == others[j] by {
            lemma_hex_at(bytes, j);
            lemma_hex_at(others, j);
        }
        assert(bytes =~= others);
    }
}

/// The value of a hexadecimal digit.
pub open spec fn digit_value(c: char) -> int {
    if c <= '9' {
        c as int - '0' as int
    } else {
        c as int - 'a' as int + 10
    }
}

proof fn lemma_hex(bytes: Seq<u8>)
    ensures
        crate::yt_dlp::hex(bytes).len() == 2 * bytes.len(),
    decreases bytes.len(),
{
    if bytes.len() > 0 {
        lemma_hex(bytes.drop_last());
    }
}

proof fn lemma_hex_at(bytes: Seq<u8>, i: int)
    requires
        0 <= i < bytes.len(),
    ensures
        crate::yt_dlp::hex(bytes).len() == 2 * bytes.len(),
        ({
            let high = crate::yt_dlp::hex(bytes)[2 * i];
            let low = crate::yt_dlp::hex(bytes)[2 * i + 1];
            &&& '0' <= high <= '9' || 'a' <= high <= 'f'
            &&& '0' <= low <= '9' || 'a' <= low <= 'f'
            &&& bytes[i] == 16 * digit_value(high) + digit_value(low)
        }),
    decreases bytes.len(),
{
    lemma_hex(bytes);
    lemma_hex(bytes.drop_last());
    if i < bytes.len() - 1 {
        lemma_hex_at(bytes.drop_last(), i);
    }
}

/// A checksum is accepted if and only if it is the expected one; the complaint
/// about another ends with it.
pub proof fn only_the_expected_checksum_is_accepted(
    expected: Seq<char>,
    actual: Seq<char>,
    result: Result<(), String>,
)
    requires
        crate::yt_dlp::hash_outcome_is(expected, actual, result),
    ensures
        result is Ok <==> expected == actual,
        result matches Err(message) ==> actual.len() <= message@.len() && message@.skip(
            message@.len() - actual.len(),
        ) == actual,
{
    if let Err(message) = result {
        assert(message@.skip(message@.len() - actual.len()) =~= actual);
    }
}

/// A release is looked for at first and then once a day; a look that was noted
/// puts the next one off by a whole day, and changes nothing else but the tag.
pub proof fn a_release_is_looked_for_once_a_day(
    settings: LocalYtDlpSettings,
    now_unix_s: u64,
    etag: Option<String>,
    later_unix_s: u64,
)
    ensures
        settings.last_checked_unix_s is None ==> settings.due(now_unix_s),
        settings.marked(now_unix_s, etag).due(later_unix_s) <==> later_unix_s >= now_unix_s + 24
            * 60 * 60,
        settings.marked(now_unix_s, etag).auto_update == settings.auto_update,
        settings.marked(now_unix_s, etag).channel == settings.channel,
        etag is Some ==> settings.marked(now_unix_s, etag).release_etag == etag,
        etag is None ==> settings.marked(now_unix_s, etag).release_etag == settings.release_etag,
{
}

/// The version that waits takes over where its binary is in its place, and not
/// otherwise; the one that was current before is kept as the previous one.
pub proof fn the_pending_version_takes_over(
    state: ManagedBinaryState,
    pending_is_file: bool,
    next: Option<ManagedBinaryState>,
)
    requires
        state.takes_over(pending_is_file, next),
    ensures
        next is Some <==> state.pending_version is Some && pending_is_file,
        next matches Some(moved) ==> {
            &&& moved.current_version == state.pending_version
            &&& moved.previous_version == state.current_version
            &&& moved.pending_version is None
        },
{
}

/// A binary is taken over from the first place that has one: what the environment
/// names comes before a neighbour, and a neighbour before the usual place.
pub proof fn a_binary_is_taken_from_the_first_place(
    environment_is_file: bool,
    sibling_is_file: bool,
    fallback_is_file: bool,
)
    ensures
        ({
            let source = crate::yt_dlp::first_source(
                environment_is_file,
                sibling_is_file,
                fallback_is_file,
            );
            &&& source is Environment <==> environment_is_file
            &&& source is Sibling <==> sibling_is_file && !environment_is_file
            &&& source is WindowsFallback <==> fallback_is_file && !sibling_is_file
                && !environment_is_file
            &&& source is SearchPath <==> !environment_is_file && !sibling_is_file
                && !fallback_is_file
        }),
{
}

/// What the environment names is run before the managed version, and that before
/// a binary that could be taken over.
pub proof fn the_environment_decides_what_is_run(
    environment_is_set: bool,
    managed_is_file: bool,
    bootstrap_is_found: bool,
)
    ensures
        ({
            let choice = crate::yt_dlp::first_choice(
                environment_is_set,
                managed_is_file,
                bootstrap_is_found,
            );
            &&& choice is Environment <==> environment_is_set
            &&& choice is Managed <==> managed_is_file && !environment_is_set
            &&& choice is Bootstrap <==> bootstrap_is_found && !managed_is_file
                && !environment_is_set
            &&& choice is Default <==> !environment_is_set && !managed_is_file
                && !bootstrap_is_found
        }),
{
}

/// Each version has a place of its own, and what is staged lies elsewhere under
/// the same name.
pub proof fn versions_have_places_of_their_own(
    version: Seq<char>,
    other: Seq<char>,
    windows: bool,
)
    ensures
        crate::yt_dlp::managed_parts(version, windows) == crate::yt_dlp::managed_parts(
            other,
            windows,
        ) ==> version == other,
        crate::yt_dlp::staged_parts(version, windows) == crate::yt_dlp::staged_parts(
            other,
            windows,
        ) ==> version == other,
        crate::yt_dlp::managed_parts(version, windows) != crate::yt_dlp::staged_parts(
            other,
            windows,
        ),
        crate::yt_dlp::managed_parts(version, windows).last() == crate::yt_dlp::staged_parts(
            version,
            windows,
        ).last(),
        crate::yt_dlp::managed_parts(version, windows)[0] == "versions"@,
        crate::yt_dlp::staged_parts(version, windows)[0] == "staging"@,
        crate::yt_dlp::managed_parts(version, windows)[1] == version,
        crate::yt_dlp::staged_parts(version, windows)[1] == version,
{
    let m = crate::yt_dlp::managed_parts(version, windows);
    let n = crate::yt_dlp::managed_parts(other, windows);
    let s = crate::yt_dlp::staged_parts(version, windows);
    let t = crate::yt_dlp::staged_parts(other, windows);
    assert(m[1] == version && n[1] == other && s[1] == version && t[1] == other);
    reveal_strlit("versions");
    reveal_strlit("staging");
    assert(m[0].len() != t[0].len());
}

/// Windows has a binary of its own for each kind of machine, and its file has an
/// extension; everywhere else there is one binary.
pub proof fn each_machine_has_its_binary(arch: Seq<char>)
    ensures
        crate::yt_dlp::asset_name(false, arch) == "yt-dlp"@,
        arch == "x86"@ ==> crate::yt_dlp::asset_name(true, arch) == "yt-dlp_x86.exe"@,
        arch == "aarch64"@ ==> crate::yt_dlp::asset_name(true, arch) == "yt-dlp_arm64.exe"@,
        arch != "x86"@ && arch != "aarch64"@ ==> crate::yt_dlp::asset_name(true, arch)
            == "yt-dlp.exe"@,
        crate::yt_dlp::binary_name(true) == "yt-dlp.exe"@,
        crate::yt_dlp::binary_name(false) == "yt-dlp"@,
{
    reveal_strlit("x86");
    reveal_strlit("aarch64");
    assert("x86"@.len() == 3);
    assert("aarch64"@.len() == 7);
}

/// Whether an action ends a look with a failure that begins with `head`.
pub open spec fn complains(action: UpdateAction, head: Seq<char>) -> bool {
    action matches UpdateAction::Finish(Err(text)) && crate::text::has_prefix(text@, head)
}

/// The failure of a look says at which step it came to an end.
pub proof fn a_failure_names_its_step(
    settings: LocalYtDlpSettings,
    state: ManagedBinaryState,
    asset: Seq<char>,
    phase: UpdatePhase,
    event: UpdateEvent,
    next: UpdatePhase,
    action: UpdateAction,
)
    requires
        crate::update::answers_phase(phase, event),
        crate::update::continues(settings, state, asset, phase, event, next, action),
    ensures
        event is QueryFailed ==> complains(action, "failed to query yt-dlp releases: "@),
        event is QueryRefused ==> complains(
            action,
            "yt-dlp release endpoint returned an error: "@,
        ),
        event is MetadataUnreadable ==> complains(
            action,
            "failed to decode yt-dlp release metadata: "@,
        ),
        event is CheckSaveFailed ==> complains(
            action,
            "failed to persist yt-dlp check timestamp: "@,
        ),
        event is ChecksumsFailed ==> complains(action, "failed to download yt-dlp checksums: "@),
        event is ChecksumsUnreadable ==> complains(action, "failed to read yt-dlp checksums: "@),
        event is BinaryFailed ==> complains(action, "failed to download yt-dlp binary: "@),
        event is BinaryUnreadable ==> complains(action, "failed to read yt-dlp binary: "@),
        event is StageFailed ==> complains(action, "failed to stage yt-dlp update: "@),
        event is SmokeTestFailed ==> complains(
            action,
            "staged yt-dlp binary failed smoke test: "@,
        ),
        event is CommitFailed ==> complains(action, "failed to persist staged yt-dlp version: "@),
{
    match event {
        UpdateEvent::QueryFailed { error } => lemma_head(
            "failed to query yt-dlp releases: "@,
            error@,
        ),
        UpdateEvent::QueryRefused { error } => lemma_head(
            "yt-dlp release endpoint returned an error: "@,
            error@,
        ),
        UpdateEvent::MetadataUnreadable { error } => lemma_head(
            "failed to decode yt-dlp release metadata: "@,
            error@,
        ),
        UpdateEvent::CheckSaveFailed { error } => lemma_head(
            "failed to persist yt-dlp check timestamp: "@,
            error@,
        ),
        UpdateEvent::ChecksumsFailed { error } => lemma_head(
            "failed to download yt-dlp checksums: "@,
            error@,
        ),
        UpdateEvent::ChecksumsUnreadable { error } => lemma_head(
            "failed to read yt-dlp checksums: "@,
            error@,
        ),
        UpdateEvent::BinaryFailed { error } => lemma_head(
            "failed to download yt-dlp binary: "@,
            error@,
        ),
        UpdateEvent::BinaryUnreadable { error } => lemma_head(
            "failed to read yt-dlp binary: "@,
            error@,
        ),
        UpdateEvent::StageFailed { error } => lemma_head(
            "failed to stage yt-dlp update: "@,
            error@,
        ),
        UpdateEvent::SmokeTestFailed { error } => lemma_head(
            "staged yt-dlp binary failed smoke test: "@,
            error@,
        ),
        UpdateEvent::CommitFailed { error } => lemma_head(
            "failed to persist staged yt-dlp version: "@,
            error@,
        ),
        _ => {},
    }
}

proof fn lemma_head(head: Seq<char>, tail: Seq<char>)
    ensures
        crate::text::has_prefix(head + tail, head),
{
    crate::text_laws::parts_occur(Seq::empty(), head, tail);
}

} // verus!
