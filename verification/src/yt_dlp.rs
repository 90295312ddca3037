//! The managed yt-dlp binary: which one is run, when a new release is looked
//! for, and how one is checked and taken over.

use vstd::prelude::*;

verus! {

pub const DEFAULT_WINDOWS_YT_DLP_PATH: &'static str = "C:\\tools\\yt-dlp\\yt-dlp.exe";

pub const YT_DLP_PATH_ENV: &'static str = "NOCTURNE_YT_DLP_PATH";

pub const SETTINGS_FILE_NAME: &'static str = "yt-dlp-settings.json";

pub const MANAGED_ROOT_DIR_NAME: &'static str = "yt-dlp";

pub const STATE_FILE_NAME: &'static str = "state.json";

pub const VERSIONS_DIR_NAME: &'static str = "versions";

pub const STAGING_DIR_NAME: &'static str = "staging";

pub const STABLE_RELEASE_URL: &'static str = "https://api.github.com/repos/yt-dlp/yt-dlp/releases/latest";

pub const CHECKSUM_ASSET_NAME: &'static str = "SHA2-256SUMS";

/// How long a run of yt-dlp may take, in seconds.
pub const YT_DLP_COMMAND_TIMEOUT: u64 = 15;

/// How long to wait between two looks for a release, in seconds.
pub const YT_DLP_UPDATE_INTERVAL: u64 = 86400;

// ---------------------------------------------------------------------------
// Settings and state
// ---------------------------------------------------------------------------

#[derive(Debug, Clone, Copy, PartialEq, Eq, Structural)]
pub enum YtDlpReleaseChannel {
    Stable,
}

impl Default for YtDlpReleaseChannel {
    fn default() -> (channel: Self)
        ensures
            channel == YtDlpReleaseChannel::Stable,
    {
        YtDlpReleaseChannel::Stable
    }
}

/// How releases are followed.
#[derive(Debug, PartialEq, Eq)]
pub struct LocalYtDlpSettings {
    pub auto_update: bool,
    pub channel: YtDlpReleaseChannel,
    pub last_checked_unix_s: Option<u64>,
    pub release_etag: Option<String>,
}

impl Default for LocalYtDlpSettings {
    fn default() -> (settings: Self)
        ensures
            settings.auto_update,
            settings.channel == YtDlpReleaseChannel::Stable,
            settings.last_checked_unix_s is None,
            settings.release_etag is None,
    {
        LocalYtDlpSettings {
            auto_update: true,
            channel: YtDlpReleaseChannel::Stable,
            last_checked_unix_s: None,
            release_etag: None,
        }
    }
}

impl Clone for LocalYtDlpSettings {
    fn clone(&self) -> (copy: Self)
        ensures
            copy == *self,
    {
        LocalYtDlpSettings {
            auto_update: self.auto_update,
            channel: self.channel,
            last_checked_unix_s: self.last_checked_unix_s,
            release_etag: self.release_etag.clone(),
        }
    }
}

impl LocalYtDlpSettings {
    /// Whether it is time to look for a release again.
    pub open spec fn due(&self, now_unix_s: u64) -> bool {
        match self.last_checked_unix_s {
            None => true,
            Some(last) => now_unix_s >= last && now_unix_s - last >= YT_DLP_UPDATE_INTERVAL,
        }
    }

    /// Decides [`LocalYtDlpSettings::due`].
    pub fn should_check_now(&self, now_unix_s: u64) -> (r: bool)
        ensures
            r == self.due(now_unix_s),
    {
        match self.last_checked_unix_s {
            None => true,
            Some(last) => now_unix_s.saturating_sub(last) >= YT_DLP_UPDATE_INTERVAL,
        }
    }

    /// The settings once a look for a release is noted.
    pub open spec fn marked(self, now_unix_s: u64, etag: Option<String>) -> Self {
        LocalYtDlpSettings {
            last_checked_unix_s: Some(now_unix_s),
            release_etag: if etag is Some {
                etag
            } else {
                self.release_etag
            },
            ..self
        }
    }

    /// Notes a look for a release, and its tag where one came with the answer.
    pub fn mark_checked(&mut self, now_unix_s: u64, etag: Option<String>)
        ensures
            *final(self) == old(self).marked(now_unix_s, etag),
    {
        self.last_checked_unix_s = Some(now_unix_s);
        if etag.is_some() {
            self.release_etag = etag;
        }
    }
}

/// Which versions of the binary are there.
#[derive(Debug, PartialEq, Eq)]
pub struct ManagedBinaryState {
    pub current_version: Option<String>,
    pub previous_version: Option<String>,
    pub pending_version: Option<String>,
}

impl Default for ManagedBinaryState {
    fn default() -> (state: Self)
        ensures
            state.current_version is None,
            state.previous_version is None,
            state.pending_version is None,
    {
        ManagedBinaryState { current_version: None, previous_version: None, pending_version: None }
    }
}

impl Clone for ManagedBinaryState {
    fn clone(&self) -> (copy: Self)
        ensures
            copy == *self,
    {
        ManagedBinaryState {
            current_version: self.current_version.clone(),
            previous_version: self.previous_version.clone(),
            pending_version: self.pending_version.clone(),
        }
    }
}

impl ManagedBinaryState {
    /// The state after the pending version has taken over.
    pub open spec fn promoted(self) -> Self {
        match self.pending_version {
            Some(version) => ManagedBinaryState {
                current_version: Some(version),
                previous_version: self.current_version,
                pending_version: None,
            },
            None => self,
        }
    }

    /// Whether `next` is what follows an attempt to let the pending version take
    /// over.
    pub open spec fn takes_over(self, pending_is_file: bool, next: Option<Self>) -> bool {
        match next {
            Some(state) => self.pending_version is Some && pending_is_file && state
                == self.promoted(),
            None => self.pending_version is None || !pending_is_file,
        }
    }

    /// The state after the pending version has taken over, where there is one
    /// and its binary is in its place; nothing where all stays as it is.
    pub fn promote_pending_if_ready(&self, pending_is_file: bool) -> (next: Option<Self>)
        ensures
            self.takes_over(pending_is_file, next),
    {
        if !pending_is_file {
            return None;
        }
        match &self.pending_version {
            Some(version) => Some(
                ManagedBinaryState {
                    current_version: Some(version.clone()),
                    previous_version: self.current_version.clone(),
                    pending_version: None,
                },
            ),
            None => None,
        }
    }

    /// The state once a binary that was found has been taken over.
    pub fn with_bootstrapped(&self, version: String) -> (next: Self)
        ensures
            next == (ManagedBinaryState { current_version: Some(version), ..*self }),
    {
        ManagedBinaryState {
            current_version: Some(version),
            previous_version: self.previous_version.clone(),
            pending_version: self.pending_version.clone(),
        }
    }

    /// The state once a checked release waits to take over.
    pub fn with_pending(&self, version: String) -> (next: Self)
        ensures
            next == (ManagedBinaryState { pending_version: Some(version), ..*self }),
    {
        ManagedBinaryState {
            current_version: self.current_version.clone(),
            previous_version: self.previous_version.clone(),
            pending_version: Some(version),
        }
    }

    /// Whether another version is current than in `earlier`.
    pub fn has_moved_on_from(&self, earlier: &Self) -> (r: bool)
        ensures
            r == (crate::text::opt_view(self.current_version) != crate::text::opt_view(
                earlier.current_version,
            )),
    {
        !crate::text::opt_same(&self.current_version, &earlier.current_version)
    }

    /// The version that is pending, or else the current one.
    pub open spec fn newest(self) -> Option<String> {
        match self.pending_version {
            Some(version) => Some(version),
            None => self.current_version,
        }
    }
}

/// A version that waits takes over exactly once, and what was current before is
/// remembered.
pub proof fn a_promotion_happens_once(state: ManagedBinaryState)
    requires
        state.pending_version is Some,
    ensures
        state.promoted().current_version == state.pending_version,
        state.promoted().previous_version == state.current_version,
        state.promoted().pending_version is None,
        state.promoted().promoted() == state.promoted(),
{
}

/// The place of the settings.
#[derive(Debug, PartialEq, Eq)]
pub struct LocalYtDlpSettingsStore {
    path: String,
}

impl LocalYtDlpSettingsStore {
    /// Where the settings are kept.
    pub closed spec fn spec_path(&self) -> Seq<char> {
        self.path@
    }

    pub fn from_path(path: String) -> (store: Self)
        ensures
            store.spec_path() == path@,
    {
        LocalYtDlpSettingsStore { path }
    }

    pub fn path(&self) -> (path: &str)
        ensures
            path@ == self.spec_path(),
    {
        self.path.as_str()
    }

    /// The settings that are taken from what was found: those of the file, or the
    /// first ones where there is no file.
    pub fn load(&self, stored: Option<LocalYtDlpSettings>) -> (settings: LocalYtDlpSettings)
        ensures
            match stored {
                Some(found) => settings == found,
                None => settings == (LocalYtDlpSettings {
                    auto_update: true,
                    channel: YtDlpReleaseChannel::Stable,
                    last_checked_unix_s: None,
                    release_etag: None,
                }),
            },
    {
        match stored {
            Some(found) => found,
            None => LocalYtDlpSettings::default(),
        }
    }
}

// ---------------------------------------------------------------------------
// Places
// ---------------------------------------------------------------------------

/// The file name of the binary.
pub open spec fn binary_name(windows: bool) -> Seq<char> {
    if windows {
        "yt-dlp.exe"@
    } else {
        "yt-dlp"@
    }
}

/// Computes [`binary_name`].
pub fn managed_binary_file_name(windows: bool) -> (name: &'static str)
    ensures
        name@ == binary_name(windows),
{
    if windows {
        "yt-dlp.exe"
    } else {
        "yt-dlp"
    }
}

/// The path of a managed version, below the managed root.
pub open spec fn managed_parts(version: Seq<char>, windows: bool) -> Seq<Seq<char>> {
    seq![VERSIONS_DIR_NAME@, version, binary_name(windows)]
}

/// The path at which a release is staged, below the managed root.
pub open spec fn staged_parts(version: Seq<char>, windows: bool) -> Seq<Seq<char>> {
    seq![STAGING_DIR_NAME@, version, binary_name(windows)]
}

/// The parts of the path of a managed version, below the managed root.
pub fn managed_binary_path(version: &str, windows: bool) -> (parts: Vec<String>)
    ensures
        crate::search::text_views(parts@) == managed_parts(version@, windows),
{
    let mut parts: Vec<String> = Vec::new();
    parts.push(VERSIONS_DIR_NAME.to_owned());
    parts.push(version.to_owned());
    parts.push(managed_binary_file_name(windows).to_owned());
    assert(crate::search::text_views(parts@) =~= managed_parts(version@, windows));
    parts
}

/// The parts of the path at which a release is staged, below the managed root.
pub fn staged_binary_path(version: &str, windows: bool) -> (parts: Vec<String>)
    ensures
        crate::search::text_views(parts@) == staged_parts(version@, windows),
{
    let mut parts: Vec<String> = Vec::new();
    parts.push(STAGING_DIR_NAME.to_owned());
    parts.push(version.to_owned());
    parts.push(managed_binary_file_name(windows).to_owned());
    assert(crate::search::text_views(parts@) =~= staged_parts(version@, windows));
    parts
}

/// The asset of a release for a machine.
pub open spec fn asset_name(windows: bool, arch: Seq<char>) -> Seq<char> {
    if windows {
        if arch == "x86"@ {
            "yt-dlp_x86.exe"@
        } else if arch == "aarch64"@ {
            "yt-dlp_arm64.exe"@
        } else {
            "yt-dlp.exe"@
        }
    } else {
        "yt-dlp"@
    }
}

/// Computes [`asset_name`].
pub fn release_asset_name(windows: bool, arch: &str) -> (name: &'static str)
    ensures
        name@ == asset_name(windows, arch@),
{
    if windows {
        if crate::text::str_eq(arch, "x86") {
            "yt-dlp_x86.exe"
        } else if crate::text::str_eq(arch, "aarch64") {
            "yt-dlp_arm64.exe"
        } else {
            "yt-dlp.exe"
        }
    } else {
        "yt-dlp"
    }
}

/// The address of the releases of a channel.
pub fn release_url_for_channel(channel: YtDlpReleaseChannel) -> (url: &'static str)
    ensures
        url@ == STABLE_RELEASE_URL@,
{
    match channel {
        YtDlpReleaseChannel::Stable => STABLE_RELEASE_URL,
    }
}

/// Where a binary may be found that is not managed yet.
#[derive(Debug, Clone, Copy, PartialEq, Eq, Structural)]
pub enum BootstrapSource {
    Environment,
    Sibling,
    WindowsFallback,
    SearchPath,
}

/// The first of the known places that has a binary, or else the search path.
pub open spec fn first_source(
    environment_is_file: bool,
    sibling_is_file: bool,
    fallback_is_file: bool,
) -> BootstrapSource {
    if environment_is_file {
        BootstrapSource::Environment
    } else if sibling_is_file {
        BootstrapSource::Sibling
    } else if fallback_is_file {
        BootstrapSource::WindowsFallback
    } else {
        BootstrapSource::SearchPath
    }
}

/// The place from which a binary is taken over: the first of the known places
/// that has one, and else whatever the search path gives.
pub fn bootstrap_source(
    environment_is_file: bool,
    sibling_is_file: bool,
    fallback_is_file: bool,
) -> (source: BootstrapSource)
    ensures
        source == first_source(environment_is_file, sibling_is_file, fallback_is_file),
{
    if environment_is_file {
        BootstrapSource::Environment
    } else if sibling_is_file {
        BootstrapSource::Sibling
    } else if fallback_is_file {
        BootstrapSource::WindowsFallback
    } else {
        BootstrapSource::SearchPath
    }
}

/// What is run as yt-dlp.
#[derive(Debug, Clone, Copy, PartialEq, Eq, Structural)]
pub enum ExecutableChoice {
    Environment,
    Managed,
    Bootstrap,
    Default,
}

/// The first of the binaries that there are, or else whatever goes by the name.
pub open spec fn first_choice(
    environment_is_set: bool,
    managed_is_file: bool,
    bootstrap_is_found: bool,
) -> ExecutableChoice {
    if environment_is_set {
        ExecutableChoice::Environment
    } else if managed_is_file {
        ExecutableChoice::Managed
    } else if bootstrap_is_found {
        ExecutableChoice::Bootstrap
    } else {
        ExecutableChoice::Default
    }
}

/// What is run: what the environment names, else the managed version, else a
/// binary that could be taken over, else whatever goes by the name.
pub fn executable_choice(
    environment_is_set: bool,
    managed_is_file: bool,
    bootstrap_is_found: bool,
) -> (choice: ExecutableChoice)
    ensures
        choice == first_choice(environment_is_set, managed_is_file, bootstrap_is_found),
{
    if environment_is_set {
        ExecutableChoice::Environment
    } else if managed_is_file {
        ExecutableChoice::Managed
    } else if bootstrap_is_found {
        ExecutableChoice::Bootstrap
    } else {
        ExecutableChoice::Default
    }
}

/// The first line of output that is not blank, where the output is UTF-8.
pub fn first_output_line(stdout: &[u8]) -> (line: Option<String>)
    ensures
        crate::text::opt_view(line) == if vstd::utf8::valid_utf8(stdout@) {
            crate::text::first_text_line(vstd::utf8::decode_utf8(stdout@))
        } else {
            None
        },
{
    match crate::text::read_utf8(stdout) {
        Some(text) => crate::text::find_text_line(text.as_str()),
        None => None,
    }
}

/// The version that a binary reports, or a stand-in where it reports none.
pub fn bootstrap_version(reported: Option<String>) -> (version: String)
    ensures
        match reported {
            Some(text) => version == text,
            None => version@ == "bootstrap"@,
        },
{
    match reported {
        Some(version) => version,
        None => "bootstrap".to_owned(),
    }
}

// ---------------------------------------------------------------------------
// Checksums
// ---------------------------------------------------------------------------

/// The checksum that a list of checksums gives for a file: the first word of
/// the first line whose second word is the file's name.
pub open spec fn listed_checksum(text: Seq<char>, file_name: Seq<char>) -> Option<Seq<char>>
    decreases text.len(),
    via listed_checksum_decreases
{
    let words = crate::text::words(crate::text::first_line(text));
    if words.len() >= 2 && words[1] == file_name {
        Some(words[0])
    } else {
        match crate::text::later_lines(text) {
            Some(rest) => listed_checksum(rest, file_name),
            None => None,
        }
    }
}

#[via_fn]
proof fn listed_checksum_decreases(text: Seq<char>, file_name: Seq<char>) {
    crate::text::lemma_run_before(text, '\n');
}

/// Computes [`listed_checksum`] of bytes that are UTF-8; of others there is none.
pub fn parse_checksum_file(contents: &[u8], file_name: &str) -> (checksum: Option<String>)
    ensures
        crate::text::opt_view(checksum) == if vstd::utf8::valid_utf8(contents@) {
            listed_checksum(vstd::utf8::decode_utf8(contents@), file_name@)
        } else {
            None
        },
{
    match crate::text::read_utf8(contents) {
        Some(text) => find_checksum(text.as_str(), file_name),
        None => None,
    }
}

/// Computes [`listed_checksum`].
pub fn find_checksum(text: &str, file_name: &str) -> (checksum: Option<String>)
    ensures
        crate::text::opt_view(checksum) == listed_checksum(text@, file_name@),
{
    let chars = crate::text::chars_of(text);
    let n = chars.len();
    let mut pos: usize = 0;
    assert(chars@.skip(0) =~= text@);
    loop
        invariant
            pos <= n,
            n == chars@.len(),
            listed_checksum(chars@.skip(pos as int), file_name@) == listed_checksum(
                text@,
                file_name@,
            ),
        decreases n - pos,
    {
        let end = crate::text::end_of_run(&chars, pos, '\n');
        let words = crate::text::split_words(&chars, pos, end);
        let ghost rest = chars@.skip(pos as int);
        let ghost found = crate::text::words(crate::text::first_line(rest));
        proof {
            crate::text::lemma_run_before(rest, '\n');
            assert(crate::text::first_line(rest) =~= chars@.subrange(pos as int, end as int));
            assert(found == words@.map_values(|w: String| w@));
        }
        if words.len() >= 2 && crate::text::str_eq(words[1].as_str(), file_name) {
            assert(found[1] == words@[1]@);
            assert(found[0] == words@[0]@);
            return Some(words[0].clone());
        }
        assert(found.len() >= 2 ==> found[1] == words@[1]@);
        if end >= n {
            return None;
        }
        assert(rest.skip(crate::text::run_before(rest, '\n') + 1) =~= chars@.skip(end + 1));
        pos = end + 1;
    }
}

/// What SHA-256 makes of bytes.
pub uninterp spec fn sha256_digest(bytes: Seq<u8>) -> Seq<u8>;

/// `sha2::Sha256`: the digest of the bytes, 32 bytes long. The hash function
/// itself is the outside crate's; the contract says that the digest depends on
/// the bytes alone.
#[verifier::external_body]
fn sha256(bytes: &[u8]) -> (digest: Vec<u8>)
    ensures
        digest@ == sha256_digest(bytes@),
        digest@.len() == 32,
{
    <sha2::Sha256 as sha2::Digest>::digest(bytes).to_vec()
}

/// The hexadecimal digit with value `d`, in small letters.
pub open spec fn hex_digit(d: int) -> char {
    if d < 10 {
        (48 + d) as char
    } else {
        (87 + d) as char
    }
}

/// Bytes in hexadecimal notation, two digits each.
pub open spec fn hex(bytes: Seq<u8>) -> Seq<char>
    decreases bytes.len(),
{
    if bytes.len() == 0 {
        Seq::empty()
    } else {
        hex(bytes.drop_last()).push(hex_digit(bytes.last() as int / 16)).push(
            hex_digit(bytes.last() as int % 16),
        )
    }
}

fn to_hex_digit(d: u8) -> (c: char)
    requires
        d < 16,
    ensures
        c == hex_digit(d as int),
{
    if d < 10 {
        (48 + d) as char
    } else {
        (87 + d) as char
    }
}

/// Computes [`hex`].
pub fn format_hex(bytes: &Vec<u8>) -> (text: String)
    ensures
        text@ == hex(bytes@),
{
    let mut text = String::new();
    let mut i: usize = 0;
    assert(bytes@.take(0) =~= Seq::empty());
    while i < bytes.len()
        invariant
            i <= bytes@.len(),
            text@ == hex(bytes@.take(i as int)),
        decreases bytes@.len() - i,
    {
        let byte = bytes[i];
        text.push(to_hex_digit(byte / 16));
        text.push(to_hex_digit(byte % 16));
        proof {
            let upto = bytes@.take(i + 1);
            assert(upto.drop_last() =~= bytes@.take(i as int));
            assert(upto.last() == byte);
        }
        i += 1;
    }
    assert(bytes@.take(i as int) =~= bytes@);
    text
}

/// The SHA-256 checksum of bytes, in hexadecimal notation.
pub fn compute_sha256(bytes: &[u8]) -> (checksum: String)
    ensures
        checksum@ == hex(sha256_digest(bytes@)),
{
    let digest = sha256(bytes);
    format_hex(&digest)
}

/// Whether `result` is what comes of holding a checksum against the expected one.
pub open spec fn hash_outcome_is(
    expected: Seq<char>,
    actual: Seq<char>,
    result: Result<(), String>,
) -> bool {
    match result {
        Ok(_) => actual == expected,
        Err(message) => actual != expected && message@ == "yt-dlp checksum mismatch: expected "@
            + expected + ", got "@ + actual,
    }
}

/// Holds a checksum against the expected one.
pub fn check_hash(expected: &str, actual: &str) -> (result: Result<(), String>)
    ensures
        hash_outcome_is(expected@, actual@, result),
{
    if crate::text::str_eq(actual, expected) {
        return Ok(());
    }
    let mut message = "yt-dlp checksum mismatch: expected ".to_owned();
    message.append(expected);
    message.append(", got ");
    message.append(actual);
    Err(message)
}

} // verus!
