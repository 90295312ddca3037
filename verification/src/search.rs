//! Searching with yt-dlp: the jobs that wait for the provider, prepared answers,
//! and what the provider's output means.

use std::collections::VecDeque;

use vstd::prelude::*;

use crate::domain::{clone_songs, Song, SongView};
use crate::json::{Json, JsonView};
use crate::ports::{PortError, SearchPort};
use crate::text_map::TextMap;
use crate::youtube::{canonical_youtube_watch_url, valid_video_id, FailureView, LocalSearchFailure};

verus! {

// ---------------------------------------------------------------------------
// Songs in the provider's output
// ---------------------------------------------------------------------------

/// The failure of output that is no JSON.
pub open spec fn unreadable() -> FailureView {
    crate::youtube::failure_view(
        "yt_dlp_invalid_json",
        "Search provider returned unreadable data.",
    )
}

/// The failure of output of another shape than expected.
pub open spec fn malformed(message: &str) -> FailureView {
    crate::youtube::failure_view("yt_dlp_invalid_response", message)
}

/// A text that is there and not empty.
pub open spec fn filled(text: Option<Seq<char>>) -> Option<Seq<char>> {
    match text {
        Some(text) => if text.len() > 0 {
            Some(text)
        } else {
            None
        },
        None => None,
    }
}

/// The name of the channel: the text of the channel, or of the uploader where
/// no channel is given.
pub open spec fn channel_of(entry: JsonView) -> Option<Seq<char>> {
    if entry.member("channel"@) is Some {
        filled(entry.text_of("channel"@))
    } else {
        filled(entry.text_of("uploader"@))
    }
}

/// The duration in milliseconds; zero where none is given.
pub open spec fn duration_of(entry: JsonView) -> u64 {
    match entry.member("duration"@) {
        Some(JsonView::Number(number)) => match number.double_bits {
            Some(bits) => crate::seconds::millis_of_seconds(bits),
            None => 0,
        },
        _ => 0,
    }
}

/// The address of a search result: its own where it is one of the web, else the
/// canonical one of its video.
pub open spec fn address_of(entry: JsonView, id: Seq<char>) -> Seq<char> {
    match entry.text_of("url"@) {
        Some(url) => if crate::text::has_prefix(url, "http://"@) || crate::text::has_prefix(
            url,
            "https://"@,
        ) {
            url
        } else {
            "https://www.youtube.com/watch?v="@ + id
        },
        None => "https://www.youtube.com/watch?v="@ + id,
    }
}

/// The song of a search result.
pub open spec fn entry_song(entry: JsonView) -> Result<SongView, FailureView> {
    match filled(entry.text_of("id"@)) {
        None => Err(malformed("Search provider returned incomplete result data.")),
        Some(id) => Ok(
            SongView {
                id: "youtube:"@ + id,
                title: match filled(entry.text_of("title"@)) {
                    Some(title) => title,
                    None => id,
                },
                channel_name: match channel_of(entry) {
                    Some(name) => name,
                    None => "Unknown channel"@,
                },
                duration_ms: duration_of(entry),
                source_url: address_of(entry, id),
            },
        ),
    }
}

/// The song of a single video.
pub open spec fn video_song(entry: JsonView) -> Result<SongView, FailureView> {
    match filled(entry.text_of("id"@)) {
        None => Err(malformed("YouTube URL resolution returned incomplete result data.")),
        Some(id) => if !crate::youtube::video_id(id) {
            Err(malformed("YouTube URL resolution returned incomplete result data."))
        } else {
            match filled(entry.text_of("title"@)) {
                None => Err(malformed("YouTube URL resolution did not return a title.")),
                Some(title) => match channel_of(entry) {
                    None => Err(malformed("YouTube URL resolution did not return a channel name.")),
                    Some(channel_name) => if duration_of(entry) == 0 {
                        Err(malformed("YouTube URL resolution did not return a duration."))
                    } else {
                        Ok(
                            SongView {
                                id: "youtube:"@ + id,
                                title,
                                channel_name,
                                duration_ms: duration_of(entry),
                                source_url: crate::youtube::watch_url(id),
                            },
                        )
                    },
                },
            }
        },
    }
}

/// The contents of a list of songs.
pub open spec fn song_views(songs: Seq<Song>) -> Seq<SongView> {
    songs.map_values(|song: Song| song@)
}

/// The songs of a search, or the first failure among its entries.
pub open spec fn entry_songs(entries: Seq<JsonView>) -> Result<Seq<SongView>, FailureView>
    decreases entries.len(),
{
    if entries.len() == 0 {
        Ok(Seq::empty())
    } else {
        match entry_songs(entries.drop_last()) {
            Err(failure) => Err(failure),
            Ok(songs) => match entry_song(entries.last()) {
                Err(failure) => Err(failure),
                Ok(song) => Ok(songs.push(song)),
            },
        }
    }
}

/// What a search has found.
pub open spec fn search_songs(root: JsonView) -> Result<Seq<SongView>, FailureView> {
    match root.member("entries"@) {
        Some(JsonView::Array(entries)) => entry_songs(entries),
        _ => Err(malformed("yt-dlp search response did not contain an entries array")),
    }
}

/// The songs of those entries that can be read.
pub open spec fn readable_songs(entries: Seq<JsonView>) -> Seq<SongView>
    decreases entries.len(),
{
    if entries.len() == 0 {
        Seq::empty()
    } else {
        match entry_song(entries.last()) {
            Ok(song) => readable_songs(entries.drop_last()).push(song),
            Err(_) => readable_songs(entries.drop_last()),
        }
    }
}

/// What a resolved YouTube URL stands for.
#[derive(Debug, PartialEq, Eq)]
pub struct YoutubeImportResolution {
    pub canonical_url: String,
    pub songs: Vec<Song>,
    pub total_count: u64,
    pub failed_count: u64,
}

/// The contents of a [`YoutubeImportResolution`].
pub struct ResolutionView {
    pub canonical_url: Seq<char>,
    pub songs: Seq<SongView>,
    pub total_count: u64,
    pub failed_count: u64,
}

impl View for YoutubeImportResolution {
    type V = ResolutionView;

    open spec fn view(&self) -> ResolutionView {
        ResolutionView {
            canonical_url: self.canonical_url@,
            songs: song_views(self.songs@),
            total_count: self.total_count,
            failed_count: self.failed_count,
        }
    }
}

/// The number of entries that a playlist claims to have, or has.
pub open spec fn claimed_count(root: JsonView, entries: Seq<JsonView>) -> u64 {
    match root.member("playlist_count"@) {
        Some(JsonView::Number(number)) => match number.whole {
            Some(count) => count,
            None => entries.len() as u64,
        },
        _ => entries.len() as u64,
    }
}

/// What a URL was resolved to: the readable songs of a playlist, or one video.
pub open spec fn import_resolution(root: JsonView, canonical_url: Seq<char>) -> Result<
    ResolutionView,
    FailureView,
> {
    match root.member("entries"@) {
        Some(JsonView::Array(entries)) => {
            let songs = readable_songs(entries);
            let total_count = claimed_count(root, entries);
            if songs.len() == 0 {
                Err(
                    crate::youtube::failure_view(
                        "yt_dlp_failed",
                        "The backend failed to resolve this YouTube playlist.",
                    ),
                )
            } else {
                Ok(
                    ResolutionView {
                        canonical_url,
                        songs,
                        total_count,
                        failed_count: if total_count >= songs.len() {
                            (total_count - songs.len()) as u64
                        } else {
                            0
                        },
                    },
                )
            }
        },
        _ => match video_song(root) {
            Ok(song) => Ok(
                ResolutionView {
                    canonical_url,
                    songs: seq![song],
                    total_count: 1,
                    failed_count: 0,
                },
            ),
            Err(failure) => Err(failure),
        },
    }
}

/// Whether a result has the given contents.
pub open spec fn song_result(
    result: Result<Song, LocalSearchFailure>,
    expected: Result<SongView, FailureView>,
) -> bool {
    match result {
        Ok(song) => expected == Ok::<SongView, FailureView>(song@),
        Err(failure) => expected == Err::<SongView, FailureView>(failure@),
    }
}

/// Whether a result has the given contents.
pub open spec fn songs_result(
    result: Result<Vec<Song>, LocalSearchFailure>,
    expected: Result<Seq<SongView>, FailureView>,
) -> bool {
    match result {
        Ok(songs) => expected == Ok::<Seq<SongView>, FailureView>(song_views(songs@)),
        Err(failure) => expected == Err::<Seq<SongView>, FailureView>(failure@),
    }
}

/// Whether a result has the given contents.
pub open spec fn resolution_result(
    result: Result<YoutubeImportResolution, LocalSearchFailure>,
    expected: Result<ResolutionView, FailureView>,
) -> bool {
    match result {
        Ok(resolution) => expected == Ok::<ResolutionView, FailureView>(resolution@),
        Err(failure) => expected == Err::<ResolutionView, FailureView>(failure@),
    }
}

fn malformed_failure(message: &str) -> (failure: LocalSearchFailure)
    ensures
        failure@ == malformed(message),
{
    LocalSearchFailure::new("yt_dlp_invalid_response", message)
}

/// The text of a member, where it is a string and not empty.
fn filled_text<'a>(entry: &'a Json, name: &str) -> (text: Option<&'a str>)
    ensures
        match text {
            Some(text) => filled(entry@.text_of(name@)) == Some(text@),
            None => filled(entry@.text_of(name@)) is None,
        },
{
    match entry.text_of(name) {
        Some(text) => if text.is_empty() {
            None
        } else {
            Some(text)
        },
        None => None,
    }
}

fn channel_name(entry: &Json) -> (name: Option<&str>)
    ensures
        match name {
            Some(name) => channel_of(entry@) == Some(name@),
            None => channel_of(entry@) is None,
        },
{
    if entry.get("channel").is_some() {
        filled_text(entry, "channel")
    } else {
        filled_text(entry, "uploader")
    }
}

/// Computes [`duration_of`].
pub fn duration_ms(entry: &Json) -> (millis: u64)
    ensures
        millis == duration_of(entry@),
{
    match entry.get("duration") {
        Some(Json::Number(number)) => match number.double_bits {
            Some(bits) => crate::seconds::seconds_to_millis(bits),
            None => 0,
        },
        _ => 0,
    }
}

fn youtube_id(id: &str) -> (r: String)
    ensures
        r@ == "youtube:"@ + id@,
{
    let mut r = "youtube:".to_owned();
    r.append(id);
    r
}

/// The song of a search result.
pub fn song_from_yt_dlp_entry(entry: &Json) -> (result: Result<Song, LocalSearchFailure>)
    ensures
        song_result(result, entry_song(entry@)),
{
    let id = match filled_text(entry, "id") {
        Some(id) => id,
        None => return Err(malformed_failure("Search provider returned incomplete result data.")),
    };
    let title = match filled_text(entry, "title") {
        Some(title) => title,
        None => id,
    };
    let channel = match channel_name(entry) {
        Some(name) => name,
        None => "Unknown channel",
    };
    let own_url = match entry.text_of("url") {
        Some(url) => if crate::text::starts_with(url, "http://") || crate::text::starts_with(
            url,
            "https://",
        ) {
            Some(url)
        } else {
            None
        },
        None => None,
    };
    let source_url = match own_url {
        Some(url) => url.to_owned(),
        None => {
            let mut url = "https://www.youtube.com/watch?v=".to_owned();
            url.append(id);
            url
        },
    };
    Ok(
        Song {
            id: youtube_id(id),
            title: title.to_owned(),
            channel_name: channel.to_owned(),
            duration_ms: duration_ms(entry),
            source_url,
        },
    )
}

/// The song of a single video.
pub fn song_from_yt_dlp_video(entry: &Json) -> (result: Result<Song, LocalSearchFailure>)
    ensures
        song_result(result, video_song(entry@)),
{
    let id = match filled_text(entry, "id") {
        Some(id) => id,
        None => return Err(
            malformed_failure("YouTube URL resolution returned incomplete result data."),
        ),
    };
    if !valid_video_id(id) {
        return Err(malformed_failure("YouTube URL resolution returned incomplete result data."));
    }
    let title = match filled_text(entry, "title") {
        Some(title) => title,
        None => return Err(malformed_failure("YouTube URL resolution did not return a title.")),
    };
    let channel = match channel_name(entry) {
        Some(name) => name,
        None => return Err(
            malformed_failure("YouTube URL resolution did not return a channel name."),
        ),
    };
    let millis = duration_ms(entry);
    if millis == 0 {
        return Err(malformed_failure("YouTube URL resolution did not return a duration."));
    }
    Ok(
        Song {
            id: youtube_id(id),
            title: title.to_owned(),
            channel_name: channel.to_owned(),
            duration_ms: millis,
            source_url: canonical_youtube_watch_url(id),
        },
    )
}

proof fn lemma_entry_songs_stop(entries: Seq<JsonView>, n: int, failure: FailureView)
    requires
        0 <= n <= entries.len(),
        entry_songs(entries.take(n)) == Err::<Seq<SongView>, FailureView>(failure),
    ensures
        entry_songs(entries) == Err::<Seq<SongView>, FailureView>(failure),
    decreases entries.len() - n,
{
    if n < entries.len() {
        assert(entries.take(n + 1).drop_last() =~= entries.take(n));
        lemma_entry_songs_stop(entries, n + 1, failure);
    } else {
        assert(entries.take(n) =~= entries);
    }
}

/// What a search has found, read from the provider's document.
pub fn songs_from_search(root: &Json) -> (result: Result<Vec<Song>, LocalSearchFailure>)
    ensures
        songs_result(result, search_songs(root@)),
{
    let entries = match root.get("entries") {
        Some(Json::Array(items)) => items,
        _ => return Err(
            malformed_failure("yt-dlp search response did not contain an entries array"),
        ),
    };
    let ghost all = root@.member("entries"@)->0->Array_0;
    let mut songs: Vec<Song> = Vec::new();
    let mut i: usize = 0;
    assert(all.take(0) =~= Seq::empty());
    assert(song_views(songs@) =~= Seq::empty());
    while i < entries.len()
        invariant
            i <= entries@.len(),
            all.len() == entries@.len(),
            forall|k: int| 0 <= k < all.len() ==> #[trigger] all[k] == entries@[k]@,
            search_songs(root@) == entry_songs(all),
            entry_songs(all.take(i as int)) == Ok::<Seq<SongView>, FailureView>(
                song_views(songs@),
            ),
        decreases entries@.len() - i,
    {
        let ghost upto = all.take(i + 1);
        assert(upto.drop_last() =~= all.take(i as int));
        assert(upto.last() == all[i as int]);
        match song_from_yt_dlp_entry(&entries[i]) {
            Ok(song) => {
                let ghost before = songs@;
                songs.push(song);
                assert(song_views(songs@) =~= song_views(before).push(song@));
            },
            Err(failure) => {
                proof {
                    lemma_entry_songs_stop(all, i + 1, failure@);
                }
                return Err(failure);
            },
        }
        i += 1;
    }
    assert(all.take(i as int) =~= all);
    Ok(songs)
}

/// What a URL was resolved to, read from the provider's document.
pub fn resolution_from_import(root: &Json, canonical_url: &str) -> (result: Result<
    YoutubeImportResolution,
    LocalSearchFailure,
>)
    ensures
        resolution_result(result, import_resolution(root@, canonical_url@)),
{
    match root.get("entries") {
        Some(Json::Array(entries)) => {
            let ghost all = root@.member("entries"@)->0->Array_0;
            let count = match root.get("playlist_count") {
                Some(Json::Number(number)) => match number.whole {
                    Some(count) => count,
                    None => entries.len() as u64,
                },
                _ => entries.len() as u64,
            };
            let mut songs: Vec<Song> = Vec::new();
            let mut i: usize = 0;
            assert(all.take(0) =~= Seq::empty());
            assert(song_views(songs@) =~= Seq::empty());
            while i < entries.len()
                invariant
                    i <= entries@.len(),
                    all.len() == entries@.len(),
                    forall|k: int| 0 <= k < all.len() ==> #[trigger] all[k] == entries@[k]@,
                    readable_songs(all.take(i as int)) == song_views(songs@),
                decreases entries@.len() - i,
            {
                let ghost upto = all.take(i + 1);
                assert(upto.drop_last() =~= all.take(i as int));
                assert(upto.last() == all[i as int]);
                match song_from_yt_dlp_entry(&entries[i]) {
                    Ok(song) => {
                        let ghost before = songs@;
                        songs.push(song);
                        assert(song_views(songs@) =~= song_views(before).push(song@));
                    },
                    Err(_) => {},
                }
                i += 1;
            }
            assert(all.take(i as int) =~= all);
            assert(song_views(songs@).len() == songs@.len());
            if songs.is_empty() {
                return Err(
                    LocalSearchFailure::new(
                        "yt_dlp_failed",
                        "The backend failed to resolve this YouTube playlist.",
                    ),
                );
            }
            let found = songs.len() as u64;
            Ok(
                YoutubeImportResolution {
                    canonical_url: canonical_url.to_owned(),
                    songs,
                    total_count: count,
                    failed_count: count.saturating_sub(found),
                },
            )
        },
        _ => match song_from_yt_dlp_video(root) {
            Ok(song) => {
                let mut songs: Vec<Song> = Vec::new();
                songs.push(song);
                assert(song_views(songs@) =~= seq![song@]);
                Ok(
                    YoutubeImportResolution {
                        canonical_url: canonical_url.to_owned(),
                        songs,
                        total_count: 1,
                        failed_count: 0,
                    },
                )
            },
            Err(failure) => Err(failure),
        },
    }
}

/// Reads the output of a search.
pub fn parse_yt_dlp_search_output(payload: &[u8]) -> (result: Result<
    Vec<Song>,
    LocalSearchFailure,
>)
    ensures
        match crate::json::json_document(payload@) {
            Some(root) => songs_result(result, search_songs(root)),
            None => songs_result(result, Err(unreadable())),
        },
{
    match crate::json::parse_json(payload) {
        Some(root) => songs_from_search(&root),
        None => Err(
            LocalSearchFailure::new(
                "yt_dlp_invalid_json",
                "Search provider returned unreadable data.",
            ),
        ),
    }
}

/// Reads the output of a resolution.
pub fn parse_yt_dlp_youtube_output(payload: &[u8], canonical_url: &str) -> (result: Result<
    YoutubeImportResolution,
    LocalSearchFailure,
>)
    ensures
        match crate::json::json_document(payload@) {
            Some(root) => resolution_result(result, import_resolution(root, canonical_url@)),
            None => resolution_result(result, Err(unreadable())),
        },
{
    match crate::json::parse_json(payload) {
        Some(root) => resolution_from_import(&root, canonical_url),
        None => Err(
            LocalSearchFailure::new(
                "yt_dlp_invalid_json",
                "Search provider returned unreadable data.",
            ),
        ),
    }
}

// ---------------------------------------------------------------------------
// Running the provider
// ---------------------------------------------------------------------------

pub const SEARCH_RESULT_LIMIT: u64 = 5;

/// Why yt-dlp could not be run.
#[derive(Debug, Clone, Copy, PartialEq, Eq, Structural)]
pub enum SpawnFault {
    Missing,
    Other,
}

/// What became of a run of yt-dlp.
#[derive(Debug, PartialEq, Eq)]
pub enum ProviderRun {
    NotStarted(SpawnFault),
    Failed,
    Finished { stdout: Vec<u8> },
}

/// The code of a fault.
pub open spec fn fault_code(fault: SpawnFault) -> Seq<char> {
    match fault {
        SpawnFault::Missing => "yt_dlp_missing"@,
        SpawnFault::Other => "yt_dlp_spawn_failed"@,
    }
}

/// Computes [`fault_code`].
pub fn spawn_fault_code(fault: SpawnFault) -> (code: &'static str)
    ensures
        code@ == fault_code(fault),
{
    match fault {
        SpawnFault::Missing => "yt_dlp_missing",
        SpawnFault::Other => "yt_dlp_spawn_failed",
    }
}

/// The failure of a search for which yt-dlp could not be run.
pub fn map_search_spawn_error(fault: SpawnFault) -> (failure: LocalSearchFailure)
    ensures
        failure@ == (FailureView {
            code: fault_code(fault),
            message: "Search provider is unavailable on this backend."@,
        }),
{
    LocalSearchFailure::new(
        spawn_fault_code(fault),
        "Search provider is unavailable on this backend.",
    )
}

/// The failure of an import for which yt-dlp could not be run.
pub fn map_youtube_import_spawn_error(fault: SpawnFault) -> (failure: LocalSearchFailure)
    ensures
        failure@ == (FailureView {
            code: fault_code(fault),
            message: "YouTube URL resolution is unavailable on this backend."@,
        }),
{
    LocalSearchFailure::new(
        spawn_fault_code(fault),
        "YouTube URL resolution is unavailable on this backend.",
    )
}

/// The contents of a list of texts.
pub open spec fn text_views(texts: Seq<String>) -> Seq<Seq<char>> {
    texts.map_values(|text: String| text@)
}

/// The arguments with which yt-dlp searches for a query.
pub open spec fn asks_for(query: Seq<char>) -> Seq<Seq<char>> {
    seq![
        "--dump-single-json"@,
        "--flat-playlist"@,
        "--no-warnings"@,
        "--quiet"@,
        "--skip-download"@,
        "ytsearch"@ + crate::text::decimal(SEARCH_RESULT_LIMIT as nat) + ":"@ + query,
    ]
}

/// Computes [`asks_for`].
pub fn search_arguments(query: &str) -> (arguments: Vec<String>)
    ensures
        text_views(arguments@) == asks_for(query@),
{
    let mut term = "ytsearch".to_owned();
    let limit = crate::text::format_decimal(SEARCH_RESULT_LIMIT);
    term.append(limit.as_str());
    term.append(":");
    term.append(query);
    let mut arguments: Vec<String> = Vec::new();
    arguments.push("--dump-single-json".to_owned());
    arguments.push("--flat-playlist".to_owned());
    arguments.push("--no-warnings".to_owned());
    arguments.push("--quiet".to_owned());
    arguments.push("--skip-download".to_owned());
    arguments.push(term);
    assert(text_views(arguments@) =~= seq![
        "--dump-single-json"@,
        "--flat-playlist"@,
        "--no-warnings"@,
        "--quiet"@,
        "--skip-download"@,
        term@,
    ]);
    arguments
}

/// The arguments with which yt-dlp resolves a URL.
pub open spec fn resolves(canonical_url: Seq<char>) -> Seq<Seq<char>> {
    seq![
        "--dump-single-json"@,
        "--no-warnings"@,
        "--quiet"@,
        "--skip-download"@,
        canonical_url,
    ]
}

/// Computes [`resolves`].
pub fn import_arguments(canonical_url: &str) -> (arguments: Vec<String>)
    ensures
        text_views(arguments@) == resolves(canonical_url@),
{
    let mut arguments: Vec<String> = Vec::new();
    arguments.push("--dump-single-json".to_owned());
    arguments.push("--no-warnings".to_owned());
    arguments.push("--quiet".to_owned());
    arguments.push("--skip-download".to_owned());
    arguments.push(canonical_url.to_owned());
    assert(text_views(arguments@) =~= seq![
        "--dump-single-json"@,
        "--no-warnings"@,
        "--quiet"@,
        "--skip-download"@,
        canonical_url@,
    ]);
    arguments
}

/// Whether `result` is what a search has come to, after yt-dlp was run for it.
pub open spec fn search_came_to(
    run: ProviderRun,
    result: Result<Vec<Song>, LocalSearchFailure>,
) -> bool {
    match run {
        ProviderRun::NotStarted(fault) => songs_result(
            result,
            Err(
                FailureView {
                    code: fault_code(fault),
                    message: "Search provider is unavailable on this backend."@,
                },
            ),
        ),
        ProviderRun::Failed => songs_result(
            result,
            Err(
                crate::youtube::failure_view(
                    "yt_dlp_failed",
                    "Search provider failed to return results.",
                ),
            ),
        ),
        ProviderRun::Finished { stdout } => match crate::json::json_document(stdout@) {
            Some(root) => songs_result(result, search_songs(root)),
            None => songs_result(result, Err(unreadable())),
        },
    }
}

/// What a search has come to, after yt-dlp was run for it.
pub fn search_outcome(run: &ProviderRun) -> (result: Result<Vec<Song>, LocalSearchFailure>)
    ensures
        search_came_to(*run, result),
{
    match run {
        ProviderRun::NotStarted(fault) => Err(map_search_spawn_error(*fault)),
        ProviderRun::Failed => Err(
            LocalSearchFailure::new("yt_dlp_failed", "Search provider failed to return results."),
        ),
        ProviderRun::Finished { stdout } => parse_yt_dlp_search_output(stdout.as_slice()),
    }
}

/// Whether `result` is what an import has come to, after yt-dlp was run for its
/// canonical URL.
pub open spec fn import_came_to(
    run: ProviderRun,
    canonical_url: Seq<char>,
    result: Result<YoutubeImportResolution, LocalSearchFailure>,
) -> bool {
    match run {
        ProviderRun::NotStarted(fault) => resolution_result(
            result,
            Err(
                FailureView {
                    code: fault_code(fault),
                    message: "YouTube URL resolution is unavailable on this backend."@,
                },
            ),
        ),
        ProviderRun::Failed => resolution_result(
            result,
            Err(
                crate::youtube::failure_view(
                    "yt_dlp_failed",
                    "YouTube URL resolution failed to return metadata.",
                ),
            ),
        ),
        ProviderRun::Finished { stdout } => match crate::json::json_document(stdout@) {
            Some(root) => resolution_result(result, import_resolution(root, canonical_url)),
            None => resolution_result(result, Err(unreadable())),
        },
    }
}

/// What an import has come to, after yt-dlp was run for its canonical URL.
pub fn import_outcome(run: &ProviderRun, canonical_url: &str) -> (result: Result<
    YoutubeImportResolution,
    LocalSearchFailure,
>)
    ensures
        import_came_to(*run, canonical_url@, result),
{
    match run {
        ProviderRun::NotStarted(fault) => Err(map_youtube_import_spawn_error(*fault)),
        ProviderRun::Failed => Err(
            LocalSearchFailure::new(
                "yt_dlp_failed",
                "YouTube URL resolution failed to return metadata.",
            ),
        ),
        ProviderRun::Finished { stdout } => parse_yt_dlp_youtube_output(
            stdout.as_slice(),
            canonical_url,
        ),
    }
}

// ---------------------------------------------------------------------------
// The runtime
// ---------------------------------------------------------------------------

/// A search that waits for the provider.
#[derive(Debug, PartialEq, Eq)]
pub struct PendingSearchJob {
    pub job_id: String,
    pub query: String,
}

/// An import that waits for the provider.
#[derive(Debug, PartialEq, Eq)]
pub struct PendingYoutubeImportJob {
    pub job_id: String,
    pub url: String,
}

/// The jobs that wait and the answers that are prepared.
pub struct LocalSearchRuntime {
    pending: VecDeque<PendingSearchJob>,
    pending_youtube_imports: VecDeque<PendingYoutubeImportJob>,
    fixtures: TextMap<Vec<Song>>,
    failures: TextMap<LocalSearchFailure>,
}

/// The contents of a [`LocalSearchRuntime`]: job ids with queries, job ids with
/// URLs, and the prepared answers by normalized query.
pub struct SearchRuntimeView {
    pub pending: Seq<(Seq<char>, Seq<char>)>,
    pub pending_imports: Seq<(Seq<char>, Seq<char>)>,
    pub fixtures: Map<Seq<char>, Vec<Song>>,
    pub failures: Map<Seq<char>, LocalSearchFailure>,
}

/// Job ids with queries.
pub open spec fn search_pairs(jobs: Seq<PendingSearchJob>) -> Seq<(Seq<char>, Seq<char>)> {
    jobs.map_values(|job: PendingSearchJob| (job.job_id@, job.query@))
}

/// Job ids with URLs.
pub open spec fn import_pairs(jobs: Seq<PendingYoutubeImportJob>) -> Seq<(Seq<char>, Seq<char>)> {
    jobs.map_values(|job: PendingYoutubeImportJob| (job.job_id@, job.url@))
}

impl View for LocalSearchRuntime {
    type V = SearchRuntimeView;

    closed spec fn view(&self) -> SearchRuntimeView {
        SearchRuntimeView {
            pending: search_pairs(self.pending@),
            pending_imports: import_pairs(self.pending_youtube_imports@),
            fixtures: self.fixtures@,
            failures: self.failures@,
        }
    }
}

/// The form in which queries are compared.
pub open spec fn normalized(query: Seq<char>) -> Seq<char> {
    crate::text::unicode_lower(crate::text::trimmed(query))
}

/// A query in the form in which queries are compared.
fn normalize_query(query: &str) -> (key: String)
    ensures
        key@ == normalized(query@),
{
    let query = crate::text::trim(query);
    crate::text::to_unicode_lower(query.as_str())
}

impl SearchRuntimeView {
    /// The failure prepared for a query.
    pub open spec fn known_failure(self, query: Seq<char>) -> Option<LocalSearchFailure> {
        let key = normalized(query);
        if self.failures.contains_key(key) {
            Some(self.failures[key])
        } else {
            None
        }
    }

    /// The songs prepared for a query. A prepared failure comes before them.
    pub open spec fn known_songs(self, query: Seq<char>) -> Option<Vec<Song>> {
        let key = normalized(query);
        if !self.failures.contains_key(key) && self.fixtures.contains_key(key) {
            Some(self.fixtures[key])
        } else {
            None
        }
    }

    /// Whether `plan` answers a search.
    pub open spec fn plans(self, query: Seq<char>, plan: SearchPlan) -> bool {
        match plan {
            SearchPlan::Answered(Err(failure)) => self.known_failure(query) == Some(failure),
            SearchPlan::Answered(Ok(songs)) => self.known_songs(query) is Some && songs@
                == self.known_songs(query)->0@,
            SearchPlan::AskProvider { query: asked } => {
                &&& self.known_failure(query) is None
                &&& self.known_songs(query) is None
                &&& asked@ == crate::text::trimmed(query)
            },
        }
    }

    /// Whether `plan` answers an import.
    pub open spec fn plans_import(self, url: Seq<char>, plan: ImportPlan) -> bool {
        match self.known_failure(url) {
            Some(failure) => plan == ImportPlan::Answered(Err(failure)),
            None => match self.known_songs(url) {
                Some(songs) => {
                    &&& plan matches ImportPlan::Answered(Ok(resolution))
                    &&& resolution.canonical_url@ == crate::text::trimmed(url)
                    &&& resolution.songs@ == songs@
                    &&& resolution.total_count == songs@.len()
                    &&& resolution.failed_count == 0
                },
                None => match crate::youtube::canonical_url(crate::text::trimmed(url)) {
                    Ok(canonical) => plan matches ImportPlan::AskProvider { canonical_url }
                        && canonical_url@ == canonical,
                    Err(failure) => plan matches ImportPlan::Answered(Err(e)) && e@ == failure,
                },
            },
        }
    }

    /// With one more search that waits.
    pub open spec fn with_search(self, job_id: Seq<char>, query: Seq<char>) -> Self {
        SearchRuntimeView { pending: self.pending.push((job_id, query)), ..self }
    }

    /// With one more import that waits.
    pub open spec fn with_import(self, job_id: Seq<char>, url: Seq<char>) -> Self {
        SearchRuntimeView { pending_imports: self.pending_imports.push((job_id, url)), ..self }
    }
}

/// What a prepared answer, or the lack of one, makes of an import.
pub enum ImportPlan {
    Answered(Result<YoutubeImportResolution, LocalSearchFailure>),
    AskProvider { canonical_url: String },
}

/// What a prepared answer, or the lack of one, makes of a search.
pub enum SearchPlan {
    Answered(Result<Vec<Song>, LocalSearchFailure>),
    AskProvider { query: String },
}

impl Default for LocalSearchRuntime {
    /// A runtime without jobs and prepared answers.
    fn default() -> (runtime: Self)
        ensures
            runtime@.pending.len() == 0,
            runtime@.pending_imports.len() == 0,
            runtime@.fixtures == Map::<Seq<char>, Vec<Song>>::empty(),
            runtime@.failures == Map::<Seq<char>, LocalSearchFailure>::empty(),
    {
        LocalSearchRuntime {
            pending: VecDeque::new(),
            pending_youtube_imports: VecDeque::new(),
            fixtures: TextMap::new(),
            failures: TextMap::new(),
        }
    }
}

impl LocalSearchRuntime {
    /// Takes all waiting searches out, the longest-waiting first.
    pub fn drain_pending(&mut self) -> (jobs: Vec<PendingSearchJob>)
        ensures
            search_pairs(jobs@) == old(self)@.pending,
            final(self)@ == (SearchRuntimeView { pending: Seq::empty(), ..old(self)@ }),
    {
        let mut jobs: Vec<PendingSearchJob> = Vec::new();
        let ghost all = self.pending@;
        loop
            invariant
                jobs@ + self.pending@ == all,
                self.pending_youtube_imports == old(self).pending_youtube_imports,
                self.fixtures == old(self).fixtures,
                self.failures == old(self).failures,
            ensures
                jobs@ == all,
                self.pending@.len() == 0,
            decreases self.pending@.len(),
        {
            match self.pending.pop_front() {
                Some(job) => jobs.push(job),
                None => break,
            }
        }
        assert(search_pairs(self.pending@) =~= Seq::empty());
        jobs
    }

    /// Takes all waiting imports out, the longest-waiting first.
    pub fn drain_pending_youtube_imports(&mut self) -> (jobs: Vec<PendingYoutubeImportJob>)
        ensures
            import_pairs(jobs@) == old(self)@.pending_imports,
            final(self)@ == (SearchRuntimeView { pending_imports: Seq::empty(), ..old(self)@ }),
    {
        let mut jobs: Vec<PendingYoutubeImportJob> = Vec::new();
        let ghost all = self.pending_youtube_imports@;
        loop
            invariant
                jobs@ + self.pending_youtube_imports@ == all,
                self.pending == old(self).pending,
                self.fixtures == old(self).fixtures,
                self.failures == old(self).failures,
            ensures
                jobs@ == all,
                self.pending_youtube_imports@.len() == 0,
            decreases self.pending_youtube_imports@.len(),
        {
            match self.pending_youtube_imports.pop_front() {
                Some(job) => jobs.push(job),
                None => break,
            }
        }
        assert(import_pairs(self.pending_youtube_imports@) =~= Seq::empty());
        jobs
    }

    /// Prepares the songs for a query.
    pub fn set_fixture(&mut self, query: &str, results: Vec<Song>)
        ensures
            final(self)@ == (SearchRuntimeView {
                fixtures: old(self)@.fixtures.insert(normalized(query@), results),
                ..old(self)@
            }),
    {
        self.fixtures.insert(normalize_query(query), results);
    }

    /// Prepares a failure for a query.
    pub fn set_failure(&mut self, query: &str, code: &str, message: &str)
        ensures
            final(self)@.failures.contains_key(normalized(query@)),
            final(self)@.failures[normalized(query@)]@ == crate::youtube::failure_view(
                code,
                message,
            ),
            final(self)@ == (SearchRuntimeView {
                failures: old(self)@.failures.insert(
                    normalized(query@),
                    final(self)@.failures[normalized(query@)],
                ),
                ..old(self)@
            }),
    {
        self.failures.insert(normalize_query(query), LocalSearchFailure::new(code, message));
    }

    /// Answers a search from what is prepared, or says what to ask the provider.
    pub fn resolve(&self, query: &str) -> (plan: SearchPlan)
        ensures
            self@.plans(query@, plan),
    {
        let asked = crate::text::trim(query);
        proof {
            crate::text::trimming_is_idempotent(query@);
        }
        let key = normalize_query(asked.as_str());
        match self.failures.get(key.as_str()) {
            Some(failure) => return SearchPlan::Answered(Err(failure.clone())),
            None => {},
        }
        match self.fixtures.get(key.as_str()) {
            Some(songs) => return SearchPlan::Answered(Ok(clone_songs(songs))),
            None => {},
        }
        SearchPlan::AskProvider { query: asked }
    }

    /// Answers an import from what is prepared, or says which URL to ask the
    /// provider for. A URL that is not supported is refused.
    pub fn resolve_youtube_url(&self, url: &str) -> (plan: ImportPlan)
        ensures
            self@.plans_import(url@, plan),
    {
        let asked = crate::text::trim(url);
        proof {
            crate::text::trimming_is_idempotent(url@);
        }
        let key = normalize_query(asked.as_str());
        match self.failures.get(key.as_str()) {
            Some(failure) => return ImportPlan::Answered(Err(failure.clone())),
            None => {},
        }
        match self.fixtures.get(key.as_str()) {
            Some(songs) => {
                let total_count = songs.len() as u64;
                return ImportPlan::Answered(
                    Ok(
                        YoutubeImportResolution {
                            canonical_url: asked,
                            songs: clone_songs(songs),
                            total_count,
                            failed_count: 0,
                        },
                    ),
                );
            },
            None => {},
        }
        match crate::youtube::parse_supported_youtube_url(asked.as_str()) {
            Ok(resolved) => ImportPlan::AskProvider { canonical_url: resolved.canonical_url },
            Err(failure) => ImportPlan::Answered(Err(failure)),
        }
    }

    /// Lets a search wait for the provider.
    pub fn enqueue(&mut self, job_id: &str, query: &str)
        ensures
            final(self)@ == old(self)@.with_search(job_id@, query@),
    {
        let job = PendingSearchJob { job_id: job_id.to_owned(), query: query.to_owned() };
        let ghost before = self.pending@;
        self.pending.push_back(job);
        assert(search_pairs(self.pending@) =~= search_pairs(before).push((job_id@, query@)));
    }

    /// Lets an import wait for the provider.
    pub fn enqueue_youtube_import(&mut self, job_id: &str, url: &str)
        ensures
            final(self)@ == old(self)@.with_import(job_id@, url@),
    {
        let job = PendingYoutubeImportJob { job_id: job_id.to_owned(), url: url.to_owned() };
        let ghost before = self.pending_youtube_imports@;
        self.pending_youtube_imports.push_back(job);
        assert(import_pairs(self.pending_youtube_imports@) =~= import_pairs(before).push(
            (job_id@, url@),
        ));
    }
}

/// A search port that lets every search and every import wait in a runtime.
pub struct LocalSearchAdapter {
    runtime: LocalSearchRuntime,
}

impl View for LocalSearchAdapter {
    type V = SearchRuntimeView;

    closed spec fn view(&self) -> SearchRuntimeView {
        self.runtime@
    }
}

impl LocalSearchAdapter {
    pub fn new(runtime: LocalSearchRuntime) -> (adapter: Self)
        ensures
            adapter@ == runtime@,
    {
        LocalSearchAdapter { runtime }
    }

    /// The runtime in which the searches wait.
    pub fn runtime(&mut self) -> (runtime: &mut LocalSearchRuntime)
        ensures
            runtime@ == old(self)@,
            final(self)@ == final(runtime)@,
    {
        &mut self.runtime
    }
}

impl SearchPort for LocalSearchAdapter {
    /// The adapter accepts every search and lets it wait.
    open spec fn searches(
        before: Self,
        job_id: Seq<char>,
        query: Seq<char>,
        after: Self,
        reply: Result<(), PortError>,
    ) -> bool {
        &&& reply is Ok
        &&& after@ == before@.with_search(job_id, query)
    }

    fn start_search(&mut self, job_id: &str, query: &str) -> (reply: Result<(), PortError>) {
        self.runtime.enqueue(job_id, query);
        Ok(())
    }

    /// The adapter accepts every import and lets it wait.
    open spec fn imports(
        before: Self,
        job_id: Seq<char>,
        url: Seq<char>,
        after: Self,
        reply: Result<(), PortError>,
    ) -> bool {
        &&& reply is Ok
        &&& after@ == before@.with_import(job_id, url)
    }

    fn start_youtube_import(&mut self, job_id: &str, url: &str) -> (reply: Result<(), PortError>) {
        self.runtime.enqueue_youtube_import(job_id, url);
        Ok(())
    }
}

/// What was prepared for a query is found under every query that differs from it
/// only by white space around it and letter case, unless a failure was prepared.
pub proof fn prepared_songs_are_found(
    runtime: SearchRuntimeView,
    query: Seq<char>,
    songs: Vec<Song>,
    asked: Seq<char>,
)
    requires
        normalized(asked) == normalized(query),
        runtime.known_failure(query) is None,
    ensures
        (SearchRuntimeView {
            fixtures: runtime.fixtures.insert(normalized(query), songs),
            ..runtime
        }).known_songs(asked) == Some(songs),
{
}

} // verus!
