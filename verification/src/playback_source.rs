//! Where the audio of an item comes from: the streams of the video provider, the
//! addresses that it gave out a while ago, and what is reported when neither
//! works.

use vstd::prelude::*;

use crate::ports::PortError;
use crate::search::{spawn_fault_code, SpawnFault};
use crate::text_map::TextMap;
use crate::youtube::is_youtube_url;

verus! {

pub const YT_DLP_AUDIO_FORMAT: &'static str = "140/139/bestaudio[ext=m4a]/bestaudio[acodec^=mp4a]/bestaudio[ext=mp3]/bestaudio[acodec^=mp3]/best[ext=mp4]/best";

pub const YT_DLP_PROCESS_AUDIO_FORMAT: &'static str = "140/139";

/// How long a playback URL stays good, in milliseconds.
pub const PLAYBACK_URL_CACHE_TTL: u64 = 900000;

/// How many playback URLs are kept.
pub const PLAYBACK_URL_CACHE_LIMIT: usize = 64;

/// How many bytes of a stream are loaded before it plays.
pub const PLAYBACK_STREAM_PREFETCH_BYTES: u64 = 65536;

// ---------------------------------------------------------------------------
// Remembered addresses
// ---------------------------------------------------------------------------

/// A playback URL and the time at which it was resolved.
#[derive(Debug, PartialEq, Eq)]
pub struct ResolvedPlaybackUrl {
    pub playback_url: String,
    pub resolved_at_ms: u64,
}

impl Clone for ResolvedPlaybackUrl {
    fn clone(&self) -> (copy: Self)
        ensures
            copy == *self,
    {
        ResolvedPlaybackUrl {
            playback_url: self.playback_url.clone(),
            resolved_at_ms: self.resolved_at_ms,
        }
    }
}

/// Whether a URL is still good: it is not older than the limit.
pub open spec fn still_good(url: ResolvedPlaybackUrl, now_ms: u64) -> bool {
    now_ms - url.resolved_at_ms <= PLAYBACK_URL_CACHE_TTL
}

/// The URLs that are still good.
pub open spec fn good_urls(
    urls: Map<Seq<char>, ResolvedPlaybackUrl>,
    now_ms: u64,
) -> Map<Seq<char>, ResolvedPlaybackUrl> {
    urls.restrict(
        Set::new(|source: Seq<char>| urls.contains_key(source) && still_good(urls[source], now_ms)),
    )
}

/// Whether no URL is older than that of `source`.
pub open spec fn oldest(
    urls: Map<Seq<char>, ResolvedPlaybackUrl>,
    source: Seq<char>,
) -> bool {
    &&& urls.contains_key(source)
    &&& forall|other: Seq<char>| #[trigger]
        urls.contains_key(other) ==> urls[source].resolved_at_ms <= urls[other].resolved_at_ms
}

/// Whether `roomy` is `urls` with room for one more: where they are at the limit,
/// one of the oldest is gone.
pub open spec fn makes_room(
    urls: Map<Seq<char>, ResolvedPlaybackUrl>,
    roomy: Map<Seq<char>, ResolvedPlaybackUrl>,
) -> bool {
    if urls.dom().len() < PLAYBACK_URL_CACHE_LIMIT {
        roomy == urls
    } else {
        exists|source: Seq<char>| #[trigger] oldest(urls, source) && roomy == urls.remove(source)
    }
}

/// The playback URLs that were resolved, each under the address of its source.
pub struct PlaybackUrlCache {
    urls: TextMap<ResolvedPlaybackUrl>,
}

impl View for PlaybackUrlCache {
    type V = Map<Seq<char>, ResolvedPlaybackUrl>;

    closed spec fn view(&self) -> Map<Seq<char>, ResolvedPlaybackUrl> {
        self.urls@
    }
}

impl PlaybackUrlCache {
    /// A cache without URLs.
    pub fn new() -> (cache: Self)
        ensures
            cache@ == Map::<Seq<char>, ResolvedPlaybackUrl>::empty(),
    {
        PlaybackUrlCache { urls: TextMap::new() }
    }

    /// How many URLs the cache holds.
    pub fn len(&self) -> (len: usize)
        ensures
            self@.dom().finite(),
            len == self@.dom().len(),
    {
        self.urls.len()
    }

    /// Lets go of the URLs that are too old.
    pub fn prune(&mut self, now_ms: u64)
        ensures
            final(self)@ == good_urls(old(self)@, now_ms),
    {
        let mut kept: TextMap<ResolvedPlaybackUrl> = TextMap::new();
        let entries = self.urls.in_order();
        let ghost before = self.urls@;
        let count = entries.len();
        for i in 0..count
            invariant
                count == entries@.len(),
                crate::text_map::keys_ascend(entries@),
                forall|j: int|
                    0 <= j < entries@.len() ==> before.contains_key(#[trigger] entries@[j].0@)
                        && before[entries@[j].0@] == entries@[j].1,
                forall|key: Seq<char>| #[trigger]
                    kept@.contains_key(key) ==> before.contains_key(key) && kept@[key]
                        == before[key] && still_good(before[key], now_ms),
                forall|j: int|
                    0 <= j < i && still_good(entries@[j].1, now_ms) ==> kept@.contains_key(
                        #[trigger] entries@[j].0@,
                    ),
        {
            let entry = &entries[i];
            let age = now_ms.saturating_sub(entry.1.resolved_at_ms);
            let ghost earlier = kept@;
            assert(before.contains_key(entries@[i as int].0@));
            if age <= PLAYBACK_URL_CACHE_TTL {
                kept.insert(entry.0.clone(), entry.1.clone());
                assert forall|j: int|
                    0 <= j < i + 1 && still_good(
                        entries@[j].1,
                        now_ms,
                    ) implies kept@.contains_key(#[trigger] entries@[j].0@) by {
                    if j < i {
                        assert(earlier.contains_key(entries@[j].0@));
                    }
                }
            }
        }
        proof {
            assert forall|key: Seq<char>| good_urls(before, now_ms).contains_key(key) implies #[trigger]
            kept@.contains_key(key) by {
                assert(before.contains_key(key));
                let j = choose|j: int| crate::text_map::key_at(entries@, key, j);
                assert(before[entries@[j].0@] == entries@[j].1);
            }
            assert(kept@ =~= good_urls(before, now_ms));
        }
        self.urls = kept;
    }

    /// The URL for a source, if one is known that is still good. Older ones are
    /// let go of.
    pub fn cached(&mut self, source_url: &str, now_ms: u64) -> (playback_url: Option<String>)
        ensures
            final(self)@ == good_urls(old(self)@, now_ms),
            match playback_url {
                Some(url) => final(self)@.contains_key(source_url@) && url
                    == final(self)@[source_url@].playback_url,
                None => !final(self)@.contains_key(source_url@),
            },
    {
        self.prune(now_ms);
        match self.urls.get(source_url) {
            Some(known) => Some(known.playback_url.clone()),
            None => None,
        }
    }

    /// Takes one of the oldest URLs out, where the cache is at its limit.
    fn make_room(&mut self)
        ensures
            makes_room(old(self)@, final(self)@),
    {
        if self.len() < PLAYBACK_URL_CACHE_LIMIT {
            return;
        }
        let entries = self.urls.in_order();
        let count = entries.len();
        let ghost before = self.urls@;
        proof {
            if count == 0 {
                assert(before.dom() =~= Set::<Seq<char>>::empty());
            }
        }
        let mut best: usize = 0;
        for i in 1..count
            invariant
                count == entries@.len(),
                best < count,
                forall|j: int|
                    0 <= j < i ==> entries@[best as int].1.resolved_at_ms <= (
                    #[trigger] entries@[j]).1.resolved_at_ms,
        {
            if entries[i].1.resolved_at_ms < entries[best].1.resolved_at_ms {
                best = i;
            }
        }
        let source = entries[best].0.clone();
        proof {
            assert(before.contains_key(entries@[best as int].0@));
            assert forall|other: Seq<char>| #[trigger]
                before.contains_key(other) implies before[source@].resolved_at_ms
                <= before[other].resolved_at_ms by {
                let j = choose|j: int| crate::text_map::key_at(entries@, other, j);
                assert(before[entries@[j].0@] == entries@[j].1);
            }
            assert(oldest(before, source@));
        }
        self.urls.remove(source.as_str());
    }

    /// Remembers the URL of a source. The URLs that are too old are let go of,
    /// and one of the oldest where the cache is still at its limit.
    pub fn insert(&mut self, source_url: &str, playback_url: String, now_ms: u64)
        ensures
            exists|roomy: Map<Seq<char>, ResolvedPlaybackUrl>| #[trigger]
                makes_room(good_urls(old(self)@, now_ms), roomy) && final(self)@ == roomy.insert(
                    source_url@,
                    ResolvedPlaybackUrl { playback_url, resolved_at_ms: now_ms },
                ),
    {
        self.prune(now_ms);
        self.make_room();
        let ghost roomy = self@;
        assert(makes_room(good_urls(old(self)@, now_ms), roomy));
        self.urls.insert(
            source_url.to_owned(),
            ResolvedPlaybackUrl { playback_url, resolved_at_ms: now_ms },
        );
    }
}

/// A URL that was remembered is found for as long as it is good, and no longer,
/// whatever else the cache held.
pub proof fn a_stored_url_is_found_while_good(
    roomy: Map<Seq<char>, ResolvedPlaybackUrl>,
    source: Seq<char>,
    url: ResolvedPlaybackUrl,
    later_ms: u64,
)
    ensures
        good_urls(roomy.insert(source, url), later_ms).contains_key(source) <==> later_ms
            - url.resolved_at_ms <= PLAYBACK_URL_CACHE_TTL,
        later_ms - url.resolved_at_ms <= PLAYBACK_URL_CACHE_TTL ==> good_urls(
            roomy.insert(source, url),
            later_ms,
        )[source] == url,
{
}

/// The cache never holds more URLs than its limit.
pub proof fn the_cache_stays_bounded(
    urls: Map<Seq<char>, ResolvedPlaybackUrl>,
    roomy: Map<Seq<char>, ResolvedPlaybackUrl>,
    source: Seq<char>,
    url: ResolvedPlaybackUrl,
    now_ms: u64,
)
    requires
        urls.dom().finite(),
        urls.dom().len() <= PLAYBACK_URL_CACHE_LIMIT,
        makes_room(good_urls(urls, now_ms), roomy),
    ensures
        roomy.insert(source, url).dom().finite(),
        roomy.insert(source, url).dom().len() <= PLAYBACK_URL_CACHE_LIMIT,
{
    let good = good_urls(urls, now_ms);
    assert(good.dom().subset_of(urls.dom()));
    vstd::set_lib::lemma_len_subset(good.dom(), urls.dom());
}

// ---------------------------------------------------------------------------
// Asking yt-dlp
// ---------------------------------------------------------------------------

/// What became of a run of yt-dlp for a playback URL.
#[derive(Debug, PartialEq, Eq)]
pub enum UrlRun {
    NotStarted { fault: SpawnFault, detail: String },
    Failed { stderr: Vec<u8> },
    Finished { stdout: Vec<u8> },
}

/// The arguments with which yt-dlp resolves the playback URL of a source.
pub open spec fn asks_for_url(source: Seq<char>) -> Seq<Seq<char>> {
    seq![
        "--get-url"@,
        "--format"@,
        YT_DLP_AUDIO_FORMAT@,
        "--no-playlist"@,
        "--no-warnings"@,
        "--quiet"@,
        source,
    ]
}

/// Computes [`asks_for_url`].
pub fn playback_url_arguments(source_url: &str) -> (arguments: Vec<String>)
    ensures
        crate::search::text_views(arguments@) == asks_for_url(source_url@),
{
    let mut arguments: Vec<String> = Vec::new();
    arguments.push("--get-url".to_owned());
    arguments.push("--format".to_owned());
    arguments.push(YT_DLP_AUDIO_FORMAT.to_owned());
    arguments.push("--no-playlist".to_owned());
    arguments.push("--no-warnings".to_owned());
    arguments.push("--quiet".to_owned());
    arguments.push(source_url.to_owned());
    assert(crate::search::text_views(arguments@) =~= asks_for_url(source_url@));
    arguments
}

/// The first line of some output that is not blank, trimmed.
pub fn first_non_empty_line(stdout: &[u8]) -> (line: Option<String>)
    ensures
        crate::text::opt_view(line) == crate::text::first_text_line(
            crate::text::lossy_text(stdout@),
        ),
        vstd::utf8::valid_utf8(stdout@) ==> crate::text::opt_view(line)
            == crate::text::first_text_line(vstd::utf8::decode_utf8(stdout@)),
{
    let text = crate::text::read_lossy(stdout);
    crate::text::find_text_line(text.as_str())
}

fn text_after(head: &str, tail: &str) -> (text: String)
    ensures
        text@ == head@ + tail@,
{
    let mut text = head.to_owned();
    text.append(tail);
    text
}

/// Whether an error has a code and a message.
pub open spec fn port_error_is(error: PortError, code: Seq<char>, message: Seq<char>) -> bool {
    error.spec_code() == code && error.spec_message() == message
}

/// The error of a playback for which yt-dlp could not be run.
pub fn map_yt_dlp_spawn_error(fault: SpawnFault, detail: &str) -> (error: PortError)
    ensures
        port_error_is(
            error,
            crate::search::fault_code(fault),
            "yt-dlp is unavailable for playback: "@ + detail@,
        ),
{
    let message = text_after("yt-dlp is unavailable for playback: ", detail);
    PortError::new(spawn_fault_code(fault), message.as_str())
}

/// What yt-dlp said of a source that it could not resolve.
pub open spec fn resolve_complaint(stderr: Seq<char>) -> Seq<char> {
    let complaint = crate::text::trimmed(stderr);
    if complaint.len() == 0 {
        "yt-dlp did not return a playable audio stream URL"@
    } else {
        "yt-dlp failed to resolve a playable audio stream URL: "@ + complaint
    }
}

/// Whether `result` is what a run of yt-dlp has come to, where `said` is the text
/// of its output.
pub open spec fn url_outcome_is(
    result: Result<String, PortError>,
    run: UrlRun,
    said: Seq<char>,
) -> bool {
    match run {
        UrlRun::NotStarted { fault, detail } => result matches Err(error) && port_error_is(
            error,
            crate::search::fault_code(fault),
            "yt-dlp is unavailable for playback: "@ + detail@,
        ),
        UrlRun::Failed { .. } => result matches Err(error) && port_error_is(
            error,
            "audio_source_resolve_failed"@,
            resolve_complaint(said),
        ),
        UrlRun::Finished { .. } => match crate::text::first_text_line(said) {
            Some(line) => result matches Ok(url) && url@ == line,
            None => result matches Err(error) && port_error_is(
                error,
                "audio_source_resolve_failed"@,
                "yt-dlp did not return a playable audio stream URL"@,
            ),
        },
    }
}

/// The output of a run that counts: the errors of one that failed, the results of
/// one that finished.
pub open spec fn url_output(run: UrlRun) -> Seq<u8> {
    match run {
        UrlRun::NotStarted { .. } => Seq::empty(),
        UrlRun::Failed { stderr } => stderr@,
        UrlRun::Finished { stdout } => stdout@,
    }
}

/// The playback URL that a run of yt-dlp has come to, where `said` is the text of
/// its output.
pub fn url_from_output(run: &UrlRun, said: &str) -> (result: Result<String, PortError>)
    ensures
        url_outcome_is(result, *run, said@),
{
    match run {
        UrlRun::NotStarted { fault, detail } => Err(map_yt_dlp_spawn_error(*fault, detail.as_str())),
        UrlRun::Failed { .. } => {
            let complaint = crate::text::trim(said);
            if complaint.as_str().is_empty() {
                Err(
                    PortError::new(
                        "audio_source_resolve_failed",
                        "yt-dlp did not return a playable audio stream URL",
                    ),
                )
            } else {
                let message = text_after(
                    "yt-dlp failed to resolve a playable audio stream URL: ",
                    complaint.as_str(),
                );
                Err(PortError::new("audio_source_resolve_failed", message.as_str()))
            }
        },
        UrlRun::Finished { .. } => match crate::text::find_text_line(said) {
            Some(line) => Ok(line),
            None => Err(
                PortError::new(
                    "audio_source_resolve_failed",
                    "yt-dlp did not return a playable audio stream URL",
                ),
            ),
        },
    }
}

/// The playback URL that a run of yt-dlp has come to.
pub fn url_from_run(run: &UrlRun) -> (result: Result<String, PortError>)
    ensures
        match *run {
            UrlRun::NotStarted { .. } => url_outcome_is(result, *run, Seq::empty()),
            _ => url_outcome_is(result, *run, crate::text::lossy_text(url_output(*run))),
        },
        vstd::utf8::valid_utf8(url_output(*run)) && !(*run is NotStarted) ==> url_outcome_is(
            result,
            *run,
            vstd::utf8::decode_utf8(url_output(*run)),
        ),
{
    match run {
        UrlRun::NotStarted { .. } => url_from_output(run, ""),
        UrlRun::Failed { stderr } => {
            let said = crate::text::read_lossy(stderr.as_slice());
            url_from_output(run, said.as_str())
        },
        UrlRun::Finished { stdout } => {
            let said = crate::text::read_lossy(stdout.as_slice());
            url_from_output(run, said.as_str())
        },
    }
}

// ---------------------------------------------------------------------------
// Opening a stream
// ---------------------------------------------------------------------------

/// What is done next to open the audio of a source.
#[derive(Debug, PartialEq, Eq)]
pub enum OpenAction {
    /// Stream the output of yt-dlp itself.
    OpenProcess,
    /// Run yt-dlp for a playback URL.
    AskUrl,
    /// Stream from a URL.
    OpenHttp { playback_url: String },
    /// The stream is open.
    Play,
    /// Nothing could be opened.
    Fail { error: PortError },
}

/// What came of an action.
#[derive(Debug, PartialEq, Eq)]
pub enum OpenEvent {
    ProcessOpened,
    ProcessFailed,
    UrlRan { run: UrlRun },
    HttpOpened,
    HttpFailed { error: PortError },
}

/// Whether `action` is the first to open a source.
pub open spec fn opens_with(source: Seq<char>, action: OpenAction) -> bool {
    if crate::youtube::youtube_source(source) {
        action == OpenAction::OpenProcess
    } else {
        action matches OpenAction::OpenHttp { playback_url } && playback_url@ == source
    }
}

/// Begins to open the audio of a source: a video is streamed by yt-dlp, anything
/// else comes from its own address.
pub fn begin_open(source_url: &str) -> (action: OpenAction)
    ensures
        opens_with(source_url@, action),
{
    if is_youtube_url(source_url) {
        OpenAction::OpenProcess
    } else {
        OpenAction::OpenHttp { playback_url: source_url.to_owned() }
    }
}

/// The action that follows the answer of yt-dlp.
pub open spec fn after_url(action: OpenAction, result: Result<String, PortError>) -> bool {
    match result {
        Ok(url) => action == OpenAction::OpenHttp { playback_url: url },
        Err(error) => action == OpenAction::Fail { error },
    }
}

/// Whether `action` follows an event, where the remembered URLs go from `before`
/// to `after`.
pub open spec fn goes_on(
    before: Map<Seq<char>, ResolvedPlaybackUrl>,
    source: Seq<char>,
    event: OpenEvent,
    now_ms: u64,
    action: OpenAction,
    after: Map<Seq<char>, ResolvedPlaybackUrl>,
) -> bool {
    match event {
        OpenEvent::ProcessOpened | OpenEvent::HttpOpened => action == OpenAction::Play
            && after == before,
        OpenEvent::HttpFailed { error } => action == (OpenAction::Fail { error })
            && after == before,
        OpenEvent::ProcessFailed => {
            let good = good_urls(before, now_ms);
            &&& after == good
            &&& action == if good.contains_key(source) {
                OpenAction::OpenHttp { playback_url: good[source].playback_url }
            } else {
                OpenAction::AskUrl
            }
        },
        OpenEvent::UrlRan { run } => exists|result: Result<String, PortError>|
            {
                &&& #[trigger] after_url(action, result)
                &&& run is NotStarted ==> url_outcome_is(result, run, Seq::empty())
                &&& !(run is NotStarted) ==> url_outcome_is(
                    result,
                    run,
                    crate::text::lossy_text(url_output(run)),
                )
                &&& match result {
                    Ok(url) => exists|roomy: Map<Seq<char>, ResolvedPlaybackUrl>| #[trigger]
                        makes_room(good_urls(before, now_ms), roomy) && after
                            == roomy.insert(
                            source,
                            ResolvedPlaybackUrl { playback_url: url, resolved_at_ms: now_ms },
                        ),
                    Err(_) => after == before,
                }
            },
    }
}

/// Goes on to open the audio of a source. Where yt-dlp could not stream it, a URL
/// is taken that is known or that yt-dlp gives out, and remembered.
pub fn advance_open(
    cache: &mut PlaybackUrlCache,
    source_url: &str,
    event: OpenEvent,
    now_ms: u64,
) -> (action: OpenAction)
    ensures
        goes_on(old(cache)@, source_url@, event, now_ms, action, final(cache)@),
{
    match event {
        OpenEvent::ProcessOpened => OpenAction::Play,
        OpenEvent::HttpOpened => OpenAction::Play,
        OpenEvent::HttpFailed { error } => OpenAction::Fail { error },
        OpenEvent::ProcessFailed => match cache.cached(source_url, now_ms) {
            Some(playback_url) => OpenAction::OpenHttp { playback_url },
            None => OpenAction::AskUrl,
        },
        OpenEvent::UrlRan { run } => {
            let result = url_from_run(&run);
            let ghost answer = result;
            match result {
                Ok(url) => {
                    cache.insert(source_url, url.clone(), now_ms);
                    let action = OpenAction::OpenHttp { playback_url: url };
                    assert(after_url(action, answer));
                    action
                },
                Err(error) => {
                    let action = OpenAction::Fail { error };
                    assert(after_url(action, answer));
                    action
                },
            }
        },
    }
}

/// The only source of an [`OpenAction::AskUrl`] is a video whose stream failed
/// and whose URL is unknown, and yt-dlp is asked once: what follows its answer is
/// a stream from that URL or the failure.
pub proof fn yt_dlp_is_asked_once(action: OpenAction, result: Result<String, PortError>)
    requires
        after_url(action, result),
    ensures
        !(action is AskUrl),
        !(action is OpenProcess),
        action is Fail <==> result is Err,
{
}

/// A video is streamed by yt-dlp; everything else is streamed from its own
/// address.
pub proof fn a_video_is_streamed_by_yt_dlp(source: Seq<char>, action: OpenAction)
    requires
        opens_with(source, action),
    ensures
        crate::youtube::youtube_source(source) <==> action is OpenProcess,
        !crate::youtube::youtube_source(source) ==> (action matches OpenAction::OpenHttp {
            playback_url,
        } && playback_url@ == source),
{
}

/// A stream that is open is played; one that does not open fails with its error.
/// Neither changes what is remembered.
pub proof fn an_open_stream_is_played(
    before: Map<Seq<char>, ResolvedPlaybackUrl>,
    source: Seq<char>,
    event: OpenEvent,
    now_ms: u64,
    action: OpenAction,
    after: Map<Seq<char>, ResolvedPlaybackUrl>,
)
    requires
        goes_on(before, source, event, now_ms, action, after),
    ensures
        event is ProcessOpened || event is HttpOpened ==> action is Play && after == before,
        action is Play ==> event is ProcessOpened || event is HttpOpened,
        event matches OpenEvent::HttpFailed { error } ==> action == (OpenAction::Fail { error })
            && after == before,
        action is AskUrl ==> event is ProcessFailed,
        !(action is OpenProcess),
{
}

/// Where yt-dlp could not stream a video, the URL that was resolved for it in the
/// last fifteen minutes is streamed; without one yt-dlp is asked. The URLs that
/// are as fresh are kept as they are, and only those.
pub proof fn a_fresh_url_is_used_again(
    before: Map<Seq<char>, ResolvedPlaybackUrl>,
    source: Seq<char>,
    other: Seq<char>,
    now_ms: u64,
    action: OpenAction,
    after: Map<Seq<char>, ResolvedPlaybackUrl>,
)
    requires
        goes_on(before, source, OpenEvent::ProcessFailed, now_ms, action, after),
    ensures
        ({
            let fresh = before.contains_key(source) && now_ms <= before[source].resolved_at_ms
                + 15 * 60 * 1000;
            &&& fresh ==> action == (OpenAction::OpenHttp {
                playback_url: before[source].playback_url,
            })
            &&& !fresh ==> action is AskUrl
        }),
        after.contains_key(other) <==> before.contains_key(other) && now_ms
            <= before[other].resolved_at_ms + 15 * 60 * 1000,
        after.contains_key(other) ==> after[other] == before[other],
{
}

/// The URL that yt-dlp gives out is streamed and is remembered with its time. The
/// others that are fresh are kept, unless the cache is full: then one of the
/// oldest is gone.
pub proof fn a_resolved_url_is_remembered(
    before: Map<Seq<char>, ResolvedPlaybackUrl>,
    source: Seq<char>,
    run: UrlRun,
    now_ms: u64,
    action: OpenAction,
    after: Map<Seq<char>, ResolvedPlaybackUrl>,
)
    requires
        goes_on(before, source, OpenEvent::UrlRan { run }, now_ms, action, after),
    ensures
        action is Fail || action is OpenHttp,
        action is Fail ==> after == before,
        action matches OpenAction::OpenHttp { playback_url } ==> {
            &&& run is Finished
            &&& crate::text::first_text_line(crate::text::lossy_text(url_output(run))) == Some(
                playback_url@,
            )
            &&& after.contains_key(source)
            &&& after[source].playback_url == playback_url
            &&& after[source].resolved_at_ms == now_ms
            &&& forall|other: Seq<char>|
                other != source && #[trigger] after.contains_key(other) ==> before.contains_key(
                    other,
                ) && after[other] == before[other] && now_ms <= before[other].resolved_at_ms + 15
                    * 60 * 1000
            &&& good_urls(before, now_ms).dom().len() < 64 ==> forall|other: Seq<char>|
                #![trigger before.contains_key(other)]
                before.contains_key(other) && now_ms <= before[other].resolved_at_ms + 15 * 60
                    * 1000 ==> after.contains_key(other)
        },
{
    if let OpenAction::OpenHttp { playback_url } = action {
        let good = good_urls(before, now_ms);
        let roomy = choose|roomy: Map<Seq<char>, ResolvedPlaybackUrl>| #[trigger]
            makes_room(good, roomy) && after == roomy.insert(
                source,
                ResolvedPlaybackUrl { playback_url, resolved_at_ms: now_ms },
            );
        assert(makes_room(good, roomy));
        assert forall|other: Seq<char>| #[trigger]
            roomy.contains_key(other) implies good.contains_key(other) && roomy[other]
            == good[other] by {}
        if good.dom().len() < 64 {
            assert forall|other: Seq<char>|
                before.contains_key(other) && now_ms <= before[other].resolved_at_ms + 15 * 60
                    * 1000 implies #[trigger] after.contains_key(other) by {
                assert(good.contains_key(other));
            }
        }
    }
}

/// Of the URLs of a full cache one goes that no other is older than, and the rest
/// stay.
pub proof fn the_oldest_url_makes_room(
    urls: Map<Seq<char>, ResolvedPlaybackUrl>,
    roomy: Map<Seq<char>, ResolvedPlaybackUrl>,
    gone: Seq<char>,
    other: Seq<char>,
)
    requires
        makes_room(urls, roomy),
        urls.contains_key(gone),
        !roomy.contains_key(gone),
        urls.contains_key(other),
    ensures
        urls.dom().len() >= 64,
        urls[gone].resolved_at_ms <= urls[other].resolved_at_ms,
        other != gone ==> roomy.contains_key(other) && roomy[other] == urls[other],
{
}

/// A run that could not be started or that failed gives no URL: it fails with the
/// code of its fault, and says what yt-dlp said.
pub proof fn a_failed_run_gives_no_url(
    result: Result<String, PortError>,
    run: UrlRun,
    said: Seq<char>,
)
    requires
        url_outcome_is(result, run, said),
    ensures
        result is Ok <==> run is Finished && crate::text::first_text_line(said) is Some,
        result matches Ok(url) ==> crate::text::first_text_line(said) == Some(url@),
        result matches Err(error) ==> {
            &&& run matches UrlRun::NotStarted { fault, detail } ==> {
                &&& error.spec_code() == crate::search::fault_code(fault)
                &&& detail@.len() <= error.spec_message().len()
                &&& error.spec_message().skip(error.spec_message().len() - detail@.len())
                    == detail@
            }
            &&& !(run is NotStarted) ==> error.spec_code() == "audio_source_resolve_failed"@
            &&& run is Failed ==> {
                let complaint = crate::text::trimmed(said);
                &&& complaint.len() <= error.spec_message().len()
                &&& error.spec_message().skip(error.spec_message().len() - complaint.len())
                    == complaint
            }
        },
{
    if let Err(error) = result {
        if let UrlRun::NotStarted { fault, detail } = run {
            let n = error.spec_message().len() - detail@.len();
            assert(error.spec_message().skip(n) =~= detail@);
        } else if run is Failed {
            let complaint = crate::text::trimmed(said);
            let n = error.spec_message().len() - complaint.len();
            assert(error.spec_message().skip(n) =~= complaint);
        }
    }
}

/// What can go wrong between a stream and the audio output.
#[derive(Debug, Clone, Copy, PartialEq, Eq, Structural)]
pub enum PlaybackFault {
    OutputUnavailable,
    RuntimeFailed,
    UrlInvalid,
    StreamOpenFailed,
    ProcessSpawnFailed,
    DecodeFailed,
    StartFailed,
}

/// The code of a fault.
pub open spec fn playback_fault_code(fault: PlaybackFault) -> Seq<char> {
    match fault {
        PlaybackFault::OutputUnavailable => "audio_output_unavailable"@,
        PlaybackFault::RuntimeFailed => "playback_runtime_failed"@,
        PlaybackFault::UrlInvalid => "playback_url_invalid"@,
        PlaybackFault::StreamOpenFailed => "playback_stream_open_failed"@,
        PlaybackFault::ProcessSpawnFailed => "yt_dlp_spawn_failed"@,
        PlaybackFault::DecodeFailed => "playback_decode_failed"@,
        PlaybackFault::StartFailed => "playback_start_failed"@,
    }
}

/// What is said of a fault, before its detail.
pub open spec fn playback_fault_text(fault: PlaybackFault) -> Seq<char> {
    match fault {
        PlaybackFault::OutputUnavailable => "failed to initialize the audio output: "@,
        PlaybackFault::RuntimeFailed => "failed to build playback runtime: "@,
        PlaybackFault::UrlInvalid => "playback URL could not be parsed: "@,
        PlaybackFault::StreamOpenFailed => "failed to open the playback stream: "@,
        PlaybackFault::ProcessSpawnFailed => "failed to spawn yt-dlp playback stream: "@,
        PlaybackFault::DecodeFailed => "failed to decode the playback stream: "@,
        PlaybackFault::StartFailed => "failed to start playback: "@,
    }
}

/// The error of a fault.
pub fn playback_fault(fault: PlaybackFault, detail: &str) -> (error: PortError)
    ensures
        port_error_is(
            error,
            playback_fault_code(fault),
            playback_fault_text(fault) + detail@,
        ),
{
    let (code, head) = match fault {
        PlaybackFault::OutputUnavailable => (
            "audio_output_unavailable",
            "failed to initialize the audio output: ",
        ),
        PlaybackFault::RuntimeFailed => (
            "playback_runtime_failed",
            "failed to build playback runtime: ",
        ),
        PlaybackFault::UrlInvalid => ("playback_url_invalid", "playback URL could not be parsed: "),
        PlaybackFault::StreamOpenFailed => (
            "playback_stream_open_failed",
            "failed to open the playback stream: ",
        ),
        PlaybackFault::ProcessSpawnFailed => (
            "yt_dlp_spawn_failed",
            "failed to spawn yt-dlp playback stream: ",
        ),
        PlaybackFault::DecodeFailed => (
            "playback_decode_failed",
            "failed to decode the playback stream: ",
        ),
        PlaybackFault::StartFailed => ("playback_start_failed", "failed to start playback: "),
    };
    let message = text_after(head, detail);
    PortError::new(code, message.as_str())
}

/// Each fault has a code of its own, under which the user is told what was wrong.
pub proof fn each_fault_has_its_code(fault: PlaybackFault)
    ensures
        fault is OutputUnavailable ==> playback_fault_code(fault) == "audio_output_unavailable"@,
        fault is RuntimeFailed ==> playback_fault_code(fault) == "playback_runtime_failed"@,
        fault is UrlInvalid ==> playback_fault_code(fault) == "playback_url_invalid"@,
        fault is StreamOpenFailed ==> playback_fault_code(fault) == "playback_stream_open_failed"@,
        fault is ProcessSpawnFailed ==> playback_fault_code(fault) == "yt_dlp_spawn_failed"@,
        fault is DecodeFailed ==> playback_fault_code(fault) == "playback_decode_failed"@,
        fault is StartFailed ==> playback_fault_code(fault) == "playback_start_failed"@,
{
}

} // verus!
