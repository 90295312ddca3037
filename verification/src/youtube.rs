//! YouTube URLs: which ones are supported, what they are called canonically,
//! and which sources can really be played.

use vstd::prelude::*;

verus! {

pub const YOUTUBE_CANONICAL_HOST: &'static str = "www.youtube.com";

pub const YOUTUBE_WATCH_PATH: &'static str = "/watch";

pub const YOUTU_BE_HOST: &'static str = "youtu.be";

/// Why something could not be found or resolved.
#[derive(Debug, PartialEq, Eq)]
pub struct LocalSearchFailure {
    pub code: String,
    pub message: String,
}

/// The contents of a [`LocalSearchFailure`].
pub struct FailureView {
    pub code: Seq<char>,
    pub message: Seq<char>,
}

impl View for LocalSearchFailure {
    type V = FailureView;

    open spec fn view(&self) -> FailureView {
        FailureView { code: self.code@, message: self.message@ }
    }
}

impl Clone for LocalSearchFailure {
    fn clone(&self) -> (copy: Self)
        ensures
            copy == *self,
    {
        LocalSearchFailure { code: self.code.clone(), message: self.message.clone() }
    }
}

/// A failure, written down.
pub open spec fn failure_view(code: &str, message: &str) -> FailureView {
    FailureView { code: code@, message: message@ }
}

impl LocalSearchFailure {
    pub fn new(code: &str, message: &str) -> (failure: Self)
        ensures
            failure@ == failure_view(code, message),
    {
        LocalSearchFailure { code: code.to_owned(), message: message.to_owned() }
    }
}

/// The failure of a URL that is none of YouTube's.
pub open spec fn url_invalid() -> FailureView {
    failure_view("youtube_url_invalid", "Input is not a valid YouTube URL.")
}

/// The failure of a YouTube URL of another form.
pub open spec fn url_unsupported() -> FailureView {
    failure_view("youtube_url_unsupported", "This YouTube URL format is not supported yet.")
}

fn invalid_url_failure() -> (failure: LocalSearchFailure)
    ensures
        failure@ == url_invalid(),
{
    LocalSearchFailure::new("youtube_url_invalid", "Input is not a valid YouTube URL.")
}

// ---------------------------------------------------------------------------
// Video ids
// ---------------------------------------------------------------------------

/// The characters of video ids.
pub open spec fn id_char(c: char) -> bool {
    ('a' <= c <= 'z') || ('A' <= c <= 'Z') || ('0' <= c <= '9') || c == '_' || c == '-'
}

/// Whether a text has the form of a video id.
pub open spec fn video_id(s: Seq<char>) -> bool {
    s.len() == 11 && forall|i: int| 0 <= i < s.len() ==> id_char(#[trigger] s[i])
}

/// Decides [`video_id`] for a range of characters.
fn is_video_id(chars: &Vec<char>, from: usize, to: usize) -> (r: bool)
    requires
        from <= to <= chars@.len(),
    ensures
        r == video_id(chars@.subrange(from as int, to as int)),
{
    let ghost s = chars@.subrange(from as int, to as int);
    if to - from != 11 {
        return false;
    }
    let mut i: usize = from;
    while i < to
        invariant
            from <= i <= to <= chars@.len(),
            s == chars@.subrange(from as int, to as int),
            forall|j: int| 0 <= j < i - from ==> id_char(#[trigger] s[j]),
        decreases to - i,
    {
        let c = chars[i];
        if !(('a' <= c && c <= 'z') || ('A' <= c && c <= 'Z') || ('0' <= c && c <= '9') || c == '_'
            || c == '-') {
            assert(!id_char(s[i - from]));
            return false;
        }
        i += 1;
    }
    true
}

/// Decides [`video_id`].
pub fn valid_video_id(value: &str) -> (r: bool)
    ensures
        r == video_id(value@),
{
    let chars = crate::text::chars_of(value);
    let n = chars.len();
    assert(chars@.subrange(0, n as int) =~= value@);
    is_video_id(&chars, 0, n)
}

/// The canonical URL of a video.
pub open spec fn watch_url(id: Seq<char>) -> Seq<char> {
    "https://"@ + YOUTUBE_CANONICAL_HOST@ + YOUTUBE_WATCH_PATH@ + "?v="@ + id
}

/// The canonical URL of a playlist.
pub open spec fn playlist_url(id: Seq<char>) -> Seq<char> {
    "https://"@ + YOUTUBE_CANONICAL_HOST@ + "/playlist?list="@ + id
}

/// Computes [`watch_url`].
pub fn canonical_youtube_watch_url(video_id: &str) -> (url: String)
    ensures
        url@ == watch_url(video_id@),
{
    let mut url = "https://".to_owned();
    url.append(YOUTUBE_CANONICAL_HOST);
    url.append(YOUTUBE_WATCH_PATH);
    url.append("?v=");
    url.append(video_id);
    url
}

// ---------------------------------------------------------------------------
// Parsed URLs
// ---------------------------------------------------------------------------

/// The parts of a URL that are looked at.
#[derive(Debug, PartialEq, Eq)]
pub struct ParsedUrl {
    pub host: Option<String>,
    pub path: String,
    pub query: Vec<(String, String)>,
}

/// The contents of a [`ParsedUrl`].
pub struct ParsedUrlView {
    pub host: Option<Seq<char>>,
    pub path: Seq<char>,
    pub query: Seq<(Seq<char>, Seq<char>)>,
}

impl View for ParsedUrl {
    type V = ParsedUrlView;

    open spec fn view(&self) -> ParsedUrlView {
        ParsedUrlView {
            host: crate::text::opt_view(self.host),
            path: self.path@,
            query: self.query@.map_values(|pair: (String, String)| (pair.0@, pair.1@)),
        }
    }
}

/// What `Url::parse` reads from a text: its host, its path and its decoded query
/// pairs, or nothing where the text is no URL.
pub uninterp spec fn url_parts(url: Seq<char>) -> Option<ParsedUrlView>;

/// `reqwest::Url::parse`, with `Url::host_str`, `Url::path` and
/// `Url::query_pairs` of what it returns. The grammar of URLs is the outside
/// crate's: the contract says that the parts depend on the text alone, and what
/// they are of the canonical URL of a video, which holds nothing to decode.
#[verifier::external_body]
fn parse_url(url: &str) -> (parsed: Option<ParsedUrl>)
    ensures
        match parsed {
            Some(parsed) => url_parts(url@) == Some(parsed@),
            None => url_parts(url@) is None,
        },
        forall|id: Seq<char>| #[trigger]
            watch_url(id) == url@ && video_id(id) ==> parsed is Some && parsed->0@ == (
            ParsedUrlView {
                host: Some(YOUTUBE_CANONICAL_HOST@),
                path: YOUTUBE_WATCH_PATH@,
                query: seq![("v"@, id)],
            }),
{
    reqwest::Url::parse(url).ok().map(
        |url| ParsedUrl {
            host: url.host_str().map(|host| host.to_owned()),
            path: url.path().to_owned(),
            query: url.query_pairs().into_owned().collect(),
        },
    )
}

/// The value of the first query pair with the given name.
pub open spec fn query_value(query: Seq<(Seq<char>, Seq<char>)>, name: Seq<char>) -> Option<Seq<char>>
    decreases query.len(),
{
    if query.len() == 0 {
        None
    } else if query[0].0 == name {
        Some(query[0].1)
    } else {
        query_value(query.drop_first(), name)
    }
}

/// A path without its leading slashes.
pub open spec fn without_slashes(path: Seq<char>) -> Seq<char>
    decreases path.len(),
{
    if path.len() > 0 && path[0] == '/' {
        without_slashes(path.drop_first())
    } else {
        path
    }
}

/// The canonical form of a parsed URL: of a video, whichever way it is linked, or
/// of a playlist.
pub open spec fn canonical_of(url: ParsedUrlView) -> Result<Seq<char>, FailureView> {
    match url.host {
        None => Err(url_invalid()),
        Some(named) => {
            let host = crate::text::ascii_lower(named);
            if host == YOUTU_BE_HOST@ {
                let id = without_slashes(url.path);
                if video_id(id) {
                    Ok(watch_url(id))
                } else {
                    Err(url_invalid())
                }
            } else if host == "youtube.com"@ || host == YOUTUBE_CANONICAL_HOST@ {
                if url.path == "/playlist"@ {
                    match query_value(url.query, "list"@) {
                        Some(id) => if id.len() > 0 {
                            Ok(playlist_url(id))
                        } else {
                            Err(url_invalid())
                        },
                        None => Err(url_invalid()),
                    }
                } else if url.path != YOUTUBE_WATCH_PATH@ {
                    Err(url_unsupported())
                } else {
                    match query_value(url.query, "v"@) {
                        Some(id) => if video_id(id) {
                            Ok(watch_url(id))
                        } else {
                            Err(url_invalid())
                        },
                        None => Err(url_invalid()),
                    }
                }
            } else {
                Err(url_invalid())
            }
        },
    }
}

/// The canonical form of a text, where it is a supported URL.
pub open spec fn canonical_url(url: Seq<char>) -> Result<Seq<char>, FailureView> {
    match url_parts(url) {
        Some(parts) => canonical_of(parts),
        None => Err(url_invalid()),
    }
}

/// Whether a result has the given contents.
pub open spec fn text_result(
    result: Result<String, LocalSearchFailure>,
    expected: Result<Seq<char>, FailureView>,
) -> bool {
    match result {
        Ok(text) => expected == Ok::<Seq<char>, FailureView>(text@),
        Err(failure) => expected == Err::<Seq<char>, FailureView>(failure@),
    }
}

fn find_query_value(query: &Vec<(String, String)>, name: &str) -> (value: Option<String>)
    ensures
        crate::text::opt_view(value) == query_value(
            query@.map_values(|pair: (String, String)| (pair.0@, pair.1@)),
            name@,
        ),
{
    let ghost all = query@.map_values(|pair: (String, String)| (pair.0@, pair.1@));
    let mut i: usize = 0;
    assert(all.skip(0) =~= all);
    while i < query.len()
        invariant
            i <= query@.len(),
            all == query@.map_values(|pair: (String, String)| (pair.0@, pair.1@)),
            query_value(all.skip(i as int), name@) == query_value(all, name@),
        decreases query@.len() - i,
    {
        if crate::text::str_eq(query[i].0.as_str(), name) {
            return Some(query[i].1.clone());
        }
        assert(all.skip(i as int).drop_first() =~= all.skip(i + 1));
        i += 1;
    }
    None
}

fn skip_slashes(chars: &Vec<char>) -> (start: usize)
    ensures
        start <= chars@.len(),
        chars@.skip(start as int) == without_slashes(chars@),
{
    let mut start: usize = 0;
    assert(chars@.skip(0) =~= chars@);
    while start < chars.len() && chars[start] == '/'
        invariant
            start <= chars@.len(),
            without_slashes(chars@.skip(start as int)) == without_slashes(chars@),
        decreases chars@.len() - start,
    {
        assert(chars@.skip(start as int).drop_first() =~= chars@.skip(start + 1));
        start += 1;
    }
    start
}

/// Computes [`canonical_of`].
pub fn canonicalize_parsed_url(url: &ParsedUrl) -> (result: Result<String, LocalSearchFailure>)
    ensures
        text_result(result, canonical_of(url@)),
{
    let host = match &url.host {
        Some(host) => crate::text::to_ascii_lower(host.as_str()),
        None => return Err(invalid_url_failure()),
    };
    if crate::text::str_eq(host.as_str(), YOUTU_BE_HOST) {
        let chars = crate::text::chars_of(url.path.as_str());
        let start = skip_slashes(&chars);
        let n = chars.len();
        assert(chars@.skip(start as int) =~= chars@.subrange(start as int, n as int));
        if !is_video_id(&chars, start, n) {
            return Err(invalid_url_failure());
        }
        let id = crate::text::string_from(&chars, start, n);
        Ok(canonical_youtube_watch_url(id.as_str()))
    } else if crate::text::str_eq(host.as_str(), "youtube.com") || crate::text::str_eq(
        host.as_str(),
        YOUTUBE_CANONICAL_HOST,
    ) {
        if crate::text::str_eq(url.path.as_str(), "/playlist") {
            match find_query_value(&url.query, "list") {
                Some(id) => {
                    if id.as_str().is_empty() {
                        return Err(invalid_url_failure());
                    }
                    let mut canonical = "https://".to_owned();
                    canonical.append(YOUTUBE_CANONICAL_HOST);
                    canonical.append("/playlist?list=");
                    canonical.append(id.as_str());
                    Ok(canonical)
                },
                None => Err(invalid_url_failure()),
            }
        } else if !crate::text::str_eq(url.path.as_str(), YOUTUBE_WATCH_PATH) {
            Err(
                LocalSearchFailure::new(
                    "youtube_url_unsupported",
                    "This YouTube URL format is not supported yet.",
                ),
            )
        } else {
            match find_query_value(&url.query, "v") {
                Some(id) => {
                    if !valid_video_id(id.as_str()) {
                        return Err(invalid_url_failure());
                    }
                    Ok(canonical_youtube_watch_url(id.as_str()))
                },
                None => Err(invalid_url_failure()),
            }
        }
    } else {
        Err(invalid_url_failure())
    }
}

/// A URL that was found to be supported.
#[derive(Debug, PartialEq, Eq)]
pub struct ResolvedYoutubeVideoUrl {
    pub canonical_url: String,
}

/// Reads a URL and brings it to its canonical form.
pub fn parse_supported_youtube_url(url: &str) -> (result: Result<
    ResolvedYoutubeVideoUrl,
    LocalSearchFailure,
>)
    ensures
        match result {
            Ok(resolved) => canonical_url(url@) == Ok::<Seq<char>, FailureView>(
                resolved.canonical_url@,
            ),
            Err(failure) => canonical_url(url@) == Err::<Seq<char>, FailureView>(failure@),
        },
        forall|id: Seq<char>| #[trigger]
            watch_url(id) == url@ && video_id(id) ==> result is Ok
                && result->Ok_0.canonical_url@ == url@,
{
    let parsed = match parse_url(url) {
        Some(parsed) => parsed,
        None => return Err(invalid_url_failure()),
    };
    let result = canonicalize_parsed_url(&parsed);
    proof {
        assert forall|id: Seq<char>| #[trigger]
            watch_url(id) == url@ && video_id(id) implies result is Ok && result->Ok_0@ == url@ by {
            canonical_host_is_lower_case();
            assert(query_value(seq![("v"@, id)], "v"@) == Some(id));
        }
    }
    match result {
        Ok(canonical_url) => Ok(ResolvedYoutubeVideoUrl { canonical_url }),
        Err(failure) => Err(failure),
    }
}

/// The canonical form of a supported URL.
pub fn canonicalize_supported_youtube_url(url: &str) -> (result: Result<
    String,
    LocalSearchFailure,
>)
    ensures
        text_result(result, canonical_url(url@)),
        forall|id: Seq<char>| #[trigger]
            watch_url(id) == url@ && video_id(id) ==> result is Ok && result->Ok_0@ == url@,
{
    match parse_supported_youtube_url(url) {
        Ok(resolved) => Ok(resolved.canonical_url),
        Err(failure) => Err(failure),
    }
}

proof fn canonical_host_is_lower_case()
    ensures
        crate::text::ascii_lower(YOUTUBE_CANONICAL_HOST@) == YOUTUBE_CANONICAL_HOST@,
        YOUTUBE_CANONICAL_HOST@ != YOUTU_BE_HOST@,
        YOUTUBE_WATCH_PATH@ != "/playlist"@,
{
    reveal_strlit("www.youtube.com");
    reveal_strlit("youtu.be");
    reveal_strlit("/watch");
    reveal_strlit("/playlist");
    assert(crate::text::ascii_lower(YOUTUBE_CANONICAL_HOST@) =~= YOUTUBE_CANONICAL_HOST@);
    assert(YOUTUBE_WATCH_PATH@.len() != "/playlist"@.len());
}

// ---------------------------------------------------------------------------
// Sources of playback
// ---------------------------------------------------------------------------

/// A source as it is compared: trimmed and in small letters.
pub open spec fn normal_source(url: Seq<char>) -> Seq<char> {
    crate::text::ascii_lower(crate::text::trimmed(url))
}

/// Whether a source is one of YouTube's.
pub open spec fn youtube_source(url: Seq<char>) -> bool {
    crate::text::occurs_in(normal_source(url), "youtube.com"@) || crate::text::occurs_in(
        normal_source(url),
        "youtu.be"@,
    )
}

/// Decides [`youtube_source`].
pub fn is_youtube_url(source_url: &str) -> (r: bool)
    ensures
        r == youtube_source(source_url@),
{
    let trimmed = crate::text::trim(source_url);
    let normal = crate::text::to_ascii_lower(trimmed.as_str());
    crate::text::contains(normal.as_str(), "youtube.com") || crate::text::contains(
        normal.as_str(),
        "youtu.be",
    )
}

/// The characters that end a video id inside a URL.
pub open spec fn id_end(c: char) -> bool {
    c == '&' || c == '?' || c == '/' || c == '#'
}

/// The number of characters before the first that ends a video id, or all of them.
pub open spec fn id_len(s: Seq<char>) -> int
    decreases s.len(),
{
    if s.len() == 0 || id_end(s[0]) {
        0
    } else {
        1 + id_len(s.drop_first())
    }
}

/// Whether a video id stands directly behind `at`, up to a character that ends it.
pub open spec fn id_follows(s: Seq<char>, at: int) -> bool {
    video_id(s.skip(at).take(id_len(s.skip(at))))
}

/// Whether the first occurrence of `marker` in `s` is followed by a video id.
pub open spec fn marked_id(s: Seq<char>, marker: Seq<char>) -> bool {
    exists|at: int| #[trigger]
        crate::text::occurs_at(s, marker, at) && (forall|j: int|
            0 <= j < at ==> !crate::text::occurs_at(s, marker, j)) && id_follows(
            s,
            at + marker.len(),
        )
}

/// Whether a source names a video that can be played: behind a watch link, or
/// where there is none behind a short link.
pub open spec fn playable_source(url: Seq<char>) -> bool {
    let s = normal_source(url);
    if crate::text::occurs_in(s, "youtube.com/watch?v="@) {
        marked_id(s, "youtube.com/watch?v="@)
    } else {
        marked_id(s, "youtu.be/"@)
    }
}

proof fn lemma_id_len(s: Seq<char>, n: int)
    requires
        0 <= n <= s.len(),
        forall|j: int| 0 <= j < n ==> !id_end(#[trigger] s[j]),
        n < s.len() ==> id_end(s[n]),
    ensures
        id_len(s) == n,
    decreases s.len(),
{
    if n > 0 {
        let rest = s.drop_first();
        assert forall|j: int| 0 <= j < n - 1 implies !id_end(#[trigger] rest[j]) by {
            assert(rest[j] == s[j + 1]);
        }
        assert(!id_end(s[0]));
        lemma_id_len(rest, n - 1);
    }
}

/// Decides [`id_follows`].
fn valid_youtube_video_id(chars: &Vec<char>, at: usize) -> (r: bool)
    requires
        at <= chars@.len(),
    ensures
        r == id_follows(chars@, at as int),
{
    let mut end: usize = at;
    while end < chars.len() && !(chars[end] == '&' || chars[end] == '?' || chars[end] == '/'
        || chars[end] == '#')
        invariant
            at <= end <= chars@.len(),
            forall|j: int| at <= j < end ==> !id_end(#[trigger] chars@[j]),
        decreases chars@.len() - end,
    {
        end += 1;
    }
    proof {
        let s = chars@.skip(at as int);
        assert forall|j: int| 0 <= j < end - at implies !id_end(#[trigger] s[j]) by {
            assert(s[j] == chars@[at + j]);
        }
        lemma_id_len(s, end - at);
        assert(s.take(end - at) =~= chars@.subrange(at as int, end as int));
    }
    is_video_id(chars, at, end)
}

/// Decides whether `marker` occurs, and then [`marked_id`].
fn extract_youtube_video_id(chars: &Vec<char>, marker: &str) -> (found: Option<bool>)
    ensures
        match found {
            Some(valid) => crate::text::occurs_in(chars@, marker@) && valid == marked_id(
                chars@,
                marker@,
            ),
            None => !crate::text::occurs_in(chars@, marker@) && !marked_id(chars@, marker@),
        },
{
    let wanted = crate::text::chars_of(marker);
    let len = chars.len();
    match crate::text::find_in(chars, &wanted) {
        Some(at) => {
            assert(at + wanted@.len() <= len);
            assert(crate::text::occurs_at(chars@, marker@, at as int));
            let valid = valid_youtube_video_id(chars, at + wanted.len());
            proof {
                assert forall|k: int| #[trigger]
                    crate::text::occurs_at(chars@, marker@, k) && (forall|j: int|
                        0 <= j < k ==> !crate::text::occurs_at(chars@, marker@, j)) implies k
                    == at by {
                    if k < at {
                        assert(!crate::text::occurs_at(chars@, wanted@, k));
                    } else if at < k {
                        assert(!crate::text::occurs_at(chars@, marker@, at as int));
                    }
                }
            }
            Some(valid)
        },
        None => None,
    }
}

/// Decides [`playable_source`].
pub fn is_real_playback_source(source_url: &str) -> (r: bool)
    ensures
        r == playable_source(source_url@),
{
    let trimmed = crate::text::trim(source_url);
    let normal = crate::text::to_ascii_lower(trimmed.as_str());
    let chars = crate::text::chars_of(normal.as_str());
    match extract_youtube_video_id(&chars, "youtube.com/watch?v=") {
        Some(valid) => valid,
        None => match extract_youtube_video_id(&chars, "youtu.be/") {
            Some(valid) => valid,
            None => false,
        },
    }
}

/// Whether playback of a source is simulated.
pub fn should_simulate_source(source_url: &str) -> (r: bool)
    ensures
        r == !playable_source(source_url@),
{
    !is_real_playback_source(source_url)
}

} // verus!
