//! Laws of what the provider's output means: which songs it holds, what each is
//! called, and in which order they come.

use vstd::arithmetic::power2::pow2;
use vstd::prelude::*;

use crate::domain::SongView;
use crate::json::{JsonNumber, JsonView};
use crate::search::ResolutionView;
use crate::youtube::{FailureView, ParsedUrlView};

verus! {

// ---------------------------------------------------------------------------
// Documents
// ---------------------------------------------------------------------------

/// A member of an object is its first field of that name; where there is no such
/// field, or no object, there is no member.
pub proof fn a_member_is_the_first_field_of_its_name(value: JsonView, name: Seq<char>)
    ensures
        value matches JsonView::Object(fields) ==> match value.member(name) {
            Some(found) => exists|i: int|
                {
                    &&& 0 <= i < fields.len()
                    &&& (#[trigger] fields[i]).0 == name
                    &&& fields[i].1 == found
                    &&& forall|j: int| 0 <= j < i ==> (#[trigger] fields[j]).0 != name
                },
            None => forall|i: int| 0 <= i < fields.len() ==> (#[trigger] fields[i]).0 != name,
        },
        !(value is Object) ==> value.member(name) is None,
{
    match value {
        JsonView::Object(fields) => lemma_field(fields, name),
        _ => {},
    }
}

proof fn lemma_field(fields: Seq<(Seq<char>, JsonView)>, name: Seq<char>)
    ensures
        match crate::json::field(fields, name) {
            Some(found) => exists|i: int|
                {
                    &&& 0 <= i < fields.len()
                    &&& (#[trigger] fields[i]).0 == name
                    &&& fields[i].1 == found
                    &&& forall|j: int| 0 <= j < i ==> (#[trigger] fields[j]).0 != name
                },
            None => forall|i: int| 0 <= i < fields.len() ==> (#[trigger] fields[i]).0 != name,
        },
    decreases fields.len(),
{
    if fields.len() > 0 {
        if fields[0].0 == name {
            assert(fields[0].1 == crate::json::field(fields, name)->0);
        } else {
            let rest = fields.drop_first();
            lemma_field(rest, name);
            match crate::json::field(rest, name) {
                Some(found) => {
                    let i = choose|i: int|
                        {
                            &&& 0 <= i < rest.len()
                            &&& (#[trigger] rest[i]).0 == name
                            &&& rest[i].1 == found
                            &&& forall|j: int| 0 <= j < i ==> (#[trigger] rest[j]).0 != name
                        };
                    assert(fields[i + 1] == rest[i]);
                    assert forall|j: int| 0 <= j < i + 1 implies (#[trigger] fields[j]).0
                        != name by {
                        if j > 0 {
                            assert(fields[j] == rest[j - 1]);
                        }
                    }
                },
                None => {
                    assert forall|i: int| 0 <= i < fields.len() implies (#[trigger] fields[i]).0
                        != name by {
                        if i > 0 {
                            assert(fields[i] == rest[i - 1]);
                        }
                    }
                },
            }
        }
    }
}

/// Whether a member is a text.
pub open spec fn says(value: JsonView, name: Seq<char>, text: Seq<char>) -> bool {
    value.member(name) == Some(JsonView::Text(text))
}

/// Whether a member is a text that is not empty.
pub open spec fn says_something(value: JsonView, name: Seq<char>) -> bool {
    value.member(name) matches Some(JsonView::Text(text)) && text.len() > 0
}

// ---------------------------------------------------------------------------
// Songs
// ---------------------------------------------------------------------------

/// A search result with an id is a song of that id; one without is none.
pub proof fn a_result_is_known_by_its_id(entry: JsonView, id: Seq<char>)
    ensures
        says(entry, "id"@, id) && id.len() > 0 ==> {
            &&& crate::search::entry_song(entry) matches Ok(song)
            &&& song.id == "youtube:"@ + id
        },
        !says_something(entry, "id"@) ==> {
            &&& crate::search::entry_song(entry) matches Err(failure)
            &&& failure.code == "yt_dlp_invalid_response"@
        },
{
}

/// A search result has the title that it is given; only without one is it called
/// by its id.
pub proof fn a_result_has_its_title(entry: JsonView, id: Seq<char>, title: Seq<char>)
    requires
        says(entry, "id"@, id),
        id.len() > 0,
    ensures
        says(entry, "title"@, title) && title.len() > 0 ==> {
            &&& crate::search::entry_song(entry) matches Ok(song)
            &&& song.title == title
        },
        !says_something(entry, "title"@) ==> {
            &&& crate::search::entry_song(entry) matches Ok(song)
            &&& song.title == id
        },
{
}

/// A search result is by its channel, without one by its uploader, and without
/// either by an unknown channel.
pub proof fn a_result_has_its_channel(entry: JsonView, name: Seq<char>)
    requires
        says_something(entry, "id"@),
    ensures
        says(entry, "channel"@, name) && name.len() > 0 ==> {
            &&& crate::search::entry_song(entry) matches Ok(song)
            &&& song.channel_name == name
        },
        entry.member("channel"@) is None && says(entry, "uploader"@, name) && name.len() > 0 ==> {
            &&& crate::search::entry_song(entry) matches Ok(song)
            &&& song.channel_name == name
        },
        !says_something(entry, "channel"@) && (entry.member("channel"@) is Some
            || !says_something(entry, "uploader"@)) ==> {
            &&& crate::search::entry_song(entry) matches Ok(song)
            &&& song.channel_name == "Unknown channel"@
        },
{
}

/// A search result lasts as long as it says; one that does not say lasts for
/// nothing.
pub proof fn a_result_has_its_duration(entry: JsonView, number: JsonNumber)
    requires
        says_something(entry, "id"@),
    ensures
        entry.member("duration"@) == Some(JsonView::Number(number)) && number.double_bits is Some
            ==> {
            &&& crate::search::entry_song(entry) matches Ok(song)
            &&& song.duration_ms == crate::seconds::millis_of_seconds(number.double_bits->0)
        },
        !(entry.member("duration"@) matches Some(JsonView::Number(_))) ==> {
            &&& crate::search::entry_song(entry) matches Ok(song)
            &&& song.duration_ms == 0
        },
{
}

/// A search result is at its own address where that is one of the web, and else
/// at that of its video.
pub proof fn a_result_has_its_address(
    entry: JsonView,
    id: Seq<char>,
    url: Seq<char>,
    rest: Seq<char>,
)
    requires
        says(entry, "id"@, id),
        id.len() > 0,
    ensures
        says(entry, "url"@, url) && (url == "https://"@ + rest || url == "http://"@ + rest) ==> {
            &&& crate::search::entry_song(entry) matches Ok(song)
            &&& song.source_url == url
        },
        !(entry.member("url"@) matches Some(JsonView::Text(_))) ==> {
            &&& crate::search::entry_song(entry) matches Ok(song)
            &&& song.source_url == "https://www.youtube.com/watch?v="@ + id
        },
{
    if says(entry, "url"@, url) {
        if url == "https://"@ + rest {
            assert(url.take("https://"@.len() as int) =~= "https://"@);
            assert(crate::text::has_prefix(url, "https://"@));
        }
        if url == "http://"@ + rest {
            assert(url.take("http://"@.len() as int) =~= "http://"@);
            assert(crate::text::has_prefix(url, "http://"@));
        }
    }
}

/// Every result of a search is a song, in the order of the results; one result
/// that cannot be read fails the search.
pub proof fn a_search_keeps_the_order_of_its_results(root: JsonView, entries: Seq<JsonView>)
    requires
        root.member("entries"@) == Some(JsonView::Array(entries)),
    ensures
        match crate::search::search_songs(root) {
            Ok(songs) => {
                &&& songs.len() == entries.len()
                &&& forall|k: int|
                    0 <= k < entries.len() ==> crate::search::entry_song(#[trigger] entries[k])
                        == Ok::<SongView, FailureView>(songs[k])
            },
            Err(failure) => exists|k: int|
                {
                    &&& 0 <= k < entries.len()
                    &&& crate::search::entry_song(#[trigger] entries[k]) == Err::<
                        SongView,
                        FailureView,
                    >(failure)
                },
        },
{
    lemma_entry_songs(entries);
}

proof fn lemma_entry_songs(entries: Seq<JsonView>)
    ensures
        match crate::search::entry_songs(entries) {
            Ok(songs) => {
                &&& songs.len() == entries.len()
                &&& forall|k: int|
                    0 <= k < entries.len() ==> crate::search::entry_song(#[trigger] entries[k])
                        == Ok::<SongView, FailureView>(songs[k])
            },
            Err(failure) => exists|k: int|
                {
                    &&& 0 <= k < entries.len()
                    &&& crate::search::entry_song(#[trigger] entries[k]) == Err::<
                        SongView,
                        FailureView,
                    >(failure)
                },
        },
    decreases entries.len(),
{
    if entries.len() > 0 {
        let first = entries.drop_last();
        lemma_entry_songs(first);
        match crate::search::entry_songs(first) {
            Ok(songs) => match crate::search::entry_song(entries.last()) {
                Ok(song) => {
                    let all = songs.push(song);
                    assert forall|k: int| 0 <= k < entries.len() implies crate::search::entry_song(
                        #[trigger] entries[k],
                    ) == Ok::<SongView, FailureView>(all[k]) by {
                        if k < first.len() {
                            assert(first[k] == entries[k]);
                        }
                    }
                },
                Err(failure) => {
                    assert(crate::search::entry_song(entries[entries.len() - 1]) == Err::<
                        SongView,
                        FailureView,
                    >(failure));
                },
            },
            Err(failure) => {
                let k = choose|k: int|
                    {
                        &&& 0 <= k < first.len()
                        &&& crate::search::entry_song(#[trigger] first[k]) == Err::<
                            SongView,
                            FailureView,
                        >(failure)
                    };
                assert(entries[k] == first[k]);
            },
        }
    }
}

/// What is no list of results is no answer to a search.
pub proof fn a_search_needs_a_list(root: JsonView)
    requires
        !(root.member("entries"@) matches Some(JsonView::Array(_))),
    ensures
        crate::search::search_songs(root) matches Err(failure) && failure.code
            == "yt_dlp_invalid_response"@,
{
}

// ---------------------------------------------------------------------------
// Imports
// ---------------------------------------------------------------------------

/// Whether an entry can be read.
pub open spec fn is_readable(entry: JsonView) -> bool {
    says_something(entry, "id"@)
}

/// Whether `picks` are the places of the readable entries, from the first to the
/// last, and `songs` are their songs.
pub open spec fn picks_readable(
    entries: Seq<JsonView>,
    picks: Seq<int>,
    songs: Seq<SongView>,
) -> bool {
    &&& picks.len() == songs.len()
    &&& forall|k: int|
        0 <= k < picks.len() ==> {
            &&& 0 <= #[trigger] picks[k] < entries.len()
            &&& is_readable(entries[picks[k]])
            &&& crate::search::entry_song(entries[picks[k]]) == Ok::<SongView, FailureView>(
                songs[k],
            )
        }
    &&& forall|k: int, l: int|
        0 <= k < l < picks.len() ==> #[trigger] picks[k] < #[trigger] picks[l]
    &&& forall|i: int|
        0 <= i < entries.len() && is_readable(#[trigger] entries[i]) ==> picks.contains(i)
}

/// The songs of a playlist are those of its readable entries, each once, in the
/// order of the playlist; where all can be read, the song at each place is that of
/// the entry there.
pub proof fn a_playlist_keeps_its_order(
    root: JsonView,
    entries: Seq<JsonView>,
    canonical_url: Seq<char>,
    found: ResolutionView,
)
    requires
        root.member("entries"@) == Some(JsonView::Array(entries)),
        crate::search::import_resolution(root, canonical_url) == Ok::<ResolutionView, FailureView>(
            found,
        ),
    ensures
        exists|picks: Seq<int>| #[trigger] picks_readable(entries, picks, found.songs),
        (forall|i: int| 0 <= i < entries.len() ==> is_readable(#[trigger] entries[i])) ==> {
            &&& found.songs.len() == entries.len()
            &&& forall|k: int|
                0 <= k < entries.len() ==> {
                    &&& (#[trigger] entries[k]).member("id"@) matches Some(JsonView::Text(id))
                    &&& found.songs[k].id == "youtube:"@ + id
                }
        },
        found.songs.len() > 0,
        found.canonical_url == canonical_url,
{
    let picks = lemma_picks(entries);
    assert(picks_readable(entries, picks, found.songs));
    if forall|i: int| 0 <= i < entries.len() ==> is_readable(#[trigger] entries[i]) {
        lemma_all_readable(entries);
    }
}

proof fn lemma_picks(entries: Seq<JsonView>) -> (picks: Seq<int>)
    ensures
        picks_readable(entries, picks, crate::search::readable_songs(entries)),
    decreases entries.len(),
{
    if entries.len() == 0 {
        Seq::empty()
    } else {
        let first = entries.drop_last();
        let earlier = lemma_picks(first);
        let songs = crate::search::readable_songs(first);
        let last = entries.len() - 1;
        assert(forall|i: int| 0 <= i < first.len() ==> #[trigger] entries[i] == first[i]);
        match crate::search::entry_song(entries.last()) {
            Ok(song) => {
                let picks = earlier.push(last);
                let all = songs.push(song);
                assert(picks[picks.len() - 1] == last);
                assert forall|k: int| 0 <= k < picks.len() implies {
                    &&& 0 <= #[trigger] picks[k] < entries.len()
                    &&& is_readable(entries[picks[k]])
                    &&& crate::search::entry_song(entries[picks[k]]) == Ok::<
                        SongView,
                        FailureView,
                    >(all[k])
                } by {
                    if k < earlier.len() {
                        assert(picks[k] == earlier[k]);
                        assert(entries[earlier[k]] == first[earlier[k]]);
                    }
                }
                assert forall|k: int, l: int| 0 <= k < l < picks.len() implies #[trigger] picks[k]
                    < #[trigger] picks[l] by {
                    if l < earlier.len() {
                        assert(earlier[k] < earlier[l]);
                    } else {
                        assert(picks[k] == earlier[k]);
                    }
                }
                assert forall|i: int|
                    0 <= i < entries.len() && is_readable(
                        #[trigger] entries[i],
                    ) implies picks.contains(i) by {
                    if i < last {
                        assert(first[i] == entries[i]);
                        assert(earlier.contains(i));
                        let k = choose|k: int| 0 <= k < earlier.len() && earlier[k] == i;
                        assert(picks[k] == i);
                    } else {
                        assert(picks[picks.len() - 1] == i);
                    }
                }
                picks
            },
            Err(_) => {
                assert forall|i: int|
                    0 <= i < entries.len() && is_readable(
                        #[trigger] entries[i],
                    ) implies earlier.contains(i) by {
                    if i < last {
                        assert(first[i] == entries[i]);
                    }
                }
                assert forall|k: int| 0 <= k < earlier.len() implies {
                    &&& 0 <= #[trigger] earlier[k] < entries.len()
                    &&& is_readable(entries[earlier[k]])
                    &&& crate::search::entry_song(entries[earlier[k]]) == Ok::<
                        SongView,
                        FailureView,
                    >(songs[k])
                } by {
                    assert(entries[earlier[k]] == first[earlier[k]]);
                }
                earlier
            },
        }
    }
}

proof fn lemma_all_readable(entries: Seq<JsonView>)
    requires
        forall|i: int| 0 <= i < entries.len() ==> is_readable(#[trigger] entries[i]),
    ensures
        crate::search::readable_songs(entries).len() == entries.len(),
        forall|k: int|
            0 <= k < entries.len() ==> {
                &&& (#[trigger] entries[k]).member("id"@) matches Some(JsonView::Text(id))
                &&& crate::search::readable_songs(entries)[k].id == "youtube:"@ + id
            },
    decreases entries.len(),
{
    if entries.len() > 0 {
        let first = entries.drop_last();
        assert forall|i: int| 0 <= i < first.len() implies is_readable(#[trigger] first[i]) by {
            assert(first[i] == entries[i]);
        }
        lemma_all_readable(first);
        assert(is_readable(entries[entries.len() - 1]));
        assert forall|k: int| 0 <= k < entries.len() implies {
            &&& (#[trigger] entries[k]).member("id"@) matches Some(JsonView::Text(id))
            &&& crate::search::readable_songs(entries)[k].id == "youtube:"@ + id
        } by {
            if k < first.len() {
                assert(first[k] == entries[k]);
            }
        }
    }
}

/// A playlist counts as many as it claims, or else as many as it has; the entries
/// that are missing from its songs have failed.
pub proof fn a_playlist_counts_what_is_missing(
    root: JsonView,
    entries: Seq<JsonView>,
    canonical_url: Seq<char>,
    claimed: JsonNumber,
)
    requires
        root.member("entries"@) == Some(JsonView::Array(entries)),
        entries.len() <= u64::MAX,
    ensures
        match crate::search::import_resolution(root, canonical_url) {
            Ok(found) => {
                &&& root.member("playlist_count"@) == Some(JsonView::Number(claimed))
                    && claimed.whole is Some ==> found.total_count == claimed.whole->0
                &&& root.member("playlist_count"@) is None ==> found.total_count == entries.len()
                &&& found.total_count >= found.songs.len() ==> found.failed_count
                    + found.songs.len() == found.total_count
                &&& found.total_count < found.songs.len() ==> found.failed_count == 0
            },
            Err(failure) => {
                &&& failure.code == "yt_dlp_failed"@
                &&& forall|i: int|
                    0 <= i < entries.len() ==> !is_readable(#[trigger] entries[i])
            },
        },
{
    let picks = lemma_picks(entries);
    if crate::search::readable_songs(entries).len() == 0 {
        assert forall|i: int| 0 <= i < entries.len() implies !is_readable(
            #[trigger] entries[i],
        ) by {
            if is_readable(entries[i]) {
                assert(picks.contains(i));
            }
        }
    }
}

/// A single video is one song: under its id, title and channel, as long as it
/// says, at the canonical address of its video. Whatever of these is missing
/// fails the import.
pub proof fn a_video_is_one_song(
    root: JsonView,
    canonical_url: Seq<char>,
    id: Seq<char>,
    title: Seq<char>,
)
    requires
        !(root.member("entries"@) matches Some(JsonView::Array(_))),
    ensures
        match crate::search::import_resolution(root, canonical_url) {
            Ok(found) => {
                &&& found.songs.len() == 1
                &&& found.total_count == 1
                &&& found.failed_count == 0
                &&& found.canonical_url == canonical_url
                &&& says_something(root, "id"@) && says_something(root, "title"@)
                &&& says(root, "id"@, id) ==> {
                    &&& found.songs[0].id == "youtube:"@ + id
                    &&& found.songs[0].source_url == "https://www.youtube.com/watch?v="@ + id
                    &&& id.len() == 11
                }
                &&& says(root, "title"@, title) ==> found.songs[0].title == title
                &&& says_something(root, "channel"@) ==> root.member("channel"@) == Some(
                    JsonView::Text(found.songs[0].channel_name),
                )
                &&& root.member("channel"@) is None ==> root.member("uploader"@) == Some(
                    JsonView::Text(found.songs[0].channel_name),
                )
                &&& found.songs[0].channel_name.len() > 0
                &&& found.songs[0].duration_ms > 0
                &&& root.member("duration"@) matches Some(JsonView::Number(number))
                &&& number.double_bits matches Some(bits)
                &&& found.songs[0].duration_ms == crate::seconds::millis_of_seconds(bits)
            },
            Err(failure) => failure.code == "yt_dlp_invalid_response"@,
        },
{
    lemma_watch_url(id);
}

proof fn lemma_watch_url(id: Seq<char>)
    ensures
        crate::youtube::watch_url(id) == "https://www.youtube.com/watch?v="@ + id,
{
    reveal_strlit("https://");
    reveal_strlit("www.youtube.com");
    reveal_strlit("/watch");
    reveal_strlit("?v=");
    reveal_strlit("https://www.youtube.com/watch?v=");
    assert("https://"@ + crate::youtube::YOUTUBE_CANONICAL_HOST@
        + crate::youtube::YOUTUBE_WATCH_PATH@ + "?v="@ =~= "https://www.youtube.com/watch?v="@);
}

// ---------------------------------------------------------------------------
// Addresses
// ---------------------------------------------------------------------------

/// Whether a text can be the id of a video: eleven letters, digits, underscores or
/// hyphens.
pub open spec fn looks_like_an_id(id: Seq<char>) -> bool {
    id.len() == 11 && forall|i: int|
        0 <= i < 11 ==> {
            let c = #[trigger] id[i];
            'a' <= c <= 'z' || 'A' <= c <= 'Z' || '0' <= c <= '9' || c == '_' || c == '-'
        }
}

/// However a video is linked, its canonical address is the same: that of its id.
pub proof fn every_link_leads_to_the_video(url: ParsedUrlView, id: Seq<char>)
    requires
        looks_like_an_id(id),
    ensures
        url.host == Some("youtu.be"@) && url.path == "/"@ + id ==> crate::youtube::canonical_of(url)
            == Ok::<Seq<char>, FailureView>("https://www.youtube.com/watch?v="@ + id),
        (url.host == Some("www.youtube.com"@) || url.host == Some("youtube.com"@)) && url.path
            == "/watch"@ && url.query.len() > 0 && url.query[0] == ("v"@, id)
            ==> crate::youtube::canonical_of(url) == Ok::<Seq<char>, FailureView>(
            "https://www.youtube.com/watch?v="@ + id,
        ),
{
    lemma_watch_url(id);
    lemma_hosts();
    assert(crate::youtube::video_id(id));
    if url.path == "/"@ + id {
        reveal_strlit("/");
        assert(url.path[0] == '/');
        assert(url.path.drop_first() =~= id);
        assert(id[0] != '/');
        reveal_with_fuel(crate::youtube::without_slashes, 2);
    }
}

proof fn lemma_hosts()
    ensures
        crate::text::ascii_lower("youtu.be"@) == "youtu.be"@,
        crate::text::ascii_lower("www.youtube.com"@) == "www.youtube.com"@,
        crate::text::ascii_lower("youtube.com"@) == "youtube.com"@,
        "youtu.be"@ != "www.youtube.com"@,
        "youtu.be"@ != "youtube.com"@,
        "/watch"@ != "/playlist"@,
{
    reveal_strlit("youtu.be");
    reveal_strlit("www.youtube.com");
    reveal_strlit("youtube.com");
    reveal_strlit("/watch");
    reveal_strlit("/playlist");
    assert(crate::text::ascii_lower("youtu.be"@) =~= "youtu.be"@);
    assert(crate::text::ascii_lower("www.youtube.com"@) =~= "www.youtube.com"@);
    assert(crate::text::ascii_lower("youtube.com"@) =~= "youtube.com"@);
    assert("youtu.be"@.len() != "www.youtube.com"@.len());
    assert("youtu.be"@.len() != "youtube.com"@.len());
    assert("/watch"@.len() != "/playlist"@.len());
}

/// A playlist is known by its list, and nothing else can be imported: another
/// host, another path, or a link without the id that it should have.
pub proof fn only_videos_and_playlists_are_supported(url: ParsedUrlView, list: Seq<char>)
    ensures
        url.host == Some("www.youtube.com"@) && url.path == "/playlist"@ && url.query.len() > 0
            && url.query[0] == ("list"@, list) && list.len() > 0 ==> crate::youtube::canonical_of(
            url,
        ) == Ok::<Seq<char>, FailureView>("https://www.youtube.com/playlist?list="@ + list),
        url.host is None ==> {
            &&& crate::youtube::canonical_of(url) matches Err(failure)
            &&& failure.code == "youtube_url_invalid"@
        },
        url.host == Some("www.youtube.com"@) && url.path != "/playlist"@ && url.path != "/watch"@
            ==> {
            &&& crate::youtube::canonical_of(url) matches Err(failure)
            &&& failure.code == "youtube_url_unsupported"@
        },
        crate::youtube::canonical_of(url) matches Ok(canonical) ==> {
            ||| exists|id: Seq<char>| #[trigger]
                looks_like_an_id(id) && canonical == "https://www.youtube.com/watch?v="@ + id
            ||| exists|id: Seq<char>|
                id.len() > 0 && canonical == #[trigger] ("https://www.youtube.com/playlist?list="@
                    + id)
        },
{
    lemma_hosts();
    reveal_strlit("https://");
    reveal_strlit("www.youtube.com");
    reveal_strlit("/playlist?list=");
    reveal_strlit("https://www.youtube.com/playlist?list=");
    assert("https://"@ + crate::youtube::YOUTUBE_CANONICAL_HOST@ + "/playlist?list="@
        =~= "https://www.youtube.com/playlist?list="@);
    match crate::youtube::canonical_of(url) {
        Ok(canonical) => {
            let host = crate::text::ascii_lower(url.host->0);
            if host == crate::youtube::YOUTU_BE_HOST@ {
                let id = crate::youtube::without_slashes(url.path);
                lemma_watch_url(id);
                assert(looks_like_an_id(id));
            } else if url.path == "/playlist"@ {
                let id = crate::youtube::query_value(url.query, "list"@)->0;
                assert(canonical == "https://www.youtube.com/playlist?list="@ + id);
            } else {
                let id = crate::youtube::query_value(url.query, "v"@)->0;
                lemma_watch_url(id);
                assert(looks_like_an_id(id));
            }
        },
        Err(_) => {},
    }
}

// ---------------------------------------------------------------------------
// Durations
// ---------------------------------------------------------------------------

/// The milliseconds of a double that counts seconds are the nearest whole number
/// to a thousand times its value, but for what doubles cannot tell apart: twice
/// the difference, in the units of the double, is at most one millisecond and the
/// spacing of doubles at the product.
pub proof fn milliseconds_are_a_thousand_to_the_second(bits: u64)
    requires
        bits < crate::seconds::SIGN_BIT,
        crate::seconds::exponent_field(bits) < 1053,
    ensures
        ({
            let unit = pow2((-crate::seconds::scale(bits)) as nat) as int;
            let exact = crate::seconds::significand(bits) * 1000;
            let told = crate::seconds::millis_of_seconds(bits) * unit;
            &&& 2 * told - 2 * exact <= unit + 1024
            &&& 2 * exact - 2 * told <= unit + 1024
        }),
{
    let product = crate::seconds::significand(bits) * 1000;
    let x = crate::seconds::excess_bits(product);
    lemma_excess(product);
    let e = crate::seconds::scale(bits);
    assert(e < -11);
    let k = e + x;
    let spacing = pow2(x) as int;
    let rounded = crate::seconds::nearest_even(product, spacing);
    let d = pow2((-k) as nat) as int;
    let unit = pow2((-e) as nat) as int;
    vstd::arithmetic::power2::lemma_pow2_pos(x);
    vstd::arithmetic::power2::lemma_pow2_pos((-k) as nat);
    vstd::arithmetic::power2::lemma_pow2_adds(x, (-k) as nat);
    assert(unit == spacing * d);
    assert(2 * (rounded * spacing) - 2 * product <= spacing && 2 * product - 2 * (rounded * spacing)
        <= spacing) by {
        lemma_nearest_even(product, spacing);
    }
    let millis = crate::seconds::nearest_up(rounded, k);
    assert(2 * (millis * d) - 2 * rounded <= d && 2 * rounded - 2 * (millis * d) <= d && millis
        >= 0) by {
        lemma_nearest_up(rounded, d);
    }
    assert(millis < 0x1_0000_0000_0000_0000) by {
        vstd::arithmetic::power2::lemma2_to64();
        assert(rounded <= product + spacing) by (nonlinear_arith)
            requires
                2 * (rounded * spacing) - 2 * product <= spacing,
                spacing >= 1,
                product >= 0,
        ;
        assert(millis <= rounded + 1) by (nonlinear_arith)
            requires
                2 * (millis * d) - 2 * rounded <= d,
                d >= 1,
                rounded >= 0,
        ;
    }
    assert(2 * (millis * unit) - 2 * product <= unit + 1024 && 2 * product - 2 * (millis * unit)
        <= unit + 1024) by (nonlinear_arith)
        requires
            unit == spacing * d,
            2 * (millis * d) - 2 * rounded <= d,
            2 * rounded - 2 * (millis * d) <= d,
            2 * (rounded * spacing) - 2 * product <= spacing,
            2 * product - 2 * (rounded * spacing) <= spacing,
            1 <= spacing <= 1024,
    ;
}

proof fn lemma_nearest_even(p: int, d: int)
    requires
        d >= 1,
        p >= 0,
    ensures
        2 * (crate::seconds::nearest_even(p, d) * d) - 2 * p <= d,
        2 * p - 2 * (crate::seconds::nearest_even(p, d) * d) <= d,
        crate::seconds::nearest_even(p, d) >= 0,
{
    let q = p / d;
    let r = p % d;
    vstd::arithmetic::div_mod::lemma_fundamental_div_mod(p, d);
    assert(p == d * q + r && 0 <= r < d && q >= 0) by (nonlinear_arith)
        requires
            p == d * (p / d) + (p % d),
            q == p / d,
            r == p % d,
            d >= 1,
            p >= 0,
    ;
    assert((q + 1) * d == d * q + d) by (nonlinear_arith);
    assert(q * d == d * q) by (nonlinear_arith);
}

proof fn lemma_nearest_up(m: int, d: int)
    requires
        d >= 1,
        m >= 0,
    ensures
        ({
            let r = (2 * m + d) / (2 * d);
            &&& 2 * (r * d) - 2 * m <= d
            &&& 2 * m - 2 * (r * d) <= d
            &&& r >= 0
        }),
{
    let r = (2 * m + d) / (2 * d);
    let rest = (2 * m + d) % (2 * d);
    vstd::arithmetic::div_mod::lemma_fundamental_div_mod(2 * m + d, 2 * d);
    assert(2 * m + d == 2 * (r * d) + rest && 0 <= rest < 2 * d && r >= 0) by (nonlinear_arith)
        requires
            2 * m + d == (2 * d) * r + rest,
            r == (2 * m + d) / (2 * d),
            rest == (2 * m + d) % (2 * d),
            d >= 1,
            m >= 0,
    ;
}

proof fn lemma_excess(p: int)
    requires
        0 <= p < crate::seconds::SIGNIFICAND_END * 1024,
    ensures
        crate::seconds::excess_bits(p) <= 10,
        pow2(crate::seconds::excess_bits(p)) <= 1024,
{
    reveal_with_fuel(crate::seconds::excess_bits, 12);
    vstd::arithmetic::power2::lemma2_to64();
}

/// A double is read as its format has it: the exponent and the fraction make up
/// its bits again.
pub proof fn a_double_is_its_exponent_and_fraction(bits: u64)
    requires
        bits < crate::seconds::SIGN_BIT,
        0 < crate::seconds::exponent_field(bits),
    ensures
        crate::seconds::scale(bits) + 1075 == bits as int / 0x10_0000_0000_0000,
        0x10_0000_0000_0000 <= crate::seconds::significand(bits) < 0x20_0000_0000_0000,
        bits == (crate::seconds::scale(bits) + 1075) * 0x10_0000_0000_0000
            + crate::seconds::significand(bits) - 0x10_0000_0000_0000,
{
}

/// A whole number of seconds is exactly a thousand times as many milliseconds.
pub proof fn whole_seconds_are_exact(bits: u64, seconds: int)
    requires
        bits < crate::seconds::SIGN_BIT,
        crate::seconds::exponent_field(bits) < 1053,
        crate::seconds::significand(bits) == seconds * pow2(
            (-crate::seconds::scale(bits)) as nat,
        ),
    ensures
        crate::seconds::millis_of_seconds(bits) == seconds * 1000,
{
    milliseconds_are_a_thousand_to_the_second(bits);
    let n = (-crate::seconds::scale(bits)) as nat;
    let unit = pow2(n) as int;
    let millis = crate::seconds::millis_of_seconds(bits) as int;
    vstd::arithmetic::power2::lemma2_to64();
    vstd::arithmetic::power2::lemma_pow2_strictly_increases(11, n);
    assert(unit > 2048);
    assert(millis == seconds * 1000) by (nonlinear_arith)
        requires
            unit > 2048,
            2 * (millis * unit) - 2 * ((seconds * unit) * 1000) <= unit + 1024,
            2 * ((seconds * unit) * 1000) - 2 * (millis * unit) <= unit + 1024,
    ;
}

/// What is negative or not finite lasts for nothing.
pub proof fn odd_durations_are_none(bits: u64)
    requires
        bits >= crate::seconds::SIGN_BIT || crate::seconds::exponent_field(bits) == 2047,
    ensures
        crate::seconds::millis_of_seconds(bits) == 0,
{
}

} // verus!
