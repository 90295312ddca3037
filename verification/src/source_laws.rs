//! Laws of what the player works on: the sources that can be played, the provider
//! that is asked, and the names and places of things.

use vstd::prelude::*;

use crate::domain::Song;
use crate::ids::LocalIdGenerator;
use crate::ports::{IdGeneratorPort, IdKind};
use crate::search::{
    ImportPlan, ProviderRun, SearchPlan, SearchRuntimeView, SpawnFault, YoutubeImportResolution,
};
use crate::settings::KnownPlaces;
use crate::youtube::{LocalSearchFailure, ParsedUrlView};

verus! {

// ---------------------------------------------------------------------------
// Sources
// ---------------------------------------------------------------------------

proof fn lemma_not_trimmed(s: Seq<char>)
    requires
        s.len() > 0,
        !crate::text::white_space(s[0]),
        !crate::text::white_space(s.last()),
    ensures
        crate::text::trimmed(s) == s,
{
}

proof fn lemma_id_run(s: Seq<char>)
    requires
        forall|i: int| 0 <= i < s.len() ==> crate::youtube::id_char(#[trigger] s[i]),
    ensures
        crate::youtube::id_len(s) == s.len(),
    decreases s.len(),
{
    if s.len() > 0 {
        assert(crate::youtube::id_char(s[0]));
        let rest = s.drop_first();
        assert forall|i: int| 0 <= i < rest.len() implies crate::youtube::id_char(
            #[trigger] rest[i],
        ) by {
            assert(rest[i] == s[i + 1]);
        }
        lemma_id_run(rest);
    }
}

/// A watch link and a short link with an id are played, in whatever letters the id
/// is written; the id has eleven characters, no more and no fewer.
pub proof fn links_with_an_id_are_played(id: Seq<char>)
    requires
        id.len() > 0,
        forall|i: int|
            0 <= i < id.len() ==> ({
                let c = #[trigger] id[i];
                'a' <= c <= 'z' || 'A' <= c <= 'Z' || '0' <= c <= '9' || c == '-' || c == '_'
            }),
    ensures
        crate::youtube::playable_source("https://www.youtube.com/watch?v="@ + id) <==> id.len()
            == 11,
        id.len() == 11 ==> crate::youtube::playable_source("https://youtu.be/"@ + id),
        crate::youtube::youtube_source("https://www.youtube.com/watch?v="@ + id),
        crate::youtube::youtube_source("https://youtu.be/"@ + id),
{
    reveal_strlit("https://www.youtube.com/watch?v=");
    reveal_strlit("youtube.com/watch?v=");
    reveal_strlit("https://youtu.be/");
    reveal_strlit("youtu.be/");
    reveal_strlit("youtube.com");
    reveal_strlit("youtu.be");
    let small = crate::text::ascii_lower(id);
    assert forall|i: int| 0 <= i < small.len() implies crate::youtube::id_char(
        #[trigger] small[i],
    ) by {
        let c = id[i];
        assert(crate::text::ascii_lower_char(c) == small[i]);
    }
    lemma_id_run(small);
    assert(small.take(small.len() as int) =~= small);

    let lead = "https://www.youtube.com/watch?v="@;
    let link = lead + id;
    lemma_not_trimmed(link);
    let s = crate::youtube::normal_source(link);
    assert(s =~= lead + small);
    let marker = "youtube.com/watch?v="@;
    assert(s.subrange(12, 32) =~= marker);
    assert(crate::text::occurs_at(s, marker, 12));
    assert forall|j: int| 0 <= j < 12 implies !crate::text::occurs_at(s, marker, j) by {
        if crate::text::occurs_at(s, marker, j) {
            assert(s.subrange(j, j + marker.len())[0] == s[j]);
            assert(s[j] == lead[j]);
            assert(marker[0] == 'y');
        }
    }
    assert(s.skip(32) =~= small);
    assert forall|at: int| #[trigger]
        crate::text::occurs_at(s, marker, at) && (forall|j: int|
            0 <= j < at ==> !crate::text::occurs_at(s, marker, j)) implies at == 12 by {
        if at > 12 {
            assert(!crate::text::occurs_at(s, marker, 12));
        }
    }
    assert(s.subrange(12, 23) =~= "youtube.com"@);
    assert(crate::text::occurs_at(s, "youtube.com"@, 12));

    let short_lead = "https://youtu.be/"@;
    let short = short_lead + id;
    lemma_not_trimmed(short);
    let t = crate::youtube::normal_source(short);
    assert(t =~= short_lead + small);
    let sign = "youtu.be/"@;
    assert(t.subrange(8, 17) =~= sign);
    assert(crate::text::occurs_at(t, sign, 8));
    assert forall|j: int| 0 <= j < 8 implies !crate::text::occurs_at(t, sign, j) by {
        if crate::text::occurs_at(t, sign, j) {
            assert(t.subrange(j, j + sign.len())[0] == t[j]);
            assert(t[j] == short_lead[j]);
            assert(sign[0] == 'y');
        }
    }
    assert(t.skip(17) =~= small);
    assert(t.subrange(8, 16) =~= "youtu.be"@);
    assert(crate::text::occurs_at(t, "youtu.be"@, 8));
    if id.len() == 11 {
        assert forall|at: int| !#[trigger] crate::text::occurs_at(t, marker, at) by {
            if crate::text::occurs_at(t, marker, at) {
                let part = t.subrange(at, at + marker.len());
                assert(part[0] == t[at]);
                assert(part[5] == t[at + 5]);
                assert(at <= 8);
                assert(t[at] == short_lead[at]);
                assert(marker[0] == 'y' && marker[5] == 'b');
                assert(at == 8);
                assert(t[13] == short_lead[13]);
            }
        }
    }
}

/// Only sources of YouTube are played: everything else is simulated.
pub proof fn only_sources_of_youtube_are_played(url: Seq<char>)
    requires
        crate::youtube::playable_source(url),
    ensures
        crate::youtube::youtube_source(url),
{
    reveal_strlit("youtube.com/watch?v=");
    reveal_strlit("youtu.be/");
    reveal_strlit("youtube.com");
    reveal_strlit("youtu.be");
    let s = crate::youtube::normal_source(url);
    if crate::text::occurs_in(s, "youtube.com/watch?v="@) {
        let at = choose|at: int| #[trigger]
            crate::text::occurs_at(s, "youtube.com/watch?v="@, at);
        let whole = s.subrange(at, at + 20);
        assert(whole == "youtube.com/watch?v="@);
        assert(s.subrange(at, at + 11) =~= whole.take(11));
        assert(whole.take(11) =~= "youtube.com"@);
        assert(crate::text::occurs_at(s, "youtube.com"@, at));
    } else {
        let at = choose|at: int| #[trigger] crate::text::occurs_at(s, "youtu.be/"@, at);
        let whole = s.subrange(at, at + 9);
        assert(whole == "youtu.be/"@);
        assert(s.subrange(at, at + 8) =~= whole.take(8));
        assert(whole.take(8) =~= "youtu.be"@);
        assert(crate::text::occurs_at(s, "youtu.be"@, at));
    }
}

// ---------------------------------------------------------------------------
// The provider
// ---------------------------------------------------------------------------

/// The provider is asked for five results of the query as it is, and for a URL as
/// it is, in one document and without a download.
pub proof fn the_provider_is_asked_as_it_was_meant(query: Seq<char>, url: Seq<char>)
    ensures
        crate::search::asks_for(query).last() == "ytsearch5:"@ + query,
        crate::search::asks_for(query).contains("--dump-single-json"@),
        crate::search::asks_for(query).contains("--flat-playlist"@),
        crate::search::asks_for(query).contains("--skip-download"@),
        crate::search::resolves(url).last() == url,
        crate::search::resolves(url).contains("--dump-single-json"@),
        crate::search::resolves(url).contains("--skip-download"@),
{
    reveal_strlit("ytsearch");
    reveal_strlit(":");
    reveal_strlit("ytsearch5:");
    crate::text_laws::a_number_is_written_with_its_digits(5, 0);
    let five = crate::text::decimal(5);
    assert(five =~= seq!['5']);
    let asked = crate::search::asks_for(query);
    assert(asked.last() =~= "ytsearch5:"@ + query);
    assert(asked[0] == "--dump-single-json"@);
    assert(asked[1] == "--flat-playlist"@);
    assert(asked[4] == "--skip-download"@);
    let resolved = crate::search::resolves(url);
    assert(resolved[0] == "--dump-single-json"@);
    assert(resolved[3] == "--skip-download"@);
}

/// A search succeeds only where the provider has finished and its output can be
/// read; else the code of the failure says how far it came.
pub proof fn only_a_readable_answer_is_a_success(
    run: ProviderRun,
    result: Result<Vec<Song>, LocalSearchFailure>,
)
    requires
        crate::search::search_came_to(run, result),
    ensures
        result is Ok ==> run is Finished,
        run == ProviderRun::NotStarted(SpawnFault::Missing) ==> (result matches Err(failure)
            && failure.code@ == "yt_dlp_missing"@),
        run == ProviderRun::NotStarted(SpawnFault::Other) ==> (result matches Err(failure)
            && failure.code@ == "yt_dlp_spawn_failed"@),
        run is Failed ==> (result matches Err(failure) && failure.code@ == "yt_dlp_failed"@),
        run matches ProviderRun::Finished { stdout } ==> {
            &&& crate::json::json_document(stdout@) is None ==> (result matches Err(failure)
                && failure.code@ == "yt_dlp_invalid_json"@)
            &&& crate::json::json_document(stdout@) matches Some(root)
                ==> crate::search::songs_result(result, crate::search::search_songs(root))
        },
{
}

/// An import succeeds only where the provider has finished and its output can be
/// read; else the code of the failure says how far it came.
pub proof fn only_a_readable_resolution_is_a_success(
    run: ProviderRun,
    url: Seq<char>,
    result: Result<YoutubeImportResolution, LocalSearchFailure>,
)
    requires
        crate::search::import_came_to(run, url, result),
    ensures
        result is Ok ==> run is Finished,
        run == ProviderRun::NotStarted(SpawnFault::Missing) ==> (result matches Err(failure)
            && failure.code@ == "yt_dlp_missing"@),
        run == ProviderRun::NotStarted(SpawnFault::Other) ==> (result matches Err(failure)
            && failure.code@ == "yt_dlp_spawn_failed"@),
        run is Failed ==> (result matches Err(failure) && failure.code@ == "yt_dlp_failed"@),
        run matches ProviderRun::Finished { stdout } ==> {
            &&& crate::json::json_document(stdout@) is None ==> (result matches Err(failure)
                && failure.code@ == "yt_dlp_invalid_json"@)
            &&& crate::json::json_document(stdout@) matches Some(root)
                ==> crate::search::resolution_result(
                result,
                crate::search::import_resolution(root, url),
            )
        },
{
}

/// Searches and imports wait behind those that came before, with their own ids and
/// texts, and neither disturbs the other.
pub proof fn jobs_wait_in_their_order(
    runtime: SearchRuntimeView,
    job_id: Seq<char>,
    text: Seq<char>,
)
    ensures
        runtime.with_search(job_id, text).pending.last() == (job_id, text),
        runtime.with_search(job_id, text).pending.drop_last() == runtime.pending,
        runtime.with_search(job_id, text).pending_imports == runtime.pending_imports,
        runtime.with_import(job_id, text).pending_imports.last() == (job_id, text),
        runtime.with_import(job_id, text).pending_imports.drop_last() == runtime.pending_imports,
        runtime.with_import(job_id, text).pending == runtime.pending,
        runtime.with_search(job_id, text).fixtures == runtime.fixtures,
        runtime.with_search(job_id, text).failures == runtime.failures,
        runtime.with_import(job_id, text).fixtures == runtime.fixtures,
        runtime.with_import(job_id, text).failures == runtime.failures,
{
    assert(runtime.with_search(job_id, text).pending.drop_last() =~= runtime.pending);
    assert(runtime.with_import(job_id, text).pending_imports.drop_last()
        =~= runtime.pending_imports);
}

/// A prepared failure answers a search before prepared songs do, and these before
/// the provider; the provider is asked for the query without the white space
/// around it.
pub proof fn prepared_answers_come_first(
    runtime: SearchRuntimeView,
    query: Seq<char>,
    plan: SearchPlan,
)
    requires
        runtime.plans(query, plan),
    ensures
        ({
            let key = crate::text::unicode_lower(crate::text::trimmed(query));
            let fails = runtime.failures.contains_key(key);
            let known = runtime.fixtures.contains_key(key);
            &&& fails ==> (plan matches SearchPlan::Answered(Err(failure)) && failure
                == runtime.failures[key])
            &&& !fails && known ==> (plan matches SearchPlan::Answered(Ok(songs)) && songs@
                == runtime.fixtures[key]@)
            &&& !fails && !known ==> (plan matches SearchPlan::AskProvider { query: asked }
                && asked@ == crate::text::trimmed(query))
        }),
{
}

/// A prepared failure answers an import before prepared songs do, which are all
/// taken over; else the provider is asked for the canonical form of the URL, if it
/// has one.
pub proof fn prepared_imports_come_first(
    runtime: SearchRuntimeView,
    url: Seq<char>,
    plan: ImportPlan,
)
    requires
        runtime.plans_import(url, plan),
    ensures
        ({
            let key = crate::text::unicode_lower(crate::text::trimmed(url));
            let fails = runtime.failures.contains_key(key);
            let known = runtime.fixtures.contains_key(key);
            let canonical = crate::youtube::canonical_url(crate::text::trimmed(url));
            &&& fails ==> (plan matches ImportPlan::Answered(Err(failure)) && failure
                == runtime.failures[key])
            &&& !fails && known ==> (plan matches ImportPlan::Answered(Ok(resolution))
                && resolution.songs@ == runtime.fixtures[key]@ && resolution.total_count
                == resolution.songs@.len() && resolution.failed_count == 0)
            &&& !fails && !known ==> {
                &&& canonical matches Ok(form) ==> (plan matches ImportPlan::AskProvider {
                    canonical_url,
                } && canonical_url@ == form)
                &&& canonical matches Err(refusal) ==> (plan matches ImportPlan::Answered(
                    Err(failure),
                ) && failure@ == refusal)
            }
        }),
{
}

// ---------------------------------------------------------------------------
// Names and places
// ---------------------------------------------------------------------------

proof fn lemma_lead(kind: IdKind)
    ensures
        crate::ids::id_prefix(kind) + "_"@ == match kind {
            IdKind::Command => "cmd_"@,
            IdKind::Event => "evt_"@,
            IdKind::Snapshot => "snap_"@,
            IdKind::PlaybackSession => "playback_session_"@,
            IdKind::QueueItem => "queue_item_"@,
            IdKind::SearchJob => "job_"@,
        },
{
    reveal_strlit("_");
    match kind {
        IdKind::Command => {
            reveal_strlit("cmd");
            reveal_strlit("cmd_");
            assert("cmd"@ + "_"@ =~= "cmd_"@);
        },
        IdKind::Event => {
            reveal_strlit("evt");
            reveal_strlit("evt_");
            assert("evt"@ + "_"@ =~= "evt_"@);
        },
        IdKind::Snapshot => {
            reveal_strlit("snap");
            reveal_strlit("snap_");
            assert("snap"@ + "_"@ =~= "snap_"@);
        },
        IdKind::PlaybackSession => {
            reveal_strlit("playback_session");
            reveal_strlit("playback_session_");
            assert("playback_session"@ + "_"@ =~= "playback_session_"@);
        },
        IdKind::QueueItem => {
            reveal_strlit("queue_item");
            reveal_strlit("queue_item_");
            assert("queue_item"@ + "_"@ =~= "queue_item_"@);
        },
        IdKind::SearchJob => {
            reveal_strlit("job");
            reveal_strlit("job_");
            assert("job"@ + "_"@ =~= "job_"@);
        },
    }
}

/// An identifier begins with the word for its kind, ends with its number, and has
/// at least four digits.
pub proof fn an_identifier_tells_its_kind(kind: IdKind, number: nat)
    ensures
        ({
            let id = crate::ids::numbered_id(kind, number);
            let written = crate::text::decimal(number);
            &&& kind is Command ==> crate::text::has_prefix(id, "cmd_"@)
            &&& kind is Event ==> crate::text::has_prefix(id, "evt_"@)
            &&& kind is Snapshot ==> crate::text::has_prefix(id, "snap_"@)
            &&& kind is PlaybackSession ==> crate::text::has_prefix(id, "playback_session_"@)
            &&& kind is QueueItem ==> crate::text::has_prefix(id, "queue_item_"@)
            &&& kind is SearchJob ==> crate::text::has_prefix(id, "job_"@)
            &&& crate::server_laws::ends_with(id, written)
            &&& id.len() >= crate::ids::id_prefix(kind).len() + 5
        }),
{
    let id = crate::ids::numbered_id(kind, number);
    let written = crate::text::decimal(number);
    let digits = crate::text::zero_padded(written, 4);
    crate::text_laws::a_number_is_written_with_its_digits(number, 4);
    let lead = crate::ids::id_prefix(kind) + "_"@;
    crate::text_laws::parts_occur(Seq::empty(), lead, digits);
    lemma_lead(kind);
    assert(lead.len() == crate::ids::id_prefix(kind).len() + 1) by {
        reveal_strlit("_");
    }
    let zeros = digits.len() - written.len();
    assert(id.skip(id.len() - written.len()) =~= digits.skip(zeros));
}

/// The settings lie where the user says; else in the configuration of the user on
/// the platform; and only where there is none, beside the program.
pub proof fn settings_lie_where_the_user_says(known: KnownPlaces)
    ensures
        ({
            let base = crate::settings::chosen_base(known);
            &&& base is Named <==> known.named
            &&& base is AppData <==> !known.named && known.windows && known.app_data
            &&& base is XdgConfigHome <==> !known.named && !known.windows && known.xdg_config_home
            &&& base is Home <==> !known.named && !known.windows && !known.xdg_config_home
                && known.home
        }),
{
}

/// Below the place that the user has named there is nothing between it and the
/// files; below any other there is a directory of the player's own.
pub proof fn the_player_has_a_directory_of_its_own(known: KnownPlaces)
    ensures
        ({
            let parts = crate::settings::config_parts(known);
            let base = crate::settings::chosen_base(known);
            &&& base is Named ==> parts.len() == 0
            &&& base is AppData ==> parts == seq!["Nocturne"@]
            &&& base is XdgConfigHome ==> parts == seq!["nocturne"@]
            &&& base is Home ==> parts == seq![".config"@, "nocturne"@]
            &&& base is CurrentDir ==> parts[0] == ".nocturne"@ && parts.len() == (if known.windows {
                2nat
            } else {
                1nat
            })
        }),
{
}

/// The letters in which the host of a URL is written do not matter.
pub proof fn a_host_is_known_in_any_letters(url: ParsedUrlView, host: Seq<char>)
    requires
        url.host == Some(host),
    ensures
        crate::youtube::canonical_of(url) == crate::youtube::canonical_of(
            ParsedUrlView { host: Some(crate::text::ascii_lower(host)), ..url },
        ),
{
    if host.len() > 0 {
        crate::text_laws::small_letters_stand_for_capitals(host, 0);
    } else {
        assert(crate::text::ascii_lower(crate::text::ascii_lower(host))
            =~= crate::text::ascii_lower(host));
    }
    reveal_strlit("youtube.com");
}

/// An id in a link ends where the next part of the link begins: at a further
/// parameter, a question mark, a slash or a fragment. Any other character belongs
/// to it.
pub proof fn an_id_ends_with_its_part_of_the_link(id: Seq<char>, end: char, rest: Seq<char>)
    requires
        forall|i: int| 0 <= i < id.len() ==> crate::youtube::id_char(#[trigger] id[i]),
    ensures
        end == '&' || end == '?' || end == '/' || end == '#' ==> crate::youtube::id_follows(
            id.push(end) + rest,
            0,
        ) == crate::youtube::id_follows(id, 0),
        id.len() == 11 ==> crate::youtube::id_follows(id, 0),
        id.len() != 11 ==> !crate::youtube::id_follows(id, 0),
{
    let all = id.push(end) + rest;
    assert(all.skip(0) =~= all);
    assert(id.skip(0) =~= id);
    lemma_id_run(id);
    assert(id.take(id.len() as int) =~= id);
    if end == '&' || end == '?' || end == '/' || end == '#' {
        lemma_id_part(id, end, rest);
        assert(all.take(id.len() as int) =~= id);
    }
}

proof fn lemma_id_part(id: Seq<char>, end: char, rest: Seq<char>)
    requires
        forall|i: int| 0 <= i < id.len() ==> crate::youtube::id_char(#[trigger] id[i]),
        end == '&' || end == '?' || end == '/' || end == '#',
    ensures
        crate::youtube::id_len(id.push(end) + rest) == id.len(),
    decreases id.len(),
{
    let all = id.push(end) + rest;
    if id.len() > 0 {
        let fewer = id.drop_first();
        assert forall|i: int| 0 <= i < fewer.len() implies crate::youtube::id_char(
            #[trigger] fewer[i],
        ) by {
            assert(fewer[i] == id[i + 1]);
        }
        lemma_id_part(fewer, end, rest);
        assert(all.drop_first() =~= fewer.push(end) + rest);
        assert(crate::youtube::id_char(id[0]));
        assert(all[0] == id[0]);
    } else {
        assert(all[0] == end);
    }
}

/// Identifiers are counted through, whatever their kinds: the first has the number
/// one, and each has the number behind the one before.
pub proof fn identifiers_are_counted_through(
    before: LocalIdGenerator,
    kind: IdKind,
    after: LocalIdGenerator,
    id: String,
    other: IdKind,
    last: LocalIdGenerator,
    next: String,
)
    requires
        before.count() < 18446744073709551614,
        <LocalIdGenerator as IdGeneratorPort>::issues(before, kind, after, id),
        <LocalIdGenerator as IdGeneratorPort>::issues(after, other, last, next),
    ensures
        id@ == crate::ids::numbered_id(kind, (before.count() + 1) as nat),
        next@ == crate::ids::numbered_id(other, (before.count() + 2) as nat),
        kind == other ==> id@ != next@,
{
    if kind == other {
        crate::ids::numbered_ids_differ(
            kind,
            (before.count() + 1) as nat,
            (before.count() + 2) as nat,
        );
    }
}

/// The clock tells a second of its minute, with two digits.
pub proof fn the_clock_tells_seconds(second: nat)
    requires
        second < 60,
    ensures
        ({
            let now = crate::clock::reading(second);
            &&& now.len() == 20
            &&& crate::text::has_prefix(now, "2026-04-23T12:34:"@)
            &&& now.last() == 'Z'
            &&& now[18] as int == '0' as int + second % 10
        }),
{
    reveal_strlit("2026-04-23T12:34:");
    reveal_strlit("Z");
    let written = crate::text::decimal(second);
    let digits = crate::text::zero_padded(written, 2);
    crate::text_laws::a_number_is_written_with_its_digits(second, 2);
    crate::text_laws::a_number_is_written_with_its_digits(second / 10, 0);
    assert(digits.len() == 2);
    let now = crate::clock::reading(second);
    assert(now =~= "2026-04-23T12:34:"@ + (digits + "Z"@));
    crate::text_laws::parts_occur(Seq::empty(), "2026-04-23T12:34:"@, digits + "Z"@);
    let zeros = digits.len() - written.len();
    assert(digits.skip(zeros).last() == digits[1]);
    assert(now[18] == digits[1]);
    assert(now[19] == 'Z');
}

} // verus!
