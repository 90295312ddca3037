//! What the terminal client shows: the texts of its widgets. Colours, borders and
//! the layout are the terminal's.

use vstd::prelude::*;

use crate::domain::{PlaybackStatus, QueueItem, QueueItemStatus, Song};
use crate::tui_app::{App, SearchOverlayState};

verus! {

/// How many items of the queue the main view lists.
pub const QUEUE_SUMMARY_LIMIT: usize = 8;

pub const SHORTCUTS: &'static str = "Enter search  Ctrl+P play/pause  Ctrl+Up/Down volume  Ctrl+Left previous  Ctrl+Right next  Ctrl+Q queue  F1 help  /exit quit";

// ---------------------------------------------------------------------------
// Small pieces
// ---------------------------------------------------------------------------

/// A duration as minutes and seconds.
pub open spec fn minutes_and_seconds(duration_ms: u64) -> Seq<char> {
    let seconds = duration_ms / 1000;
    crate::text::decimal((seconds / 60) as nat) + ":"@ + crate::text::zero_padded(
        crate::text::decimal((seconds % 60) as nat),
        2,
    )
}

/// Computes [`minutes_and_seconds`].
pub fn format_duration(duration_ms: u64) -> (text: String)
    ensures
        text@ == minutes_and_seconds(duration_ms),
{
    let total_seconds = duration_ms / 1000;
    let mut text = crate::text::format_decimal(total_seconds / 60);
    text.append(":");
    let seconds = crate::text::format_padded(total_seconds % 60, 2);
    text.append(seconds.as_str());
    text
}

/// How many columns a text takes: one for each character, as far as they can be
/// counted.
pub open spec fn columns(text: Seq<char>) -> u16 {
    if text.len() < u16::MAX {
        text.len() as u16
    } else {
        u16::MAX
    }
}

/// Computes [`columns`].
pub fn text_width(text: &str) -> (width: u16)
    ensures
        width == columns(text@),
{
    let count = text.unicode_len();
    if count < u16::MAX as usize {
        count as u16
    } else {
        u16::MAX
    }
}

/// A text of `count` times the same character.
pub open spec fn repeated(ch: char, count: nat) -> Seq<char> {
    Seq::new(count, |i: int| ch)
}

fn repeat_char(ch: char, count: usize) -> (text: String)
    ensures
        text@ == repeated(ch, count as nat),
{
    let mut text = String::new();
    for i in 0..count
        invariant
            text@ == repeated(ch, i as nat),
    {
        text.push(ch);
        assert(text@ =~= repeated(ch, (i + 1) as nat));
    }
    assert(text@ =~= repeated(ch, count as nat));
    text
}

/// The parts of a bar of `width` columns of which `filled` are played: brackets
/// round a played and an open part, cut short where there is no room for them.
pub open spec fn bar(filled: int, width: int) -> Seq<Seq<char>> {
    if width <= 0 {
        Seq::empty()
    } else if width == 1 {
        seq!["["@]
    } else if width == 2 {
        seq!["[]"@]
    } else {
        let inner = width - 2;
        let played = if filled < inner {
            filled
        } else {
            inner
        };
        seq![
            "["@,
            repeated('━', played as nat),
            repeated('─', (inner - played) as nat),
            "]"@,
        ]
    }
}

/// Computes [`bar`].
pub fn progress_bar(filled: usize, width: usize) -> (parts: Vec<String>)
    ensures
        crate::search::text_views(parts@) == bar(filled as int, width as int),
{
    let mut parts: Vec<String> = Vec::new();
    if width == 0 {
        assert(crate::search::text_views(parts@) =~= Seq::<Seq<char>>::empty());
        return parts;
    }
    if width == 1 {
        parts.push("[".to_owned());
        assert(crate::search::text_views(parts@) =~= seq!["["@]);
        return parts;
    }
    if width == 2 {
        parts.push("[]".to_owned());
        assert(crate::search::text_views(parts@) =~= seq!["[]"@]);
        return parts;
    }
    let inner = width - 2;
    let played = if filled < inner {
        filled
    } else {
        inner
    };
    parts.push("[".to_owned());
    parts.push(repeat_char('━', played));
    parts.push(repeat_char('─', inner - played));
    parts.push("]".to_owned());
    assert(crate::search::text_views(parts@) =~= seq![
        "["@,
        repeated('━', played as nat),
        repeated('─', (inner - played) as nat),
        "]"@,
    ]);
    parts
}

/// A bar fills its width: whatever part is played, brackets and parts take as
/// many columns as there are.
pub proof fn a_bar_fills_its_width(filled: usize, width: usize)
    requires
        width > 2,
    ensures
        ({
            let inner = width - 2;
            let played = if filled < inner {
                filled as int
            } else {
                inner
            };
            1 + repeated('━', played as nat).len() + repeated('─', (inner - played) as nat).len()
                + 1 == width
        }),
{
}

// ---------------------------------------------------------------------------
// Now playing
// ---------------------------------------------------------------------------

/// What is shown of the playback.
#[derive(Debug, PartialEq, Eq)]
pub struct NowPlaying {
    pub title: String,
    pub channel: String,
    pub state_label: String,
    pub volume_label: String,
    pub time_label: String,
    pub duration_ms: u64,
}

/// The word for what the player is doing.
pub open spec fn state_word(state: PlaybackStatus) -> Seq<char> {
    match state {
        PlaybackStatus::Stopped => "Stopped"@,
        PlaybackStatus::Loading => "Loading"@,
        PlaybackStatus::Playing => "Playing"@,
        PlaybackStatus::Paused => "Paused"@,
    }
}

/// The length against which progress is shown: that of the song, at least one
/// millisecond.
pub open spec fn shown_duration(song: Option<Song>) -> u64 {
    match song {
        Some(song) => if song.duration_ms > 1 {
            song.duration_ms
        } else {
            1
        },
        None => 1,
    }
}

/// Whether the playback widget shows the playback.
pub open spec fn shows_playback(shown: NowPlaying, app: crate::tui_app::AppView) -> bool {
    &&& shown.title@ == match app.current_song {
        Some(song) => song.title@,
        None => "Nothing queued yet"@,
    }
    &&& shown.channel@ == match app.current_song {
        Some(song) => song.channel_name@,
        None => "Add a song from search once that flow is wired."@,
    }
    &&& shown.state_label@ == state_word(app.playback.state)
    &&& shown.volume_label@ == "Vol "@ + crate::text::decimal(app.audio.volume_percent as nat)
        + "%"@
    &&& shown.duration_ms == shown_duration(app.current_song)
    &&& shown.time_label@ == minutes_and_seconds(app.display_position_ms) + " / "@
        + minutes_and_seconds(shown.duration_ms)
}

/// The texts of the playback widget.
pub fn now_playing(app: &App) -> (shown: NowPlaying)
    ensures
        shows_playback(shown, app@),
{
    let title = match &app.current_song {
        Some(song) => song.title.clone(),
        None => "Nothing queued yet".to_owned(),
    };
    let channel = match &app.current_song {
        Some(song) => song.channel_name.clone(),
        None => "Add a song from search once that flow is wired.".to_owned(),
    };
    let state_label = match app.playback.state {
        PlaybackStatus::Stopped => "Stopped",
        PlaybackStatus::Loading => "Loading",
        PlaybackStatus::Playing => "Playing",
        PlaybackStatus::Paused => "Paused",
    };
    let duration_ms = match &app.current_song {
        Some(song) => {
            if song.duration_ms > 1 {
                song.duration_ms
            } else {
                1
            }
        },
        None => 1,
    };
    let mut volume_label = "Vol ".to_owned();
    let percent = crate::text::format_decimal(app.audio.volume_percent as u64);
    volume_label.append(percent.as_str());
    volume_label.append("%");
    let mut time_label = format_duration(app.display_position_ms);
    time_label.append(" / ");
    let total = format_duration(duration_ms);
    time_label.append(total.as_str());
    NowPlaying {
        title,
        channel,
        state_label: state_label.to_owned(),
        volume_label,
        time_label,
        duration_ms,
    }
}

/// How many of the `available` columns the time takes beside the bar: its own and
/// one more, at most all of them.
pub open spec fn time_columns(time_label: Seq<char>, available: u16) -> u16 {
    let wanted = if time_label.len() < u16::MAX {
        time_label.len() + 1
    } else {
        u16::MAX as nat
    };
    if wanted < available {
        wanted as u16
    } else {
        available
    }
}

/// Computes [`time_columns`].
pub fn reserved_time_width(time_label: &str, available: u16) -> (width: u16)
    ensures
        width == time_columns(time_label@, available),
{
    let wanted = text_width(time_label).saturating_add(1);
    if wanted < available {
        wanted
    } else {
        available
    }
}

// ---------------------------------------------------------------------------
// Queue, input and status
// ---------------------------------------------------------------------------

/// What is shown of an item of the queue.
#[derive(Debug, PartialEq, Eq)]
pub struct QueueRow {
    pub marker: String,
    pub title: String,
    pub detail: String,
}

/// The sign before an item.
pub open spec fn row_marker(current: bool, status: QueueItemStatus) -> Seq<char> {
    if current {
        "▶"@
    } else {
        match status {
            QueueItemStatus::Queued => "•"@,
            QueueItemStatus::Loading => "…"@,
            QueueItemStatus::Playing => "▶"@,
            QueueItemStatus::Finished => "•"@,
            QueueItemStatus::Failed => "!"@,
        }
    }
}

/// Whether a row shows an item.
pub open spec fn shows_item(row: QueueRow, item: QueueItem, current: bool) -> bool {
    &&& row.marker@ == row_marker(current, item.status)
    &&& row.title@ == item.song.title@
    &&& row.detail@ == item.song.channel_name@ + " • "@ + minutes_and_seconds(
        item.song.duration_ms,
    )
}

fn song_detail(song: &Song) -> (detail: String)
    ensures
        detail@ == song.channel_name@ + " • "@ + minutes_and_seconds(song.duration_ms),
{
    let mut detail = song.channel_name.clone();
    detail.append(" • ");
    let duration = format_duration(song.duration_ms);
    detail.append(duration.as_str());
    detail
}

/// The texts of an item of the queue.
pub fn queue_row(app: &App, item: &QueueItem) -> (row: QueueRow)
    ensures
        shows_item(row, *item, app@.is_current(item.id@)),
{
    let marker = if app.is_current_item(item.id.as_str()) {
        "▶"
    } else {
        match item.status {
            QueueItemStatus::Queued => "•",
            QueueItemStatus::Loading => "…",
            QueueItemStatus::Playing => "▶",
            QueueItemStatus::Finished => "•",
            QueueItemStatus::Failed => "!",
        }
    };
    QueueRow {
        marker: marker.to_owned(),
        title: item.song.title.clone(),
        detail: song_detail(&item.song),
    }
}

/// What is shown of the queue in the main view: rows, and a line below them.
#[derive(Debug, PartialEq, Eq)]
pub struct QueueSummary {
    pub rows: Vec<QueueRow>,
    pub note: Option<String>,
}

/// Whether the main view shows the first items of the queue, and how many more
/// there are.
pub open spec fn shows_queue(summary: QueueSummary, app: crate::tui_app::AppView) -> bool {
    &&& summary.rows@.len() == if app.queue.len() < QUEUE_SUMMARY_LIMIT {
        app.queue.len()
    } else {
        QUEUE_SUMMARY_LIMIT as nat
    }
    &&& forall|i: int|
        0 <= i < summary.rows@.len() ==> shows_item(
            #[trigger] summary.rows@[i],
            app.queue[i],
            app.is_current(app.queue[i].id@),
        )
    &&& crate::text::opt_view(summary.note) == if app.queue.len() == 0 {
        Some("Queue is empty."@)
    } else if app.queue.len() > QUEUE_SUMMARY_LIMIT {
        Some(
            "… and "@ + crate::text::decimal((app.queue.len() - QUEUE_SUMMARY_LIMIT) as nat)
                + " more items. Open Queue with Ctrl+Q."@,
        )
    } else {
        None
    }
}

/// The texts of the queue in the main view: its first items, and how many more
/// there are.
pub fn queue_summary(app: &App) -> (summary: QueueSummary)
    ensures
        shows_queue(summary, app@),
{
    let len = app.queue.len();
    let shown = if len < QUEUE_SUMMARY_LIMIT {
        len
    } else {
        QUEUE_SUMMARY_LIMIT
    };
    let mut rows: Vec<QueueRow> = Vec::new();
    for i in 0..shown
        invariant
            shown <= app.queue@.len(),
            rows@.len() == i,
            forall|j: int|
                0 <= j < i ==> shows_item(
                    #[trigger] rows@[j],
                    app@.queue[j],
                    app@.is_current(app@.queue[j].id@),
                ),
    {
        let row = queue_row(app, &app.queue[i]);
        rows.push(row);
    }
    let note = if len == 0 {
        Some("Queue is empty.".to_owned())
    } else if len > QUEUE_SUMMARY_LIMIT {
        let mut note = "… and ".to_owned();
        let more = crate::text::format_decimal((len - QUEUE_SUMMARY_LIMIT) as u64);
        note.append(more.as_str());
        note.append(" more items. Open Queue with Ctrl+Q.");
        Some(note)
    } else {
        None
    };
    QueueSummary { rows, note }
}

/// What can be done in the queue.
pub fn queue_footer(app: &App) -> (footer: &'static str)
    ensures
        footer@ == if app@.pending_delete_confirmation {
            "Enter confirms delete • Esc or q closes • Ctrl playback keys stay active"@
        } else {
            "↑↓ / j k move • d arm delete • Esc or q closes • Ctrl playback keys stay active"@
        },
{
    if app.pending_delete_confirmation {
        "Enter confirms delete • Esc or q closes • Ctrl playback keys stay active"
    } else {
        "↑↓ / j k move • d arm delete • Esc or q closes • Ctrl playback keys stay active"
    }
}

/// What the input is for.
pub fn input_hint(app: &App) -> (hint: &'static str)
    ensures
        hint@ == if app@.current_song is None && app@.queue.len() == 0 {
            "Summon a song by name, artist, or a few remembered words."@
        } else {
            "Enter searches • /help shows commands • results open in the center overlay"@
        },
{
    if app.current_song.is_none() && app.queue.len() == 0 {
        "Summon a song by name, artist, or a few remembered words."
    } else {
        "Enter searches • /help shows commands • results open in the center overlay"
    }
}

/// How the backend stands: whether it is up, and its version.
pub open spec fn backend_words(ready: bool, version: Option<String>) -> Seq<char> {
    (if ready {
        "ready"@
    } else {
        "starting"@
    }) + " ("@ + (match version {
        Some(version) => version@,
        None => "unknown"@,
    }) + ")"@
}

/// Computes [`backend_words`].
pub fn backend_label(app: &App) -> (label: String)
    ensures
        label@ == backend_words(app@.backend.ready, app@.backend.version),
{
    let mut label = if app.backend.ready {
        "ready".to_owned()
    } else {
        "starting".to_owned()
    };
    label.append(" (");
    match &app.backend.version {
        Some(version) => {
            label.append(version.as_str());
        },
        None => {
            label.append("unknown");
        },
    }
    label.append(")");
    label
}

// ---------------------------------------------------------------------------
// Searches
// ---------------------------------------------------------------------------

/// A result of a search; only the selected one has its detail shown.
#[derive(Debug, PartialEq, Eq)]
pub struct ResultRow {
    pub title: String,
    pub detail: Option<String>,
}

/// What fills the middle of a search.
#[derive(Debug, PartialEq, Eq)]
pub enum SearchBody {
    Notice(String),
    Failure(String),
    Results { rows: Vec<ResultRow>, selected: usize },
}

/// What is shown of a search.
#[derive(Debug, PartialEq, Eq)]
pub struct SearchPanel {
    pub query: String,
    pub heading: String,
    pub body: SearchBody,
    pub footer: String,
}

/// The line below the query.
pub open spec fn search_heading(state: SearchOverlayState) -> Seq<char> {
    match state {
        SearchOverlayState::Loading => "Looking up candidates on the backend..."@,
        SearchOverlayState::Results => "Choose one song to add to the queue."@,
        SearchOverlayState::Empty => "No matches found for this query."@,
        SearchOverlayState::Error => "Search failed before results became available."@,
    }
}

/// What can be done in a search.
pub open spec fn search_footer(state: SearchOverlayState) -> Seq<char> {
    match state {
        SearchOverlayState::Loading => "Esc or q closes • backend search keeps running"@,
        SearchOverlayState::Results => "↑↓ / j k move • Enter adds to queue • Esc or q closes"@,
        _ => "Enter, Esc, or q closes • query clears on close"@,
    }
}

/// Whether a row shows a result.
pub open spec fn shows_result(row: ResultRow, song: Song, selected: bool) -> bool {
    &&& row.title@ == song.title@
    &&& crate::text::opt_view(row.detail) == if selected {
        Some(song.channel_name@ + " • "@ + minutes_and_seconds(song.duration_ms))
    } else {
        None
    }
}

/// Whether the middle of a search is what its state calls for.
pub open spec fn shows_body(body: SearchBody, search: crate::tui_app::SearchOverlayView) -> bool {
    match search.state {
        SearchOverlayState::Loading => body matches SearchBody::Notice(text) && text@
            == "Searching… you can close this overlay, and late results will stay hidden."@,
        SearchOverlayState::Empty => body matches SearchBody::Notice(text) && text@
            == "Try a more specific song title, artist, or lyric fragment."@,
        SearchOverlayState::Error => body matches SearchBody::Failure(text) && text@ == match
        search.error_message {
            Some(message) => message,
            None => "Search failed."@,
        },
        SearchOverlayState::Results => {
            &&& body matches SearchBody::Results { rows, selected }
            &&& selected == search.selected
            &&& rows@.len() == search.results.len()
            &&& forall|i: int|
                0 <= i < rows@.len() ==> shows_result(
                    #[trigger] rows@[i],
                    search.results[i],
                    i == search.selected,
                )
        },
    }
}

/// Whether a panel shows the search, if there is one.
pub open spec fn shows_search(
    panel: Option<SearchPanel>,
    search_overlay: Option<crate::tui_app::SearchOverlayView>,
) -> bool {
    match search_overlay {
        None => panel is None,
        Some(search) => {
            &&& panel matches Some(shown)
            &&& shown.query@ == search.query
            &&& shown.heading@ == search_heading(search.state)
            &&& shows_body(shown.body, search)
            &&& shown.footer@ == search_footer(search.state)
        },
    }
}

/// The texts of the search, if there is one.
pub fn search_panel(app: &App) -> (panel: Option<SearchPanel>)
    ensures
        shows_search(panel, app@.search_overlay),
{
    let search = match &app.search_overlay {
        Some(search) => search,
        None => return None,
    };
    let heading = match search.state {
        SearchOverlayState::Loading => "Looking up candidates on the backend...",
        SearchOverlayState::Results => "Choose one song to add to the queue.",
        SearchOverlayState::Empty => "No matches found for this query.",
        SearchOverlayState::Error => "Search failed before results became available.",
    };
    let footer = match search.state {
        SearchOverlayState::Loading => "Esc or q closes • backend search keeps running",
        SearchOverlayState::Results => "↑↓ / j k move • Enter adds to queue • Esc or q closes",
        _ => "Enter, Esc, or q closes • query clears on close",
    };
    let body = match search.state {
        SearchOverlayState::Loading => SearchBody::Notice(
            "Searching… you can close this overlay, and late results will stay hidden.".to_owned(),
        ),
        SearchOverlayState::Empty => SearchBody::Notice(
            "Try a more specific song title, artist, or lyric fragment.".to_owned(),
        ),
        SearchOverlayState::Error => SearchBody::Failure(
            match &search.error_message {
                Some(message) => message.clone(),
                None => "Search failed.".to_owned(),
            },
        ),
        SearchOverlayState::Results => {
            let mut rows: Vec<ResultRow> = Vec::new();
            let count = search.results.len();
            for i in 0..count
                invariant
                    count == search.results@.len(),
                    rows@.len() == i,
                    forall|j: int|
                        0 <= j < i ==> shows_result(
                            #[trigger] rows@[j],
                            search.results@[j],
                            j == search.selected,
                        ),
            {
                let song = &search.results[i];
                let detail = if i == search.selected {
                    Some(song_detail(song))
                } else {
                    None
                };
                rows.push(ResultRow { title: song.title.clone(), detail });
            }
            SearchBody::Results { rows, selected: search.selected }
        },
    };
    Some(
        SearchPanel {
            query: search.query.clone(),
            heading: heading.to_owned(),
            body,
            footer: footer.to_owned(),
        },
    )
}

} // verus!
