//! What the track producer decides: which player to follow, what an event
//! of the player asks for, and the delta that announces a track.

use vstd::prelude::*;
use crate::display::{DeltaView, ScrollCommand, StateDelta};
use crate::extract::{extracted, lines_of_option, lyrics_from_html, parsed_markup};
use crate::text::{has_substring, lines_of, occurs_in};
use crate::token::{lyrics_url, url_of};

verus! {

/// One event of the player's stream, as far as the producer reads it.
#[derive(Debug)]
pub enum PlayerEvent {
    /// Another track plays now: the artists and the title that its metadata
    /// reports, where it reports them.
    TrackChanged { artists: Option<Vec<String>>, title: Option<String> },
    /// Any other event.
    Other,
    /// The stream failed.
    TransportError,
}

/// What the producer does next.
#[derive(Debug)]
pub enum ProducerStep {
    /// Fetch the page at `url`, then announce the track.
    Fetch { artist: String, title: String, url: String },
    /// Wait for the next event.
    Skip,
    /// Leave the loop for good.
    Stop,
}

/// The mathematical content of a `ProducerStep`.
pub enum ProducerStepView {
    Fetch { artist: Seq<char>, title: Seq<char>, url: Seq<char> },
    Skip,
    Stop,
}

impl View for ProducerStep {
    type V = ProducerStepView;

    open spec fn view(&self) -> ProducerStepView {
        match *self {
            ProducerStep::Fetch { artist, title, url } => ProducerStepView::Fetch {
                artist: artist@,
                title: title@,
                url: url@,
            },
            ProducerStep::Skip => ProducerStepView::Skip,
            ProducerStep::Stop => ProducerStepView::Stop,
        }
    }
}

/// The first of the artists, or nothing where none is reported.
pub open spec fn first_or_empty(artists: Option<Vec<String>>) -> Seq<char> {
    match artists {
        Some(list) => if list@.len() > 0 {
            list@[0]@
        } else {
            Seq::empty()
        },
        None => Seq::empty(),
    }
}

/// The title, or nothing where none is reported.
pub open spec fn title_or_empty(title: Option<String>) -> Seq<char> {
    match title {
        Some(t) => t@,
        None => Seq::empty(),
    }
}

/// What an event of the player asks for: a changed track is looked up under
/// its first artist and its title, a failed stream ends the producer, and
/// anything else is passed over.
pub open spec fn step_for(event: PlayerEvent) -> ProducerStepView {
    match event {
        PlayerEvent::TrackChanged { artists, title } => ProducerStepView::Fetch {
            artist: first_or_empty(artists),
            title: title_or_empty(title),
            url: url_of(first_or_empty(artists), title_or_empty(title)),
        },
        PlayerEvent::Other => ProducerStepView::Skip,
        PlayerEvent::TransportError => ProducerStepView::Stop,
    }
}

/// The lines to show for a track: its lyrics, or one line that says that
/// there are none where they were not found or are empty.
pub open spec fn shown_lyrics(found: Option<Seq<Seq<char>>>) -> Seq<Seq<char>> {
    match found {
        Some(lines) => if lines.len() > 0 {
            lines
        } else {
            seq!["Can't Find Lyrics"@]
        },
        None => seq!["Can't Find Lyrics"@],
    }
}

/// The delta that announces a track: artist, title and lyrics are replaced,
/// and the lyrics are shown from the top.
pub open spec fn announcement(artist: Seq<char>, title: Seq<char>, found: Option<Seq<Seq<char>>>) -> DeltaView {
    DeltaView {
        artist: Some(artist),
        title: Some(title),
        lyrics: Some(shown_lyrics(found)),
        scroll_command: Some(ScrollCommand::Reset),
        terminate: false,
    }
}

/// Whether a player with this bus name is the one to follow: the name holds
/// `cmus` somewhere.
pub fn is_target_player(bus_name: &str) -> (yes: bool)
    ensures
        yes == occurs_in("cmus"@, bus_name@),
{
    has_substring(bus_name, "cmus")
}

/// Picks the player to follow: the first whose bus name holds `cmus`, or
/// none where no name does.
pub fn find_target_player(bus_names: &Vec<String>) -> (found: Option<usize>)
    ensures
        match found {
            Some(i) => i < bus_names.len() && occurs_in("cmus"@, bus_names[i as int]@)
                && forall|j: int| 0 <= j < i ==> !occurs_in("cmus"@, #[trigger] bus_names[j]@),
            None => forall|j: int|
                0 <= j < bus_names.len() ==> !occurs_in("cmus"@, #[trigger] bus_names[j]@),
        },
{
    let mut i: usize = 0;
    while i < bus_names.len()
        invariant
            i <= bus_names.len(),
            forall|j: int| 0 <= j < i ==> !occurs_in("cmus"@, #[trigger] bus_names[j]@),
        decreases bus_names.len() - i,
    {
        if is_target_player(bus_names[i].as_str()) {
            return Some(i);
        }
        i += 1;
    }
    None
}

/// Decides what the producer does on an event of the player.
pub fn on_player_event(event: PlayerEvent) -> (step: ProducerStep)
    ensures
        step@ == step_for(event),
{
    match event {
        PlayerEvent::TrackChanged { artists, title } => {
            let artist = match &artists {
                Some(list) => if list.len() > 0 {
                    list[0].clone()
                } else {
                    String::new()
                },
                None => String::new(),
            };
            let title = match title {
                Some(t) => t,
                None => String::new(),
            };
            let url = lyrics_url(artist.as_str(), title.as_str());
            ProducerStep::Fetch { artist, title, url }
        },
        PlayerEvent::Other => ProducerStep::Skip,
        PlayerEvent::TransportError => ProducerStep::Stop,
    }
}

/// The lines to show for what the extractor returned.
pub fn lyrics_or_notice(found: Option<Vec<String>>) -> (lines: Vec<String>)
    ensures
        lines_of(lines@) == shown_lyrics(lines_of_option(found)),
{
    match found {
        Some(lyrics) => {
            if lyrics.len() > 0 {
                return lyrics;
            }
        },
        None => {},
    }
    let mut lines: Vec<String> = Vec::new();
    lines.push(String::from_str("Can't Find Lyrics"));
    assert(lines_of(lines@) =~= seq!["Can't Find Lyrics"@]);
    lines
}

/// The delta that announces a track for which the extractor returned `found`.
pub fn announce(artist: String, title: String, found: Option<Vec<String>>) -> (delta: StateDelta)
    ensures
        delta@ == announcement(artist@, title@, lines_of_option(found)),
{
    StateDelta {
        artist: Some(artist),
        title: Some(title),
        lyrics: Some(lyrics_or_notice(found)),
        scroll_command: Some(ScrollCommand::Reset),
        terminate: false,
    }
}

/// The delta that announces a track, given the text of its lyrics page, or
/// `None` where the page could not be fetched.
pub fn track_delta(artist: String, title: String, page: Option<&str>) -> (delta: StateDelta)
    ensures
        delta@ == announcement(
            artist@,
            title@,
            match page {
                Some(html) => extracted(parsed_markup(html@, "class"@)),
                None => None,
            },
        ),
{
    let found = match page {
        Some(html) => lyrics_from_html(html),
        None => None,
    };
    announce(artist, title, found)
}

} // verus!
