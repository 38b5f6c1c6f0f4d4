//! The display state and the rule that folds one update into it.

use vstd::prelude::*;
use crate::text::{lines_of, text_of};

verus! {

/// Rows of the viewport that never show lyrics: the header and the line below it.
pub const RESERVED_ROWS: u16 = 2;

/// A request to move the visible window over the lyrics.
#[derive(Clone, Copy, Debug, PartialEq, Eq, Structural)]
pub enum ScrollCommand {
    /// Show one more line at the bottom.
    ScrollUp,
    /// Go back one line towards the top.
    ScrollDown,
    /// Show the lyrics from the top.
    Reset,
}

/// One update to the display. An absent field leaves that part as it is.
#[derive(Debug)]
pub struct StateDelta {
    pub artist: Option<String>,
    pub title: Option<String>,
    pub lyrics: Option<Vec<String>>,
    pub scroll_command: Option<ScrollCommand>,
    pub terminate: bool,
}

/// What the screen shows: the track, its lyrics, and the first visible line.
#[derive(Debug)]
pub struct DisplayState {
    pub artist: Option<String>,
    pub title: Option<String>,
    pub lyrics: Vec<String>,
    pub scroll_offset: usize,
}

/// The mathematical content of a `StateDelta`.
pub struct DeltaView {
    pub artist: Option<Seq<char>>,
    pub title: Option<Seq<char>>,
    pub lyrics: Option<Seq<Seq<char>>>,
    pub scroll_command: Option<ScrollCommand>,
    pub terminate: bool,
}

/// The mathematical content of a `DisplayState`.
pub struct DisplayView {
    pub artist: Option<Seq<char>>,
    pub title: Option<Seq<char>>,
    pub lyrics: Seq<Seq<char>>,
    pub scroll_offset: nat,
}

impl View for StateDelta {
    type V = DeltaView;

    open spec fn view(&self) -> DeltaView {
        DeltaView {
            artist: text_of(self.artist),
            title: text_of(self.title),
            lyrics: match self.lyrics {
                Some(lines) => Some(lines_of(lines@)),
                None => None,
            },
            scroll_command: self.scroll_command,
            terminate: self.terminate,
        }
    }
}

impl View for DisplayState {
    type V = DisplayView;

    open spec fn view(&self) -> DisplayView {
        DisplayView {
            artist: text_of(self.artist),
            title: text_of(self.title),
            lyrics: lines_of(self.lyrics@),
            scroll_offset: self.scroll_offset as nat,
        }
    }
}

/// One full picture of the screen: the header line and the lyric rows below it.
#[derive(Debug)]
pub struct Frame {
    pub header: String,
    pub lines: Vec<String>,
}

/// What the aggregator does after it has taken a delta.
#[derive(Clone, Copy, Debug, PartialEq, Eq, Structural)]
pub enum Step {
    /// The state was updated: draw it again.
    Redraw,
    /// The delta asked to terminate: leave the loop.
    Exit,
}

/// The number of lyric rows that a viewport of `height` rows can show.
pub open spec fn lyric_rows(height: u16) -> nat {
    if height >= RESERVED_ROWS {
        (height - RESERVED_ROWS) as nat
    } else {
        0
    }
}

/// The largest offset at which a full window of lyric rows, or all of a
/// shorter text, is still on screen.
pub open spec fn max_offset(len: nat, height: u16) -> nat {
    if len > lyric_rows(height) {
        (len - lyric_rows(height)) as nat
    } else {
        0
    }
}

/// The offset after one scroll command, before it is clamped.
pub open spec fn scrolled(offset: nat, len: nat, height: u16, command: Option<ScrollCommand>) -> nat {
    match command {
        Some(ScrollCommand::ScrollUp) => if len - offset > lyric_rows(height) {
            offset + 1
        } else {
            offset
        },
        Some(ScrollCommand::ScrollDown) => if offset > 0 {
            (offset - 1) as nat
        } else {
            0
        },
        Some(ScrollCommand::Reset) => 0,
        None => offset,
    }
}

/// `offset` brought back into `0 ..= max_offset(len, height)`.
pub open spec fn clamped(offset: nat, len: nat, height: u16) -> nat {
    if offset > max_offset(len, height) {
        max_offset(len, height)
    } else {
        offset
    }
}

/// The state that follows `state` when `delta` arrives while the viewport
/// has `height` rows.
///
/// A terminating delta changes nothing. Otherwise the fields that are present
/// replace the old ones. New lyrics are shown from the top, whatever scroll
/// command came with them; without new lyrics the scroll command moves the
/// offset. The offset is clamped at the end.
pub open spec fn folded(state: DisplayView, delta: DeltaView, height: u16) -> DisplayView {
    if delta.terminate {
        state
    } else {
        let lyrics = match delta.lyrics {
            Some(lines) => lines,
            None => state.lyrics,
        };
        let moved = if delta.lyrics is Some {
            0
        } else {
            scrolled(state.scroll_offset, lyrics.len(), height, delta.scroll_command)
        };
        DisplayView {
            artist: if delta.artist is Some { delta.artist } else { state.artist },
            title: if delta.title is Some { delta.title } else { state.title },
            lyrics,
            scroll_offset: clamped(moved, lyrics.len(), height),
        }
    }
}

/// Whether the offset of `state` lies in `0 ..= max_offset` for a viewport of
/// `height` rows.
pub open spec fn in_range(state: DisplayView, height: u16) -> bool {
    state.scroll_offset <= max_offset(state.lyrics.len(), height)
}

/// The characters of `text`, or none where it is absent.
pub open spec fn or_empty(text: Option<Seq<char>>) -> Seq<char> {
    match text {
        Some(s) => s,
        None => Seq::empty(),
    }
}

/// The header line: the artist, a dash between spaces, the title.
pub open spec fn header_of(artist: Option<Seq<char>>, title: Option<Seq<char>>) -> Seq<char> {
    or_empty(artist) + " - "@ + or_empty(title)
}

/// The index of the first line that is drawn: the offset, or the end of the
/// lyrics where the offset lies beyond it.
pub open spec fn window_start(len: nat, offset: nat) -> nat {
    if offset < len {
        offset
    } else {
        len
    }
}

/// The index after the last line that is drawn.
pub open spec fn window_end(len: nat, offset: nat, height: u16) -> nat {
    if window_start(len, offset) + lyric_rows(height) < len {
        window_start(len, offset) + lyric_rows(height)
    } else {
        len
    }
}

/// The lyric lines that are drawn: as many as the viewport has lyric rows,
/// from the offset on, and fewer where the lyrics end before that.
pub open spec fn window_of(lyrics: Seq<Seq<char>>, offset: nat, height: u16) -> Seq<Seq<char>> {
    lyrics.subrange(
        window_start(lyrics.len(), offset) as int,
        window_end(lyrics.len(), offset, height) as int,
    )
}

/// The number of lyric rows that a viewport of `height` rows can show.
pub fn visible_rows(height: u16) -> (rows: usize)
    ensures
        rows == lyric_rows(height),
{
    if height >= RESERVED_ROWS {
        (height - RESERVED_ROWS) as usize
    } else {
        0
    }
}

/// The largest offset that `clamp_offset` lets through.
pub fn last_offset(len: usize, height: u16) -> (offset: usize)
    ensures
        offset == max_offset(len as nat, height),
{
    let rows: usize = visible_rows(height);
    if len > rows {
        len - rows
    } else {
        0
    }
}

/// Applies one scroll command to `offset`, over `len` lines.
pub fn scroll(offset: usize, len: usize, height: u16, command: Option<ScrollCommand>) -> (moved: usize)
    ensures
        moved == scrolled(offset as nat, len as nat, height, command),
{
    match command {
        Some(ScrollCommand::ScrollUp) => {
            if offset < len && len - offset > visible_rows(height) {
                offset + 1
            } else {
                offset
            }
        },
        Some(ScrollCommand::ScrollDown) => {
            if offset > 0 {
                offset - 1
            } else {
                0
            }
        },
        Some(ScrollCommand::Reset) => 0,
        None => offset,
    }
}

/// Brings `offset` back into the range that `len` lines and `height` rows allow.
pub fn clamp_offset(offset: usize, len: usize, height: u16) -> (kept: usize)
    ensures
        kept == clamped(offset as nat, len as nat, height),
{
    let last: usize = last_offset(len, height);
    if offset > last {
        last
    } else {
        offset
    }
}

impl DisplayState {
    /// The state at start: no track, no lyrics, offset 0.
    pub fn new() -> (state: DisplayState)
        ensures
            state@ == (DisplayView {
                artist: None,
                title: None,
                lyrics: Seq::empty(),
                scroll_offset: 0,
            }),
    {
        let state = DisplayState { artist: None, title: None, lyrics: Vec::new(), scroll_offset: 0 };
        assert(state@.lyrics =~= Seq::empty());
        state
    }

    /// Folds `delta` into the state, for a viewport of `height` rows, and says
    /// whether to draw again or to leave the loop.
    pub fn apply_delta(&mut self, delta: StateDelta, height: u16) -> (step: Step)
        ensures
            final(self)@ == folded(old(self)@, delta@, height),
            step == (if delta.terminate { Step::Exit } else { Step::Redraw }),
    {
        if delta.terminate {
            return Step::Exit;
        }
        if let Some(artist) = delta.artist {
            self.artist = Some(artist);
        }
        if let Some(title) = delta.title {
            self.title = Some(title);
        }
        let moved: usize = match delta.lyrics {
            Some(lines) => {
                self.lyrics = lines;
                0
            },
            None => scroll(self.scroll_offset, self.lyrics.len(), height, delta.scroll_command),
        };
        self.scroll_offset = clamp_offset(moved, self.lyrics.len(), height);
        Step::Redraw
    }

    /// The picture to draw for this state on a viewport of `height` rows.
    pub fn frame(&self, height: u16) -> (frame: Frame)
        ensures
            frame.header@ == header_of(self@.artist, self@.title),
            lines_of(frame.lines@) == window_of(self@.lyrics, self@.scroll_offset, height),
            frame.lines@.len() <= lyric_rows(height),
    {
        let mut header = String::new();
        if let Some(artist) = &self.artist {
            header.append(artist.as_str());
        }
        header.append(" - ");
        if let Some(title) = &self.title {
            header.append(title.as_str());
        }
        assert(header@ =~= header_of(self@.artist, self@.title));
        let len: usize = self.lyrics.len();
        let start: usize = if self.scroll_offset < len { self.scroll_offset } else { len };
        let rows: usize = visible_rows(height);
        let end: usize = if len - start > rows { start + rows } else { len };
        let mut lines: Vec<String> = Vec::new();
        let mut i: usize = start;
        while i < end
            invariant
                start <= i <= end <= self.lyrics.len(),
                lines_of(lines@) == lines_of(self.lyrics@).subrange(start as int, i as int),
            decreases end - i,
        {
            let ghost before = lines_of(lines@);
            lines.push(self.lyrics[i].clone());
            assert(lines_of(lines@) =~= before.push(self.lyrics[i as int]@));
            assert(before.push(self.lyrics[i as int]@) =~= lines_of(self.lyrics@).subrange(
                start as int,
                i + 1,
            ));
            i += 1;
        }
        Frame { header, lines }
    }
}

/// After a delta that does not terminate, the offset lies between 0 and the
/// number of lines less the lyric rows of the viewport (0 where that is
/// negative), and so within the lines less the height plus the reserved rows.
/// A delta that terminates leaves a state in range as it is.
pub proof fn offset_stays_in_range(state: DisplayView, delta: DeltaView, height: u16)
    ensures
        !delta.terminate ==> in_range(folded(state, delta, height), height),
        in_range(state, height) ==> in_range(folded(state, delta, height), height),
        !delta.terminate ==> {
            let next = folded(state, delta, height);
            let bound = next.lyrics.len() - height + RESERVED_ROWS;
            0 <= next.scroll_offset <= if bound > 0 { bound } else { 0 }
        },
{
}

/// A delta that brings lyrics shows them from the top, whatever scroll
/// command it carries.
pub proof fn new_lyrics_show_from_top(state: DisplayView, delta: DeltaView, height: u16)
    requires
        delta.lyrics is Some,
        !delta.terminate,
    ensures
        folded(state, delta, height).lyrics == delta.lyrics->0,
        folded(state, delta, height).scroll_offset == 0,
{
}

/// Scrolling up moves the offset by one line at most, and only as far as a
/// full window of lyric rows is left from the new offset on. Scrolling down
/// never raises the offset and stops at 0.
pub proof fn scrolling_stays_in_bounds(state: DisplayView, delta: DeltaView, height: u16)
    requires
        delta.lyrics is None,
        !delta.terminate,
    ensures
        delta.scroll_command == Some(ScrollCommand::ScrollUp) ==> {
            let next = folded(state, delta, height);
            &&& next.scroll_offset <= state.scroll_offset + 1
            &&& next.scroll_offset > state.scroll_offset ==> next.lyrics.len() - next.scroll_offset
                >= lyric_rows(height)
        },
        delta.scroll_command == Some(ScrollCommand::ScrollDown) ==> {
            let next = folded(state, delta, height);
            &&& 0 <= next.scroll_offset <= state.scroll_offset
            &&& state.scroll_offset > 0 && in_range(state, height) ==> next.scroll_offset
                == state.scroll_offset - 1
        },
{
}

/// Whatever came before, after a delta with lyrics the state shows those
/// lyrics from the top.
pub proof fn later_lyrics_win(
    state: DisplayView,
    first: DeltaView,
    second: DeltaView,
    first_height: u16,
    second_height: u16,
)
    requires
        second.lyrics is Some,
        !second.terminate,
    ensures
        folded(folded(state, first, first_height), second, second_height).lyrics
            == second.lyrics->0,
        folded(folded(state, first, first_height), second, second_height).scroll_offset == 0,
{
}

} // verus!
