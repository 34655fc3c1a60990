//! The track that is playing, and the two ways of writing it out.

use crate::duration::{
    human_duration, human_duration_text, render_position, whole_seconds, zero_text,
    TICKS_PER_SECOND,
};
use crate::text::chars_of;
use vstd::prelude::*;
use vstd::string::StringExecFns;

verus! {

/// What the platform's media session says of the track that is playing.
///
/// A title or an artist that the session does not report is the empty string.
/// The position is text already; an unknown position is written as a
/// position of zero.
pub struct MediaInfo {
    pub title: String,
    pub artist: String,
    pub position: String,
}

/// A `MediaInfo` as three sequences of characters.
pub struct MediaInfoView {
    pub title: Seq<char>,
    pub artist: Seq<char>,
    pub position: Seq<char>,
}

impl View for MediaInfo {
    type V = MediaInfoView;

    open spec fn view(&self) -> MediaInfoView {
        MediaInfoView { title: self.title@, artist: self.artist@, position: self.position@ }
    }
}

/// The token of a template that stands for the title.
pub open spec fn title_token() -> Seq<char> {
    seq!['%', 't']
}

/// The token of a template that stands for the artist.
pub open spec fn artist_token() -> Seq<char> {
    seq!['%', 'a']
}

/// The token of a template that stands for the position.
pub open spec fn position_token() -> Seq<char> {
    seq!['%', 'p']
}

/// Whether `text` begins with the token made of `%` and `letter`.
pub open spec fn token_at_start(text: Seq<char>, letter: char) -> bool {
    text.len() >= 2 && text[0] == '%' && text[1] == letter
}

/// The template read once from left to right: where a token stands, the
/// field it names is written in its place; every other character is kept.
/// What was written for a token is not read again.
pub open spec fn filled_in_one_pass(info: MediaInfoView, template: Seq<char>) -> Seq<char>
    decreases template.len(),
{
    if template.len() == 0 {
        template
    } else if token_at_start(template, 't') {
        info.title + filled_in_one_pass(info, template.skip(2))
    } else if token_at_start(template, 'a') {
        info.artist + filled_in_one_pass(info, template.skip(2))
    } else if token_at_start(template, 'p') {
        info.position + filled_in_one_pass(info, template.skip(2))
    } else {
        seq![template[0]] + filled_in_one_pass(info, template.skip(1))
    }
}

/// Whether the token of `letter` stands in `template` at index `at`.
fn token_at(template: &Vec<char>, at: usize, letter: char) -> (found: bool)
    requires
        at < template.len(),
    ensures
        found == token_at_start(template@.skip(at as int), letter),
{
    template[at] == '%' && at + 1 < template.len() && template[at + 1] == letter
}

/// The title that is shown when no track could be read.
pub open spec fn fallback_title() -> Seq<char> {
    seq!['N', 'o', ' ', 'S', 'o', 'n', 'g', ' ', 'P', 'l', 'a', 'y', 'i', 'n', 'g']
}

/// The template that is used when the caller names none.
pub open spec fn default_template_text() -> Seq<char> {
    seq!['%', 't', ' ', '-', ' ', '%', 'a']
}

/// Why no track could be read: the result code of the platform call that
/// failed. Which call it was, and whether a session was missing or a call
/// went wrong, is told by the code alone.
#[derive(Clone, Copy, Debug, PartialEq, Eq, Structural)]
pub struct QueryError {
    pub code: i32,
}

/// The track that a query stands for: the one it read, or else the fallback.
pub open spec fn resolved(query: Result<MediaInfo, QueryError>) -> MediaInfoView {
    match query {
        Ok(info) => info@,
        Err(_) => MediaInfoView::fallback(),
    }
}

impl MediaInfoView {
    /// What stands in for a track when none could be read.
    pub open spec fn fallback() -> MediaInfoView {
        MediaInfoView { title: fallback_title(), artist: Seq::empty(), position: zero_text() }
    }

    /// Whether an artist is reported.
    pub open spec fn has_artist(self) -> bool {
        self.artist.len() > 0
    }

    /// Whether there is a position to show: any text but that of zero.
    pub open spec fn has_position(self) -> bool {
        self.position != zero_text()
    }

    /// The artist as it is written behind the title: after a dash.
    pub open spec fn artist_part(self) -> Seq<char> {
        seq![' ', '-', ' '] + self.artist
    }

    /// The position as it is written at the end: in round brackets.
    pub open spec fn position_part(self) -> Seq<char> {
        seq![' ', '('] + self.position + seq![')']
    }

    /// The track written without a template: the title, then the artist if
    /// one is reported, then the position if there is one to show.
    pub open spec fn default_text(self) -> Seq<char> {
        if self.has_artist() && self.has_position() {
            self.title + self.artist_part() + self.position_part()
        } else if self.has_artist() {
            self.title + self.artist_part()
        } else if self.has_position() {
            self.title + self.position_part()
        } else {
            self.title
        }
    }

    /// The template with its tokens filled in: every `%t` by the title,
    /// every `%a` by the artist, every `%p` by the position. Only the tokens
    /// of the template count: a field is written as it is, whatever it
    /// holds.
    pub open spec fn display(self, template: Seq<char>) -> Seq<char> {
        filled_in_one_pass(self, template)
    }
}

impl MediaInfo {
    /// A track with the given title, artist and position text.
    pub fn new(title: String, artist: String, position: String) -> (info: MediaInfo)
        ensures
            info.title == title,
            info.artist == artist,
            info.position == position,
    {
        MediaInfo { title, artist, position }
    }

    /// The track that a session reports, its position given in ticks of the
    /// platform's timeline.
    pub fn from_reading(title: String, artist: String, position_ticks: i64) -> (info: MediaInfo)
        ensures
            info.title == title,
            info.artist == artist,
            info.position@ == human_duration_text(whole_seconds(position_ticks)),
            info@.has_position() <==> !(-TICKS_PER_SECOND < position_ticks < TICKS_PER_SECOND),
    {
        MediaInfo { title, artist, position: render_position(position_ticks) }
    }

    /// What stands in for a track when none could be read: the title says
    /// so, there is no artist, and the position is zero.
    pub fn fallback() -> (info: MediaInfo)
        ensures
            info@ == MediaInfoView::fallback(),
    {
        proof {
            reveal_strlit("No Song Playing");
            reveal_strlit("");
        }
        let title = String::from_str("No Song Playing");
        let artist = String::from_str("");
        assert(title@ =~= fallback_title());
        assert(artist@ =~= Seq::<char>::empty());
        MediaInfo { title, artist, position: human_duration(0) }
    }

    /// Writes the track without a template.
    pub fn to_text(&self) -> (out: String)
        ensures
            out@ == self@.default_text(),
    {
        proof {
            reveal_strlit("0ns");
            reveal_strlit(" - ");
            reveal_strlit(" (");
            reveal_strlit(")");
        }
        let zero = String::from_str("0ns");
        assert(zero@ =~= zero_text());
        let has_artist = !self.artist.as_str().is_empty();
        let has_position = self.position != zero;
        let mut out = self.title.clone();
        if has_artist {
            out.append(" - ");
            out.append(self.artist.as_str());
        }
        if has_position {
            out.append(" (");
            out.append(self.position.as_str());
            out.append(")");
        }
        out
    }

    /// Fills the template `f`: every `%t` by the title, every `%a` by the
    /// artist, every `%p` by the position. The template is read once, so a
    /// field that holds a token is written like any other.
    pub fn display(&self, f: String) -> (out: String)
        ensures
            out@ == self@.display(f@),
    {
        let template = chars_of(f.as_str());
        let mut out = String::new();
        let mut i: usize = 0;
        assert(template@.skip(0) =~= template@);
        while i < template.len()
            invariant
                i <= template.len(),
                template@ == f@,
                out@ + filled_in_one_pass(self@, template@.skip(i as int)) == filled_in_one_pass(
                    self@,
                    template@,
                ),
            decreases template.len() - i,
        {
            let ghost rest = template@.skip(i as int);
            if token_at(&template, i, 't') {
                out.append(self.title.as_str());
                i += 2;
                assert(rest.skip(2) =~= template@.skip(i as int));
            } else if token_at(&template, i, 'a') {
                out.append(self.artist.as_str());
                i += 2;
                assert(rest.skip(2) =~= template@.skip(i as int));
            } else if token_at(&template, i, 'p') {
                out.append(self.position.as_str());
                i += 2;
                assert(rest.skip(2) =~= template@.skip(i as int));
            } else {
                out.push(template[i]);
                i += 1;
                assert(rest.skip(1) =~= template@.skip(i as int));
            }
        }
        out
    }
}

/// The template that is used when the caller names none: `%t - %a`.
pub fn default_template() -> (template: String)
    ensures
        template@ == default_template_text(),
{
    proof {
        reveal_strlit("%t - %a");
    }
    String::from_str("%t - %a")
}

/// The track to show for the outcome of a query: the one that was read, or
/// the fallback after any failure.
pub fn resolve(query: Result<MediaInfo, QueryError>) -> (info: MediaInfo)
    ensures
        info@ == resolved(query),
        query is Ok ==> info == query->Ok_0,
{
    match query {
        Ok(info) => info,
        Err(_) => MediaInfo::fallback(),
    }
}

/// The line to print for the outcome of a query under a template. A failed
/// query is not reported as such: the fallback is written in its place.
pub fn report(query: Result<MediaInfo, QueryError>, template: String) -> (line: String)
    ensures
        line@ == resolved(query).display(template@),
{
    resolve(query).display(template)
}

} // verus!
