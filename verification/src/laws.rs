//! What holds of the two renderings for every track and every template.

use crate::duration::zero_text;
use crate::media::{
    artist_token, filled_in_one_pass, position_token, resolved, title_token, token_at_start,
    MediaInfoView, QueryError,
};
use vstd::prelude::*;

verus! {

/// Whether one of the three tokens stands somewhere in `template`.
pub open spec fn holds_token(template: Seq<char>) -> bool {
    exists|i: int|
        0 <= i && i + 1 < template.len() && #[trigger] template[i] == '%' && (template[i + 1] == 't'
            || template[i + 1] == 'a' || template[i + 1] == 'p')
}

/// A token in a template is written as `value`, whatever stands before it
/// and behind it, when `value` is the field that the token's letter names.
proof fn lemma_token_between(
    info: MediaInfoView,
    before: Seq<char>,
    letter: char,
    value: Seq<char>,
    after: Seq<char>,
)
    requires
        letter == 't' && value == info.title || letter == 'a' && value == info.artist || letter
            == 'p' && value == info.position,
    ensures
        info.display(before + seq!['%', letter] + after) == info.display(before) + value
            + info.display(after),
    decreases before.len(),
{
    let template = before + seq!['%', letter] + after;
    if before.len() == 0 {
        assert(template.skip(2) =~= after);
        assert(info.display(before) + value + info.display(after) =~= value + info.display(
            after,
        ));
    } else if token_at_start(before, 't') || token_at_start(before, 'a') || token_at_start(
        before,
        'p',
    ) {
        // The same token begins the whole template.
        let shorter = before.skip(2);
        assert(template.skip(2) =~= shorter + seq!['%', letter] + after);
        lemma_token_between(info, shorter, letter, value, after);
        let written = if token_at_start(before, 't') {
            info.title
        } else if token_at_start(before, 'a') {
            info.artist
        } else {
            info.position
        };
        assert(written + (info.display(shorter) + value + info.display(after)) =~= (written
            + info.display(shorter)) + value + info.display(after));
    } else {
        // No token begins the part before, and none begins the whole: where
        // the part before is a lone `%`, a `%` follows it.
        let shorter = before.skip(1);
        assert(template[0] == before[0]);
        assert(template[1] == if before.len() >= 2 {
            before[1]
        } else {
            '%'
        });
        assert(template.skip(1) =~= shorter + seq!['%', letter] + after);
        lemma_token_between(info, shorter, letter, value, after);
        assert(seq![before[0]] + (info.display(shorter) + value + info.display(after)) =~= (seq![
            before[0],
        ] + info.display(shorter)) + value + info.display(after));
    }
}

/// Each token of a template is written as the field that it names, wherever
/// in the template it stands and whatever tokens and text stand around it;
/// what stands before it and behind it is written as it would be alone. This
/// holds for every track: a field may hold anything, a token too.
pub proof fn law_display_fills_each_token(
    info: MediaInfoView,
    before: Seq<char>,
    after: Seq<char>,
)
    ensures
        info.display(before + title_token() + after) == info.display(before) + info.title
            + info.display(after),
        info.display(before + artist_token() + after) == info.display(before) + info.artist
            + info.display(after),
        info.display(before + position_token() + after) == info.display(before) + info.position
            + info.display(after),
        info.display(Seq::empty()) == Seq::<char>::empty(),
{
    lemma_token_between(info, before, 't', info.title, after);
    lemma_token_between(info, before, 'a', info.artist, after);
    lemma_token_between(info, before, 'p', info.position, after);
}

/// A template that holds none of the three tokens comes out as it went in,
/// whatever the fields are, the empty ones included.
pub proof fn law_display_keeps_template_without_tokens(info: MediaInfoView, template: Seq<char>)
    requires
        !holds_token(template),
    ensures
        info.display(template) == template,
    decreases template.len(),
{
    if template.len() > 0 {
        let rest = template.skip(1);
        // No token begins the template, and none stands in the rest of it.
        assert(!token_at_start(template, 't') && !token_at_start(template, 'a') && !token_at_start(
            template,
            'p',
        )) by {
            if template[0] == '%' && template.len() >= 2 {
                assert(template[1] != 't' && template[1] != 'a' && template[1] != 'p');
            }
        }
        assert(!holds_token(rest)) by {
            if holds_token(rest) {
                let i = choose|i: int|
                    0 <= i && i + 1 < rest.len() && #[trigger] rest[i] == '%' && (rest[i + 1]
                        == 't' || rest[i + 1] == 'a' || rest[i + 1] == 'p');
                assert(template[i + 1] == '%');
            }
        }
        law_display_keeps_template_without_tokens(info, rest);
        assert(seq![template[0]] + rest =~= template);
    }
}

/// Of the four ways to write a track without a template exactly one applies,
/// and which one is decided by whether an artist is reported and whether
/// there is a position to show.
pub proof fn law_default_text_takes_one_form(info: MediaInfoView)
    ensures
        info.has_artist() <==> info.artist != Seq::<char>::empty(),
        info.has_position() <==> info.position != zero_text(),
        info.has_artist() && info.has_position() ==> info.default_text() == info.title
            + info.artist_part() + info.position_part(),
        info.has_artist() && !info.has_position() ==> info.default_text() == info.title
            + info.artist_part(),
        !info.has_artist() && info.has_position() ==> info.default_text() == info.title
            + info.position_part(),
        !info.has_artist() && !info.has_position() ==> info.default_text() == info.title,
{
    if info.artist.len() == 0 {
        assert(info.artist =~= Seq::<char>::empty());
    }
}

/// After a failed query the line is that of the fallback under the same
/// template, whatever the failure was.
pub proof fn law_failure_shows_fallback(error: QueryError, template: Seq<char>)
    ensures
        resolved(Err(error)).display(template) == MediaInfoView::fallback().display(template),
        resolved(Err(error)) == MediaInfoView::fallback(),
{
}

/// Writing a track out twice gives the same text twice: what is written
/// depends on the fields and the template alone.
pub proof fn law_rendering_repeats(
    first: MediaInfoView,
    second: MediaInfoView,
    template: Seq<char>,
)
    requires
        first.title == second.title,
        first.artist == second.artist,
        first.position == second.position,
    ensures
        first.display(template) == second.display(template),
        first.default_text() == second.default_text(),
{
}

} // verus!
