//! What happens to pasted text before it may reach a session: line endings are
//! normalised, the text is counted, and a bounded preview is prepared for the
//! confirmation dialog.
use vstd::prelude::*;

use crate::text::{is_control, push_escaped};
#[allow(unused_imports)]
use crate::text::{control_character, escaped, hex_digit};

verus! {

/// From this many characters on, a paste is confirmed first.
pub const LARGE_PASTE_CHARACTER_THRESHOLD: usize = 4_096;

/// From this many lines on, a paste is confirmed first.
pub const LARGE_PASTE_LINE_THRESHOLD: usize = 100;

/// The preview shows at most this many characters of the text.
pub const PASTE_PREVIEW_CHARACTER_LIMIT: usize = 800;

/// The preview shows at most this many lines.
pub const PASTE_PREVIEW_LINE_LIMIT: usize = 8;

/// `s` with every line ending (`\r\n`, `\r` or `\n`) written as `\n`.
pub open spec fn normalized(s: Seq<char>) -> Seq<char>
    decreases s.len(),
{
    if s.len() == 0 {
        Seq::empty()
    } else if s.last() == '\r' {
        normalized(s.drop_last()).push('\n')
    } else if s.last() == '\n' && s.len() > 1 && s[s.len() - 2] == '\r' {
        normalized(s.drop_last())
    } else {
        normalized(s.drop_last()).push(s.last())
    }
}

/// How often `\n` occurs in `s`.
pub open spec fn newlines(s: Seq<char>) -> nat
    decreases s.len(),
{
    if s.len() == 0 {
        0
    } else {
        newlines(s.drop_last()) + if s.last() == '\n' {
            1nat
        } else {
            0nat
        }
    }
}

/// The lines of `s`: one more than its line feeds, as far as a `usize` holds it.
pub open spec fn line_count(s: Seq<char>) -> nat {
    if newlines(s) < usize::MAX {
        newlines(s) + 1
    } else {
        usize::MAX as nat
    }
}

/// Writes every line ending of `text` as `\n`.
pub fn normalize_paste_line_endings(text: &str) -> (result: String)
    ensures
        result@ == normalized(text@),
{
    let mut result = String::new();
    let mut after_return = false;
    for c in iter: text.chars()
        invariant
            iter.seq() == text@,
            result@ == normalized(text@.take(iter.index() as int)),
            after_return == (iter.index() > 0 && text@[iter.index() - 1] == '\r'),
    {
        proof {
            let i = iter.index() as int;
            assert(text@.take(i + 1).drop_last() =~= text@.take(i));
        }
        if c == '\r' {
            result.push('\n');
            after_return = true;
        } else {
            if !(c == '\n' && after_return) {
                result.push(c);
            }
            after_return = false;
        }
    }
    assert(text@.take(text@.len() as int) =~= text@);
    result
}

/// Counts the lines of `text`, the last one included where it is empty.
pub fn paste_line_count(text: &str) -> (result: usize)
    ensures
        result == line_count(text@),
{
    let length: usize = text.unicode_len();
    let mut count: usize = 0;
    for c in iter: text.chars()
        invariant
            iter.seq() == text@,
            text@.len() == length,
            count == newlines(text@.take(iter.index() as int)),
            count <= iter.index() <= length,
    {
        proof {
            let i = iter.index() as int;
            assert(text@.take(i + 1).drop_last() =~= text@.take(i));
        }
        if c == '\n' {
            count = count + 1;
        }
    }
    assert(text@.take(text@.len() as int) =~= text@);
    count.saturating_add(1)
}

/// How one character of a paste appears in its preview.
pub open spec fn shown(c: char) -> Seq<char> {
    if control_character(c) && c != '\n' && c != '\t' {
        escaped(c)
    } else {
        seq![c]
    }
}

/// How a stretch of a paste appears in its preview.
pub open spec fn shown_text(s: Seq<char>) -> Seq<char>
    decreases s.len(),
{
    if s.len() == 0 {
        Seq::empty()
    } else {
        shown_text(s.drop_last()) + shown(s.last())
    }
}

/// The preview stops before character `i`: its characters are used up, or a
/// line feed would begin one line too many.
pub open spec fn preview_stops(s: Seq<char>, i: int) -> bool {
    ||| i == PASTE_PREVIEW_CHARACTER_LIMIT
    ||| s[i] == '\n' && newlines(s.take(i)) + 1 == PASTE_PREVIEW_LINE_LIMIT
}

/// The preview covers exactly the first `n` characters of `s`.
pub open spec fn preview_covers(s: Seq<char>, n: int) -> bool {
    &&& 0 <= n <= s.len()
    &&& forall|i: int| 0 <= i < n ==> !#[trigger] preview_stops(s, i)
    &&& n < s.len() ==> preview_stops(s, n)
}

/// Prepares the preview of a paste: its text, and how many lines and
/// characters of the paste it covers.
pub fn bounded_paste_preview(text: &str) -> (result: (String, usize, usize))
    ensures
        preview_covers(text@, result.2 as int),
        result.0@ == shown_text(text@.take(result.2 as int)),
        result.1 == newlines(text@.take(result.2 as int)) + 1,
{
    let length: usize = text.unicode_len();
    let mut preview = String::new();
    let mut shown_lines: usize = 1;
    let mut shown_characters: usize = 0;
    let mut stopped = false;
    for c in iter: text.chars()
        invariant
            iter.seq() == text@,
            text@.len() == length,
            shown_characters <= iter.index() <= length,
            shown_characters <= PASTE_PREVIEW_CHARACTER_LIMIT,
            shown_lines <= shown_characters + 1,
            preview@ == shown_text(text@.take(shown_characters as int)),
            shown_lines == newlines(text@.take(shown_characters as int)) + 1,
            forall|i: int| 0 <= i < shown_characters ==> !#[trigger] preview_stops(text@, i),
            if stopped {
                shown_characters < length && preview_stops(text@, shown_characters as int)
            } else {
                shown_characters == iter.index()
            },
    {
        if !stopped {
            if shown_characters == PASTE_PREVIEW_CHARACTER_LIMIT || (c == '\n' && shown_lines
                == PASTE_PREVIEW_LINE_LIMIT) {
                stopped = true;
            } else {
                proof {
                    let i = shown_characters as int;
                    assert(text@.take(i + 1).drop_last() =~= text@.take(i));
                    assert(text@.take(i + 1).last() == c);
                }
                if c == '\n' {
                    preview.push('\n');
                    shown_lines = shown_lines + 1;
                } else if c != '\t' && is_control(c) {
                    push_escaped(&mut preview, c);
                } else {
                    preview.push(c);
                }
                shown_characters = shown_characters + 1;
                assert(preview@ =~= shown_text(text@.take(shown_characters as int)));
            }
        }
    }
    (preview, shown_lines, shown_characters)
}

/// A paste that is held back until it has been confirmed: a large one, or
/// several lines for a program that would run them one by one.
pub open spec fn needs_confirmation(s: Seq<char>, bracketed_paste: bool) -> bool {
    ||| s.len() >= LARGE_PASTE_CHARACTER_THRESHOLD
    ||| line_count(s) >= LARGE_PASTE_LINE_THRESHOLD
    ||| !bracketed_paste && line_count(s) > 1
}

/// Tells whether a normalised paste is held back until it has been confirmed.
pub fn requires_confirmation(text: &str, bracketed_paste: bool) -> (result: bool)
    ensures
        result == needs_confirmation(text@, bracketed_paste),
{
    let line_count: usize = paste_line_count(text);
    text.unicode_len() >= LARGE_PASTE_CHARACTER_THRESHOLD || line_count
        >= LARGE_PASTE_LINE_THRESHOLD || (!bracketed_paste && line_count > 1)
}

/// Normalised text has no carriage return left.
pub proof fn normalized_has_no_return(s: Seq<char>)
    ensures
        forall|i: int| 0 <= i < normalized(s).len() ==> #[trigger] normalized(s)[i] != '\r',
    decreases s.len(),
{
    if s.len() > 0 {
        normalized_has_no_return(s.drop_last());
        let rest = normalized(s.drop_last());
        assert forall|i: int| 0 <= i < normalized(s).len() implies #[trigger] normalized(s)[i]
            != '\r' by {
            if i < rest.len() {
                assert(normalized(s)[i] == rest[i]);
            }
        }
    }
}

/// Text without carriage returns is left as it is.
pub proof fn normalized_keeps_line_feeds(s: Seq<char>)
    requires
        forall|i: int| 0 <= i < s.len() ==> #[trigger] s[i] != '\r',
    ensures
        normalized(s) == s,
    decreases s.len(),
{
    if s.len() > 0 {
        normalized_keeps_line_feeds(s.drop_last());
        assert(s.last() != '\r');
        assert(s.drop_last().push(s.last()) =~= s);
    }
}

/// Normalising twice is the same as normalising once.
pub proof fn normalizing_is_idempotent(s: Seq<char>)
    ensures
        normalized(normalized(s)) == normalized(s),
{
    normalized_has_no_return(s);
    normalized_keeps_line_feeds(normalized(s));
}

/// Normalising changes line endings only: what is left of a text when its
/// carriage returns and line feeds are taken out stays the same.
pub proof fn normalizing_keeps_other_characters(s: Seq<char>)
    ensures
        normalized(s).filter(|c: char| c != '\r' && c != '\n') == s.filter(
            |c: char| c != '\r' && c != '\n',
        ),
        normalized(s).len() <= s.len(),
    decreases s.len(),
{
    let kept = |c: char| c != '\r' && c != '\n';
    reveal(Seq::filter);
    if s.len() > 0 {
        normalizing_keeps_other_characters(s.drop_last());
        let rest = normalized(s.drop_last());
        assert(rest.push('\n').drop_last() =~= rest);
        assert(rest.push(s.last()).drop_last() =~= rest);
    }
}

/// A preview covers one stretch of the text and no other.
pub proof fn preview_is_unique(s: Seq<char>, m: int, n: int)
    requires
        preview_covers(s, m),
        preview_covers(s, n),
    ensures
        m == n,
{
    if m < n {
        assert(preview_stops(s, m));
    } else if n < m {
        assert(preview_stops(s, n));
    }
}

proof fn newlines_within(s: Seq<char>, n: int, limit: nat)
    requires
        0 <= n <= s.len(),
        limit >= 1,
        forall|i: int| 0 <= i < n ==> !(#[trigger] s[i] == '\n' && newlines(s.take(i)) + 1 == limit),
    ensures
        newlines(s.take(n)) + 1 <= limit,
    decreases n,
{
    if n > 0 {
        newlines_within(s, n - 1, limit);
        assert(s.take(n).drop_last() =~= s.take(n - 1));
        assert(s[n - 1] == s.take(n).last());
    } else {
        assert(s.take(0).len() == 0);
    }
}

/// The preview is bounded: it never covers more characters or lines than its
/// limits, whatever the text.
pub proof fn preview_is_bounded(s: Seq<char>, n: int)
    requires
        preview_covers(s, n),
    ensures
        n <= PASTE_PREVIEW_CHARACTER_LIMIT,
        newlines(s.take(n)) + 1 <= PASTE_PREVIEW_LINE_LIMIT,
{
    if n > PASTE_PREVIEW_CHARACTER_LIMIT {
        assert(preview_stops(s, PASTE_PREVIEW_CHARACTER_LIMIT as int));
    }
    assert forall|i: int| 0 <= i < n implies !(#[trigger] s[i] == '\n' && newlines(s.take(i)) + 1
        == PASTE_PREVIEW_LINE_LIMIT) by {
        assert(!preview_stops(s, i));
    }
    newlines_within(s, n, PASTE_PREVIEW_LINE_LIMIT as nat);
}

/// A preview never holds a raw control character other than a line feed or a
/// tab.
pub proof fn preview_escapes_controls(s: Seq<char>)
    ensures
        forall|i: int|
            0 <= i < shown_text(s).len() ==> {
                let c = #[trigger] shown_text(s)[i];
                control_character(c) ==> c == '\n' || c == '\t'
            },
    decreases s.len(),
{
    if s.len() > 0 {
        preview_escapes_controls(s.drop_last());
        let rest = shown_text(s.drop_last());
        let n = s.last() as nat;
        assert forall|i: int| 0 <= i < shown_text(s).len() implies {
            let c = #[trigger] shown_text(s)[i];
            control_character(c) ==> c == '\n' || c == '\t'
        } by {
            if i < rest.len() {
                assert(shown_text(s)[i] == rest[i]);
            } else {
                assert(shown_text(s)[i] == shown(s.last())[i - rest.len()]);
                assert(!control_character(hex_digit(n / 4096 % 16)));
                assert(!control_character(hex_digit(n / 256 % 16)));
                assert(!control_character(hex_digit(n / 16 % 16)));
                assert(!control_character(hex_digit(n % 16)));
            }
        }
    }
}

/// Without bracketed paste, text of more than one line is never sent unasked.
pub proof fn multi_line_paste_is_never_silent(s: Seq<char>)
    requires
        newlines(s) > 0,
    ensures
        needs_confirmation(s, false),
{
}

proof fn newlines_add_up(a: Seq<char>, b: Seq<char>)
    ensures
        newlines(a + b) == newlines(a) + newlines(b),
    decreases b.len(),
{
    if b.len() == 0 {
        assert(a + b =~= a);
    } else {
        assert((a + b).drop_last() =~= a + b.drop_last());
        newlines_add_up(a, b.drop_last());
    }
}

/// The lines of two texts put together: the last line of the first and the first
/// line of the second become one. That holds as long as a `usize` holds the
/// number of lines.
pub proof fn line_counts_add_up(a: Seq<char>, b: Seq<char>)
    requires
        newlines(a + b) < usize::MAX,
    ensures
        line_count(a + b) == line_count(a) + line_count(b) - 1,
{
    newlines_add_up(a, b);
}

/// Nothing is one line, a line feed makes two, and no other character makes any.
pub proof fn single_characters_are_counted(c: char)
    ensures
        line_count(Seq::empty()) == 1,
        line_count(seq![c]) == if c == '\n' {
            2nat
        } else {
            1nat
        },
{
    assert(seq![c].drop_last() =~= Seq::<char>::empty());
    assert(newlines(Seq::<char>::empty()) == 0);
}

/// How often `c` occurs in `s`.
pub open spec fn occurrences(s: Seq<char>, c: char) -> nat {
    s.filter(|x: char| x == c).len()
}

/// How many line feeds of `s` end a line of their own: those that do not
/// directly follow a carriage return.
pub open spec fn lone_line_feeds(s: Seq<char>) -> nat
    decreases s.len(),
{
    if s.len() == 0 {
        0
    } else {
        lone_line_feeds(s.drop_last()) + if s.last() == '\n' && !(s.len() > 1 && s[s.len() - 2]
            == '\r') {
            1nat
        } else {
            0nat
        }
    }
}

/// Every line ending becomes exactly one line feed: normalised text has as many
/// as the text had carriage returns, and line feeds that follow none.
pub proof fn every_line_ending_becomes_one_line_feed(s: Seq<char>)
    ensures
        newlines(normalized(s)) == occurrences(s, '\r') + lone_line_feeds(s),
    decreases s.len(),
{
    reveal(Seq::filter);
    if s.len() > 0 {
        every_line_ending_becomes_one_line_feed(s.drop_last());
        let rest = normalized(s.drop_last());
        assert(rest.push('\n').drop_last() =~= rest);
        assert(rest.push(s.last()).drop_last() =~= rest);
    }
}

/// Normalising works line by line: what two texts become together is what they
/// become one by one, unless they part a carriage return from its line feed.
pub proof fn normalizing_adds_up(a: Seq<char>, b: Seq<char>)
    requires
        !(a.len() > 0 && b.len() > 0 && a.last() == '\r' && b[0] == '\n'),
    ensures
        normalized(a + b) == normalized(a) + normalized(b),
    decreases b.len(),
{
    if b.len() == 0 {
        assert(a + b =~= a);
    } else {
        let rest = b.drop_last();
        assert((a + b).drop_last() =~= a + rest);
        normalizing_adds_up(a, rest);
        assert((a + b).last() == b.last());
        if b.len() > 1 {
            assert((a + b)[(a + b).len() - 2] == b[b.len() - 2]);
        } else if a.len() > 0 {
            assert((a + b)[(a + b).len() - 2] == a.last());
        }
        assert(normalized(a) + normalized(rest).push('\n') =~= (normalized(a) + normalized(
            rest,
        )).push('\n'));
        assert(normalized(a) + normalized(rest).push(b.last()) =~= (normalized(a) + normalized(
            rest,
        )).push(b.last()));
    }
}

/// Each of the three ways to end a line becomes one line feed, and any other
/// character stays itself.
pub proof fn line_endings_are_written_alike(c: char)
    ensures
        normalized(seq!['\r', '\n']) == seq!['\n'],
        normalized(seq!['\r']) == seq!['\n'],
        normalized(seq!['\n']) == seq!['\n'],
        c != '\r' ==> normalized(seq![c]) == seq![c],
        normalized(Seq::empty()) == Seq::<char>::empty(),
{
    reveal_with_fuel(normalized, 3);
    assert(seq!['\r', '\n'].drop_last() =~= seq!['\r']);
    assert(seq!['\r'].drop_last() =~= Seq::<char>::empty());
    assert(seq!['\n'].drop_last() =~= Seq::<char>::empty());
    assert(seq![c].drop_last() =~= Seq::<char>::empty());
}

/// `s` with every line feed written as `\r\n`, or as `\r` alone.
pub open spec fn with_returns(s: Seq<char>, feeds: bool) -> Seq<char>
    decreases s.len(),
{
    if s.len() == 0 {
        Seq::empty()
    } else if s.last() != '\n' {
        with_returns(s.drop_last(), feeds).push(s.last())
    } else if feeds {
        with_returns(s.drop_last(), feeds).push('\r').push('\n')
    } else {
        with_returns(s.drop_last(), feeds).push('\r')
    }
}

/// Text that was copied where lines end in `\r\n`, or in `\r`, becomes the text
/// that it is: with all its lines, the empty ones too.
pub proof fn foreign_line_endings_are_undone(s: Seq<char>, feeds: bool)
    requires
        forall|i: int| 0 <= i < s.len() ==> #[trigger] s[i] != '\r',
    ensures
        normalized(with_returns(s, feeds)) == s,
    decreases s.len(),
{
    if s.len() > 0 {
        let rest = s.drop_last();
        foreign_line_endings_are_undone(rest, feeds);
        let written = with_returns(rest, feeds);
        assert(s.last() == s[s.len() - 1]);
        assert(rest.push(s.last()) =~= s);
        assert(written.push('\r').drop_last() =~= written);
        assert(written.push('\r').push('\n').drop_last() =~= written.push('\r'));
        assert(written.push(s.last()).drop_last() =~= written);
        if s.last() == '\n' {
            let returned = written.push('\r');
            assert(normalized(returned) == normalized(written).push('\n'));
            if feeds {
                let both = returned.push('\n');
                assert(both[both.len() - 2] == '\r');
                assert(normalized(both) == normalized(returned));
            }
        }
    }
}

/// What is counted is what is sent: a text has one line more than line endings,
/// however they are written.
pub proof fn lines_are_counted_however_they_end(s: Seq<char>, feeds: bool)
    requires
        forall|i: int| 0 <= i < s.len() ==> #[trigger] s[i] != '\r',
    ensures
        line_count(normalized(with_returns(s, feeds))) == line_count(s),
{
    foreign_line_endings_are_undone(s, feeds);
}

/// The preview of two stretches is the preview of one after the other, and a
/// character appears as itself, unless it is a control character other than a
/// line feed or a tab.
pub proof fn previews_add_up(a: Seq<char>, b: Seq<char>, c: char)
    ensures
        shown_text(a + b) == shown_text(a) + shown_text(b),
        !control_character(c) || c == '\n' || c == '\t' ==> shown_text(seq![c]) == seq![c],
        control_character(c) && c != '\n' && c != '\t' ==> shown_text(seq![c]) == escaped(c),
    decreases b.len(),
{
    reveal_with_fuel(shown_text, 2);
    assert(seq![c].drop_last() =~= Seq::<char>::empty());
    assert(Seq::<char>::empty() + shown(c) =~= shown(c));
    if b.len() == 0 {
        assert(a + b =~= a);
        assert(shown_text(a) + shown_text(b) =~= shown_text(a));
    } else {
        previews_add_up(a, b.drop_last(), c);
        assert((a + b).drop_last() =~= a + b.drop_last());
        assert(shown_text(a) + (shown_text(b.drop_last()) + shown(b.last())) =~= (shown_text(a)
            + shown_text(b.drop_last())) + shown(b.last()));
    }
}

/// Text within the limits is previewed whole; and a preview that leaves something
/// out is as long as a limit allows.
pub proof fn previews_show_as_much_as_they_may(s: Seq<char>, n: int)
    requires
        preview_covers(s, n),
    ensures
        s.len() <= PASTE_PREVIEW_CHARACTER_LIMIT && newlines(s) < PASTE_PREVIEW_LINE_LIMIT ==> n
            == s.len(),
        n < s.len() ==> n == PASTE_PREVIEW_CHARACTER_LIMIT || (s[n] == '\n' && newlines(s.take(n))
            + 1 == PASTE_PREVIEW_LINE_LIMIT),
        s.len() > PASTE_PREVIEW_CHARACTER_LIMIT ==> n < s.len(),
{
    if n < s.len() {
        newlines_add_up(s.take(n + 1), s.skip(n + 1));
        assert(s.take(n + 1) + s.skip(n + 1) =~= s);
        assert(s.take(n + 1).drop_last() =~= s.take(n));
    } else if s.len() > PASTE_PREVIEW_CHARACTER_LIMIT {
        assert(preview_stops(s, PASTE_PREVIEW_CHARACTER_LIMIT as int));
    }
}

/// A paste is confirmed exactly where it is large, in characters or in lines, or
/// where it has a line ending and the program would run its lines one by one. A
/// short single line is sent unasked.
pub proof fn small_pastes_are_sent_unasked(s: Seq<char>, bracketed_paste: bool)
    requires
        newlines(s) < usize::MAX,
    ensures
        s.len() >= 4_096 ==> needs_confirmation(s, bracketed_paste),
        newlines(s) >= 99 ==> needs_confirmation(s, bracketed_paste),
        newlines(s) >= 1 ==> needs_confirmation(s, false),
        s.len() < 4_096 && newlines(s) < 99 ==> !needs_confirmation(s, true),
        s.len() < 4_096 && newlines(s) == 0 ==> !needs_confirmation(s, false),
{
}

} // verus!
