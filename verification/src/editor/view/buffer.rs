//! The text of one document, line by line.

use vstd::prelude::*;
use vstd::std_specs::iter::IteratorSpec;
use vstd::string::*;

verus! {

/// Where the first line feed of `text` stands, or the length of `text` where
/// it holds none.
pub open spec fn first_line_feed(text: Seq<char>) -> int
    decreases text.len(),
{
    if text.len() == 0 || text[0] == '\n' {
        0
    } else {
        1 + first_line_feed(text.drop_first())
    }
}

/// `line` without the carriage return at its end, if it has one there.
pub open spec fn without_carriage_return(line: Seq<char>) -> Seq<char> {
    if line.len() > 0 && line.last() == '\r' {
        line.drop_last()
    } else {
        line
    }
}

/// The lines of `text`.
///
/// A line ends with a line feed, or with a carriage return and a line feed
/// after it; neither belongs to the line. What follows the last line feed is
/// a line too, unless nothing follows it: so the empty text has no line, and
/// a text has the same lines with and without a line feed at its very end.
/// A carriage return anywhere else stays in its line.
pub open spec fn text_lines(text: Seq<char>) -> Seq<Seq<char>>
    decreases text.len(),
{
    let end = first_line_feed(text);
    if text.len() == 0 {
        Seq::empty()
    } else if 0 <= end < text.len() {
        seq![without_carriage_return(text.take(end))] + text_lines(text.skip(end + 1))
    } else {
        seq![text]
    }
}

/// Whether `text` holds no line feed.
pub open spec fn no_line_feed(text: Seq<char>) -> bool {
    forall|i: int| 0 <= i < text.len() ==> text[i] != '\n'
}

/// The first line feed of a text stands where the text's part without line
/// feeds ends.
pub proof fn lemma_first_line_feed(head: Seq<char>, tail: Seq<char>)
    requires
        no_line_feed(head),
        tail.len() == 0 || tail[0] == '\n',
    ensures
        first_line_feed(head + tail) == head.len(),
    decreases head.len(),
{
    if head.len() > 0 {
        assert((head + tail).drop_first() =~= head.drop_first() + tail);
        lemma_first_line_feed(head.drop_first(), tail);
    }
}

/// A line feed, alone or after a carriage return: what may end a line.
pub open spec fn is_line_ending(ending: Seq<char>) -> bool {
    ending == seq!['\n'] || ending == seq!['\r', '\n']
}

/// Whether `line` can be told from its ending `ending`: it holds no line
/// feed, and where the ending is a line feed alone it does not end with a
/// carriage return, which would be taken for a part of the ending.
pub open spec fn is_line_before(line: Seq<char>, ending: Seq<char>) -> bool {
    &&& no_line_feed(line)
    &&& ending == seq!['\n'] ==> line.len() == 0 || line.last() != '\r'
}

/// The text that holds the lines of `lines` in their order, each with the
/// ending `ending` after it.
pub open spec fn joined(lines: Seq<Seq<char>>, ending: Seq<char>) -> Seq<char>
    decreases lines.len(),
{
    if lines.len() == 0 {
        Seq::empty()
    } else {
        lines.first() + ending + joined(lines.drop_first(), ending)
    }
}

/// A text that starts with ended lines has these as its first lines, and
/// after them the lines of what follows.
pub proof fn lemma_lines_after_joined(lines: Seq<Seq<char>>, ending: Seq<char>, rest: Seq<char>)
    requires
        is_line_ending(ending),
        forall|k: int| 0 <= k < lines.len() ==> is_line_before(#[trigger] lines[k], ending),
    ensures
        text_lines(joined(lines, ending) + rest) == lines + text_lines(rest),
    decreases lines.len(),
{
    if lines.len() > 0 {
        let line = lines.first();
        let others = lines.drop_first();
        let text = joined(lines, ending) + rest;
        let after = joined(others, ending) + rest;
        lemma_lines_after_joined(others, ending, rest);
        if ending == seq!['\n'] {
            assert(text =~= line + (ending + after));
            lemma_first_line_feed(line, ending + after);
            assert(text.take(line.len() as int) =~= line);
            assert(text.skip(line.len() as int + 1) =~= after);
        } else {
            let head = line.push('\r');
            assert(text =~= head + (seq!['\n'] + after));
            lemma_first_line_feed(head, seq!['\n'] + after);
            assert(text.take(head.len() as int) =~= head);
            assert(head.drop_last() =~= line);
            assert(text.skip(head.len() as int + 1) =~= after);
        }
    }
}

/// A text of N ended lines has exactly these N lines, in their order and
/// without their endings: as many lines as the text holds, and the line at
/// each place equal to the one that was put there.
pub proof fn lemma_lines_of_joined(lines: Seq<Seq<char>>, ending: Seq<char>)
    requires
        is_line_ending(ending),
        forall|k: int| 0 <= k < lines.len() ==> is_line_before(#[trigger] lines[k], ending),
    ensures
        text_lines(joined(lines, ending)) == lines,
        text_lines(joined(lines, ending)).len() == lines.len(),
        forall|k: int|
            0 <= k < lines.len() ==> (#[trigger] text_lines(joined(lines, ending))[k]) == lines[k],
{
    lemma_lines_after_joined(lines, ending, Seq::empty());
}

/// The ending of the last line may be left out: a text whose last line is not
/// empty has the same lines with that line ended and not.
pub proof fn lemma_last_ending_is_optional(
    lines: Seq<Seq<char>>,
    ending: Seq<char>,
    last: Seq<char>,
)
    requires
        is_line_ending(ending),
        forall|k: int| 0 <= k < lines.len() ==> is_line_before(#[trigger] lines[k], ending),
        is_line_before(last, ending),
        last.len() > 0,
    ensures
        text_lines(joined(lines, ending) + last) == lines.push(last),
        text_lines(joined(lines, ending) + last) == text_lines(joined(lines.push(last), ending)),
{
    lemma_lines_after_joined(lines, ending, last);
    lemma_first_line_feed(last, Seq::empty());
    lemma_lines_of_joined(lines.push(last), ending);
}

/// No line of a text holds a line feed: the endings are not kept.
pub proof fn lemma_lines_hold_no_line_feed(text: Seq<char>)
    ensures
        forall|k: int| 0 <= k < text_lines(text).len() ==> no_line_feed(#[trigger] text_lines(text)[k]),
    decreases text.len(),
{
    let end = first_line_feed(text);
    lemma_first_line_feed_is_first(text);
    if 0 <= end < text.len() {
        let rest = text.skip(end + 1);
        lemma_lines_hold_no_line_feed(rest);
        assert forall|k: int| 0 <= k < text_lines(text).len() implies no_line_feed(
            #[trigger] text_lines(text)[k],
        ) by {
            if k > 0 {
                assert(text_lines(text)[k] == text_lines(rest)[k - 1]);
            }
        }
    }
}

/// `first_line_feed` is what its name says: no line feed stands before it,
/// and one stands at it unless it is the length of the text.
pub proof fn lemma_first_line_feed_is_first(text: Seq<char>)
    ensures
        0 <= first_line_feed(text) <= text.len(),
        forall|i: int| 0 <= i < first_line_feed(text) ==> text[i] != '\n',
        first_line_feed(text) < text.len() ==> text[first_line_feed(text)] == '\n',
    decreases text.len(),
{
    if text.len() == 0 || text[0] == '\n' {
    } else {
        let rest = text.drop_first();
        lemma_first_line_feed_is_first(rest);
        assert forall|i: int| 0 <= i < first_line_feed(text) implies text[i] != '\n' by {
            if i > 0 {
                assert(text[i] == rest[i - 1]);
            }
        }
    }
}

/// The lines of a document, in the order of the text they were read from.
/// A buffer without lines is the empty document.
pub struct Buffer {
    pub lines: Vec<String>,
}

impl View for Buffer {
    type V = Seq<Seq<char>>;

    /// The lines as sequences of characters.
    open spec fn view(&self) -> Seq<Seq<char>> {
        self.lines@.map_values(|line: String| line@)
    }
}

/// Puts `c` at the end of `text`, by `String::push` of the standard library.
/// Taken on trust: that `text` then holds what it held before and `c` after
/// it, as the documentation of `push` says.
#[verifier::external_body]
fn push_char(text: &mut String, c: char)
    ensures
        final(text)@ == old(text)@.push(c),
{
    text.push(c);
}

impl Default for Buffer {
    /// The document without lines.
    fn default() -> (buffer: Self)
        ensures
            buffer@ == Seq::<Seq<char>>::empty(),
    {
        Buffer { lines: Vec::new() }
    }
}

impl Buffer {
    /// Whether the document has no line at all.
    pub fn is_empty(&self) -> (empty: bool)
        ensures
            empty <==> self@.len() == 0,
    {
        self.lines.is_empty()
    }

    /// The document that `contents` is the text of.
    pub fn load(contents: &str) -> (buffer: Self)
        ensures
            buffer@ == text_lines(contents@),
    {
        broadcast use vstd::string::group_string_axioms;

        let ghost text = contents@;
        let mut buffer = Buffer { lines: Vec::new() };
        // The line being read, but for a carriage return at its end: that one
        // is held back, since it belongs to the line only if no line feed
        // follows it.
        let mut line = String::new();
        let mut held_back = false;
        let mut chars = contents.chars();
        // How many characters were read, and those of them that came after
        // the last line feed.
        let ghost mut read: int = 0;
        let ghost mut raw: Seq<char> = Seq::empty();
        assert(raw + text.skip(0) =~= text);
        loop
            invariant_except_break
                0 <= read <= text.len(),
                chars.remaining() == text.skip(read),
                raw == line@ + (if held_back { seq!['\r'] } else { Seq::<char>::empty() }),
                no_line_feed(raw),
                !held_back ==> line@.len() == 0 || line@.last() != '\r',
                text_lines(text) == buffer@ + text_lines(raw + text.skip(read)),
            ensures
                raw == line@ + (if held_back { seq!['\r'] } else { Seq::<char>::empty() }),
                no_line_feed(raw),
                text_lines(text) == buffer@ + text_lines(raw),
            decreases text.len() - read,
        {
            match chars.next() {
                None => {
                    break ;
                },
                Some(c) => {
                    if c == '\n' {
                        proof {
                            let rest = text.skip(read);
                            lemma_first_line_feed(raw, rest);
                            assert((raw + rest).take(raw.len() as int) =~= raw);
                            assert((raw + rest).skip(raw.len() as int + 1) =~= text.skip(read + 1));
                            assert(without_carriage_return(raw) =~= line@);
                        }
                        buffer.lines.push(line);
                        line = String::new();
                        held_back = false;
                        proof {
                            raw = Seq::empty();
                        }
                    } else {
                        if held_back {
                            push_char(&mut line, '\r');
                        }
                        if c == '\r' {
                            held_back = true;
                        } else {
                            held_back = false;
                            push_char(&mut line, c);
                        }
                        proof {
                            assert(raw.push(c) + text.skip(read + 1) =~= raw + text.skip(read));
                            raw = raw.push(c);
                        }
                    }
                    proof {
                        read = read + 1;
                    }
                },
            }
        }
        if held_back {
            push_char(&mut line, '\r');
        }
        assert(line@ =~= raw);
        proof {
            lemma_first_line_feed(raw, Seq::empty());
        }
        if !line.as_str().is_empty() {
            buffer.lines.push(line);
        }
        buffer
    }
}

} // verus!
