//! Line framing: each message goes on the wire as one line, and a stream of
//! whole lines splits back into the messages it was made of.

use vstd::prelude::*;

verus! {

/// A message's text as it goes on the wire: the text and one line feed.
pub open spec fn frame(text: Seq<char>) -> Seq<char> {
    text.push('\n')
}

/// Whether a text is one whole line: it ends in a line feed and holds no
/// other.
pub open spec fn is_one_line(line: Seq<char>) -> bool {
    &&& line.len() > 0
    &&& line.last() == '\n'
    &&& !line.drop_last().contains('\n')
}

/// The stream that comes of writing each text as one line, first to last.
pub open spec fn stream_of(texts: Seq<Seq<char>>) -> Seq<char>
    decreases texts.len(),
{
    if texts.len() == 0 {
        Seq::empty()
    } else {
        frame(texts[0]) + stream_of(texts.drop_first())
    }
}

/// Where the first line of a stream ends: the place of its first line feed.
pub open spec fn first_line_end(stream: Seq<char>) -> int {
    choose|at: int| ends_first_line(stream, at)
}

/// The lines of a stream, each without its line feed. What follows the last
/// line feed is no line.
pub open spec fn lines_of(stream: Seq<char>) -> Seq<Seq<char>>
    decreases stream.len(),
{
    let end = first_line_end(stream);
    if stream.contains('\n') && 0 <= end < stream.len() {
        seq![stream.take(end)] + lines_of(stream.skip(end + 1))
    } else {
        Seq::empty()
    }
}

/// A text without a line feed is framed as one whole line.
pub proof fn lemma_frame_is_one_line(text: Seq<char>)
    requires
        !text.contains('\n'),
    ensures
        is_one_line(frame(text)),
{
    assert(frame(text).drop_last() =~= text);
}

/// Whether `at` is where the first line of `stream` ends.
pub open spec fn ends_first_line(stream: Seq<char>, at: int) -> bool {
    0 <= at < stream.len() && stream[at] == '\n' && forall|j: int|
        0 <= j < at ==> stream[j] != '\n'
}

/// The first line of a stream that begins with a framed text without a
/// line feed is that text, and what follows the frame is left.
pub proof fn lemma_first_line(first: Seq<char>, tail: Seq<char>)
    requires
        !first.contains('\n'),
    ensures
        (frame(first) + tail).contains('\n'),
        first_line_end(frame(first) + tail) == first.len(),
        (frame(first) + tail).take(first.len() as int) == first,
        (frame(first) + tail).skip(first.len() as int + 1) == tail,
{
    let stream = frame(first) + tail;
    let at = first.len() as int;
    assert(stream[at] == '\n');
    assert forall|j: int| 0 <= j < at implies stream[j] != '\n' by {
        assert(stream[j] == first[j]);
    }
    assert(ends_first_line(stream, at));
    let end = first_line_end(stream);
    assert(ends_first_line(stream, end));
    if end < at {
        assert(stream[end] != '\n');
    } else if end > at {
        assert(stream[at] != '\n');
    }
    assert(stream.take(at) =~= first);
    assert(stream.skip(at + 1) =~= tail);
}

/// Whole lines never run into each other: in whatever order texts without
/// a line feed are written, each as one line, the stream splits at its line
/// feeds into exactly those texts, in the order they were written.
pub proof fn lemma_lines_of_stream(texts: Seq<Seq<char>>)
    requires
        forall|i: int| 0 <= i < texts.len() ==> !(#[trigger] texts[i]).contains('\n'),
    ensures
        lines_of(stream_of(texts)) == texts,
    decreases texts.len(),
{
    if texts.len() == 0 {
        assert(texts =~= Seq::empty());
    } else {
        let first = texts[0];
        let rest = texts.drop_first();
        lemma_first_line(first, stream_of(rest));
        assert forall|i: int| 0 <= i < rest.len() implies !(#[trigger] rest[i]).contains('\n') by {
            assert(rest[i] == texts[i + 1]);
        }
        lemma_lines_of_stream(rest);
        assert(seq![first] + rest =~= texts);
    }
}

/// Whether a stream is made of whole lines: it is empty or ends in a line
/// feed.
pub open spec fn is_whole(stream: Seq<char>) -> bool {
    stream.len() == 0 || stream.last() == '\n'
}

/// A stream's first line ends in one place only.
pub proof fn lemma_first_line_end_unique(stream: Seq<char>, a: int, b: int)
    requires
        ends_first_line(stream, a),
        ends_first_line(stream, b),
    ensures
        a == b,
{
    if a < b {
        assert(stream[a] != '\n');
    } else if b < a {
        assert(stream[b] != '\n');
    }
}

/// Writing one more whole line after whole lines adds that line to the
/// lines of the stream and leaves the others as they were.
pub proof fn lemma_lines_of_append(stream: Seq<char>, text: Seq<char>)
    requires
        is_whole(stream),
        !text.contains('\n'),
    ensures
        lines_of(stream + frame(text)) == lines_of(stream).push(text),
        is_whole(stream + frame(text)),
    decreases stream.len(),
{
    let after = stream + frame(text);
    assert(after.last() == '\n');
    if !stream.contains('\n') {
        assert(stream.len() == 0) by {
            if stream.len() > 0 {
                assert(stream[stream.len() - 1] == '\n');
            }
        }
        let nothing = Seq::<char>::empty();
        assert(after =~= frame(text) + nothing);
        lemma_first_line(text, nothing);
        assert(!nothing.contains('\n'));
        assert(lines_of(nothing) =~= Seq::empty());
        assert(lines_of(stream) =~= Seq::empty());
        assert(lines_of(after) == seq![text] + lines_of(nothing));
        assert(seq![text] + Seq::<Seq<char>>::empty() =~= Seq::<Seq<char>>::empty().push(text));
    } else {
        let at = choose|i: int| 0 <= i < stream.len() && stream[i] == '\n';
        lemma_first_line_exists(stream, at);
        let end = first_line_end(stream);
        assert(ends_first_line(stream, end));
        assert(after[end] == stream[end]);
        assert forall|j: int| 0 <= j < end implies after[j] != '\n' by {
            assert(after[j] == stream[j]);
        }
        assert(ends_first_line(after, end));
        assert(after[end] == '\n');
        assert(after.contains('\n'));
        lemma_first_line_end_unique(after, end, first_line_end(after));
        let rest = stream.skip(end + 1);
        assert(after.take(end) =~= stream.take(end));
        assert(after.skip(end + 1) =~= rest + frame(text));
        assert(is_whole(rest)) by {
            if rest.len() > 0 {
                assert(rest.last() == stream.last());
            }
        }
        lemma_lines_of_append(rest, text);
        assert(first_line_end(after) == end);
        assert(lines_of(after) == seq![after.take(end)] + lines_of(after.skip(end + 1)));
        assert(lines_of(stream) == seq![stream.take(end)] + lines_of(rest));
        assert(seq![stream.take(end)] + lines_of(rest).push(text) =~= (seq![stream.take(end)]
            + lines_of(rest)).push(text));
    }
}

/// A stream that holds a line feed has a place where its first line ends.
pub proof fn lemma_first_line_exists(stream: Seq<char>, at: int)
    requires
        0 <= at < stream.len(),
        stream[at] == '\n',
    ensures
        ends_first_line(stream, first_line_end(stream)),
        first_line_end(stream) <= at,
    decreases at,
{
    if exists|j: int| 0 <= j < at && stream[j] == '\n' {
        let j = choose|j: int| 0 <= j < at && stream[j] == '\n';
        lemma_first_line_exists(stream, j);
    } else {
        assert(ends_first_line(stream, at));
        lemma_first_line_end_unique(stream, at, first_line_end(stream));
    }
}

} // verus!
