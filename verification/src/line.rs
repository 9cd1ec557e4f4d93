//! Lines of output and where they came from.

use vstd::prelude::*;

verus! {

/// Which of a child's two output streams produced a line.
#[derive(Clone, Copy, Debug, PartialEq, Eq, Hash, Structural)]
pub enum Origin {
    StandardOutput,
    StandardError,
}

/// A line of text together with the stream that produced it.
#[derive(Clone, Debug, PartialEq, Eq)]
pub struct TaggedLine {
    pub origin: Origin,
    pub text: String,
}

/// The mathematical value of a [`TaggedLine`].
pub ghost struct TaggedLineView {
    pub origin: Origin,
    pub text: Seq<char>,
}

impl View for TaggedLine {
    type V = TaggedLineView;

    open spec fn view(&self) -> TaggedLineView {
        TaggedLineView { origin: self.origin, text: self.text@ }
    }
}

/// The texts of the lines of `origin` among `lines`, in the order in which
/// they stand there.
pub open spec fn texts_of(lines: Seq<TaggedLineView>, origin: Origin) -> Seq<Seq<char>>
    decreases lines.len(),
{
    if lines.len() == 0 {
        Seq::empty()
    } else {
        let before = texts_of(lines.drop_last(), origin);
        if lines.last().origin == origin {
            before.push(lines.last().text)
        } else {
            before
        }
    }
}

/// A line added at the end shows up at the end of its own origin's texts and
/// nowhere else.
pub proof fn lemma_texts_of_push(lines: Seq<TaggedLineView>, line: TaggedLineView, origin: Origin)
    ensures
        texts_of(lines.push(line), origin) == if line.origin == origin {
            texts_of(lines, origin).push(line.text)
        } else {
            texts_of(lines, origin)
        },
{
    assert(lines.push(line).drop_last() == lines);
}

/// The texts of an origin in two sequences joined are its texts in the first
/// followed by its texts in the second.
pub proof fn lemma_texts_of_concat(
    first: Seq<TaggedLineView>,
    second: Seq<TaggedLineView>,
    origin: Origin,
)
    ensures
        texts_of(first + second, origin) == texts_of(first, origin) + texts_of(second, origin),
    decreases second.len(),
{
    if second.len() == 0 {
        assert(first + second == first);
        assert(texts_of(first, origin) + texts_of(second, origin) == texts_of(first, origin));
    } else {
        let front = second.drop_last();
        assert(first + second == (first + front).push(second.last()));
        lemma_texts_of_push(first + front, second.last(), origin);
        lemma_texts_of_concat(first, front, origin);
        assert((texts_of(first, origin) + texts_of(front, origin)).push(second.last().text)
            == texts_of(first, origin) + texts_of(front, origin).push(second.last().text));
    }
}

/// Every line belongs to exactly one origin.
pub proof fn lemma_texts_of_partition(lines: Seq<TaggedLineView>)
    ensures
        texts_of(lines, Origin::StandardOutput).len() + texts_of(lines, Origin::StandardError).len()
            == lines.len(),
    decreases lines.len(),
{
    if lines.len() > 0 {
        lemma_texts_of_partition(lines.drop_last());
    }
}

/// The characters that count as whitespace: the code points with the Unicode
/// property `White_Space`.
pub open spec fn is_whitespace(c: char) -> bool {
    let code = c as u32;
    ||| 0x09 <= code <= 0x0D
    ||| code == 0x20
    ||| code == 0x85
    ||| code == 0xA0
    ||| code == 0x1680
    ||| 0x2000 <= code <= 0x200A
    ||| code == 0x2028
    ||| code == 0x2029
    ||| code == 0x202F
    ||| code == 0x205F
    ||| code == 0x3000
}

/// How many characters of `s` remain once trailing whitespace is removed.
pub open spec fn trimmed_len(s: Seq<char>) -> nat
    decreases s.len(),
{
    if s.len() == 0 {
        0
    } else if is_whitespace(s.last()) {
        trimmed_len(s.drop_last())
    } else {
        s.len()
    }
}

/// `s` without its trailing whitespace.
pub open spec fn trim_end(s: Seq<char>) -> Seq<char> {
    s.subrange(0, trimmed_len(s) as int)
}

/// Whether `c` is whitespace.
pub fn char_is_whitespace(c: char) -> (blank: bool)
    ensures
        blank == is_whitespace(c),
{
    let code: u32 = c as u32;
    (0x09 <= code && code <= 0x0D) || code == 0x20 || code == 0x85 || code == 0xA0 || code
        == 0x1680 || (0x2000 <= code && code <= 0x200A) || code == 0x2028 || code == 0x2029
        || code == 0x202F || code == 0x205F || code == 0x3000
}

/// Trimming keeps a prefix of the sequence that does not end in whitespace,
/// and everything it removes is whitespace.
pub proof fn lemma_trim_end_shape(s: Seq<char>)
    ensures
        trimmed_len(s) <= s.len(),
        trim_end(s).len() == trimmed_len(s),
        forall|i: int| 0 <= i < trimmed_len(s) ==> trim_end(s)[i] == s[i],
        forall|i: int| trimmed_len(s) <= i < s.len() ==> is_whitespace(s[i]),
        trimmed_len(s) > 0 ==> !is_whitespace(s[trimmed_len(s) - 1]),
    decreases s.len(),
{
    if s.len() > 0 && is_whitespace(s.last()) {
        let front = s.drop_last();
        lemma_trim_end_shape(front);
        assert forall|i: int| trimmed_len(s) <= i < s.len() implies is_whitespace(s[i]) by {
            if i < front.len() {
                assert(s[i] == front[i]);
            }
        }
    }
}

/// A line that ends in any run of whitespace, such as a carriage return and
/// a newline, is trimmed back to the text before that run.
pub proof fn lemma_trim_end_removes_tail(body: Seq<char>, tail: Seq<char>)
    requires
        body.len() > 0 ==> !is_whitespace(body.last()),
        forall|i: int| 0 <= i < tail.len() ==> is_whitespace(tail[i]),
    ensures
        trim_end(body + tail) == body,
    decreases tail.len(),
{
    let whole = body + tail;
    if tail.len() == 0 {
        assert(whole == body);
        assert(trim_end(body) == body);
    } else {
        assert(whole.last() == tail.last());
        assert(whole.drop_last() == body + tail.drop_last());
        lemma_trim_end_removes_tail(body, tail.drop_last());
        lemma_trim_end_shape(whole.drop_last());
        assert(trim_end(whole) == trim_end(whole.drop_last()));
    }
}

/// Trimming twice removes no more than trimming once.
pub proof fn lemma_trim_end_idempotent(s: Seq<char>)
    ensures
        trim_end(trim_end(s)) == trim_end(s),
{
    lemma_trim_end_shape(s);
    lemma_trim_end_removes_tail(trim_end(s), Seq::empty());
    assert(trim_end(s) + Seq::<char>::empty() == trim_end(s));
}

/// Removes trailing whitespace from a raw line.
pub fn trim_line(raw: &str) -> (trimmed: String)
    ensures
        trimmed@ == trim_end(raw@),
{
    let total: usize = raw.unicode_len();
    let mut kept: usize = 0;
    let mut seen: usize = 0;
    for c in it: raw.chars()
        invariant
            it.seq() == raw@,
            seen == it.index(),
            seen <= total,
            total == raw@.len(),
            kept == trimmed_len(raw@.subrange(0, seen as int)),
    {
        assert(raw@.subrange(0, seen + 1).drop_last() == raw@.subrange(0, seen as int));
        seen = seen + 1;
        if !char_is_whitespace(c) {
            kept = seen;
        }
    }
    assert(raw@.subrange(0, seen as int) == raw@);
    proof {
        lemma_trim_end_shape(raw@);
    }
    raw.substring_char(0, kept).to_owned()
}

} // verus!
