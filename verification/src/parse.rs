//! Splitting text into lines and words, as `str::lines`, `str::split_whitespace`
//! and `str::trim` do it.

use vstd::prelude::*;

verus! {

/// Whether `c` is white space: the answer of `char::is_whitespace`.
pub uninterp spec fn is_whitespace(c: char) -> bool;

/// Calls `char::is_whitespace`, which tells whether a character has the
/// Unicode property `White_Space`. The answer depends on the character alone.
#[verifier::external_body]
fn char_is_whitespace(c: char) -> (white: bool)
    ensures
        white == is_whitespace(c),
{
    c.is_whitespace()
}

/// Calls `String::push`, which appends one character to the end of a string.
#[verifier::external_body]
fn push_char(text: &mut String, c: char)
    ensures
        final(text)@ == old(text)@.push(c),
{
    text.push(c)
}

/// What a scan runs over.
#[derive(Clone, Copy, Debug, PartialEq, Eq, Structural)]
pub enum Run {
    /// White space.
    Blank,
    /// Anything but white space.
    Word,
    /// Anything but the given character.
    Until(char),
}

impl Run {
    /// Whether `c` belongs to the run.
    pub open spec fn holds(self, c: char) -> bool {
        match self {
            Run::Blank => is_whitespace(c),
            Run::Word => !is_whitespace(c),
            Run::Until(stop) => c != stop,
        }
    }

    /// Computes [`Run::holds`].
    pub fn test(self, c: char) -> (held: bool)
        ensures
            held == self.holds(c),
    {
        match self {
            Run::Blank => char_is_whitespace(c),
            Run::Word => !char_is_whitespace(c),
            Run::Until(stop) => c != stop,
        }
    }
}

/// The number of characters at the start of `text` that belong to `run`.
pub open spec fn run_length(text: Seq<char>, run: Run) -> nat
    decreases text.len(),
{
    if text.len() == 0 || !run.holds(text[0]) {
        0
    } else {
        1 + run_length(text.drop_first(), run)
    }
}

/// A run ends at the first character that does not belong to it, or with the text.
pub proof fn lemma_run_length(text: Seq<char>, run: Run)
    ensures
        run_length(text, run) <= text.len(),
        forall|i: int| 0 <= i < run_length(text, run) ==> run.holds(#[trigger] text[i]),
        run_length(text, run) < text.len() ==> !run.holds(text[run_length(text, run) as int]),
    decreases text.len(),
{
    if text.len() > 0 && run.holds(text[0]) {
        let rest = text.drop_first();
        lemma_run_length(rest, run);
        assert forall|i: int| 0 <= i < run_length(text, run) implies run.holds(
            #[trigger] text[i],
        ) by {
            if i > 0 {
                assert(text[i] == rest[i - 1]);
            }
        }
        if run_length(text, run) < text.len() {
            assert(text[run_length(text, run) as int] == rest[run_length(rest, run) as int]);
        }
    }
}

/// The run has the length `count` if the first `count` characters belong to
/// it and the next one, if there is one, does not.
pub proof fn lemma_run_length_is(text: Seq<char>, run: Run, count: nat)
    requires
        count <= text.len(),
        forall|i: int| 0 <= i < count ==> run.holds(#[trigger] text[i]),
        count < text.len() ==> !run.holds(text[count as int]),
    ensures
        run_length(text, run) == count,
    decreases count,
{
    if count > 0 {
        let rest = text.drop_first();
        assert(run.holds(text[0]));
        assert forall|i: int| 0 <= i < count - 1 implies run.holds(#[trigger] rest[i]) by {
            assert(rest[i] == text[i + 1]);
        }
        if count - 1 < rest.len() {
            assert(rest[count - 1] == text[count as int]);
        }
        lemma_run_length_is(rest, run, (count - 1) as nat);
    }
}

/// `line` without a carriage return at its end.
pub open spec fn without_cr(line: Seq<char>) -> Seq<char> {
    if line.len() > 0 && line.last() == '\r' {
        line.drop_last()
    } else {
        line
    }
}

/// The lines of `text`. A line ends with a line feed, or with the text; the
/// line feed, and a carriage return directly before it, are not part of the
/// line. Nothing follows the last line feed of a text that ends with one.
pub open spec fn lines(text: Seq<char>) -> Seq<Seq<char>>
    decreases text.len(),
{
    let end = run_length(text, Run::Until('\n')) as int;
    if text.len() == 0 {
        Seq::empty()
    } else if end >= text.len() {
        seq![text]
    } else {
        seq![without_cr(text.subrange(0, end))] + lines(text.subrange(end + 1, text.len() as int))
    }
}

/// The first word of a text that does not start with white space is not
/// empty, and no longer than the text.
pub proof fn lemma_word_size(rest: Seq<char>)
    requires
        rest.len() > 0,
        !is_whitespace(rest[0]),
    ensures
        0 < run_length(rest, Run::Word) <= rest.len(),
{
    lemma_run_length(rest, Run::Word);
    assert(Run::Word.holds(rest[0]));
    assert(run_length(rest, Run::Word) == 1 + run_length(rest.drop_first(), Run::Word));
}

/// The words of `text`: its longest stretches without white space, in order.
pub open spec fn words(text: Seq<char>) -> Seq<Seq<char>>
    decreases text.len(),
{
    let start = run_length(text, Run::Blank) as int;
    if start >= text.len() {
        Seq::empty()
    } else {
        let rest = text.subrange(start, text.len() as int);
        let size = run_length(rest, Run::Word) as int;
        proof {
            lemma_run_length(text, Run::Blank);
            lemma_word_size(rest);
        }
        seq![rest.subrange(0, size)] + words(rest.subrange(size, rest.len() as int))
    }
}

/// `text` without the white space at its start and at its end.
pub open spec fn trimmed(text: Seq<char>) -> Seq<char> {
    let start = run_length(text, Run::Blank) as int;
    let tail = run_length(text.reverse(), Run::Blank) as int;
    if start + tail >= text.len() {
        Seq::empty()
    } else {
        text.subrange(start, text.len() - tail)
    }
}

/// Whether `text` starts with `prefix`.
pub open spec fn has_prefix(text: Seq<char>, prefix: Seq<char>) -> bool {
    prefix.len() <= text.len() && text.subrange(0, prefix.len() as int) == prefix
}

/// The texts of a list of character vectors.
pub open spec fn rows(vectors: Seq<Vec<char>>) -> Seq<Seq<char>> {
    Seq::new(vectors.len(), |i: int| vectors[i]@)
}

/// The characters of `text`.
pub fn chars_of(text: &str) -> (chars: Vec<char>)
    ensures
        chars@ == text@,
{
    let mut chars: Vec<char> = Vec::new();
    for c in it: text.chars()
        invariant
            it.seq() == text@,
            chars@ == it.seq().subrange(0, it.index() as int),
    {
        chars.push(c);
        assert(chars@ =~= it.seq().subrange(0, it.index() + 1));
    }
    assert(chars@ =~= text@);
    chars
}

/// The string made of `chars`.
pub fn string_of(chars: &Vec<char>) -> (text: String)
    ensures
        text@ == chars@,
{
    let mut text = String::new();
    let mut i: usize = 0;
    while i < chars.len()
        invariant
            i <= chars.len(),
            text@ == chars@.subrange(0, i as int),
        decreases chars.len() - i,
    {
        push_char(&mut text, chars[i]);
        i = i + 1;
        assert(text@ =~= chars@.subrange(0, i as int));
    }
    assert(text@ =~= chars@);
    text
}

/// The characters of `chars` from `from` up to `to`.
pub fn copy_range(chars: &Vec<char>, from: usize, to: usize) -> (part: Vec<char>)
    requires
        from <= to <= chars.len(),
    ensures
        part@ == chars@.subrange(from as int, to as int),
{
    let mut part: Vec<char> = Vec::new();
    let mut i: usize = from;
    while i < to
        invariant
            from <= i <= to <= chars.len(),
            part@ == chars@.subrange(from as int, i as int),
        decreases to - i,
    {
        part.push(chars[i]);
        i = i + 1;
        assert(part@ =~= chars@.subrange(from as int, i as int));
    }
    part
}

/// Whether `chars` spells `text`.
pub fn spells(chars: &Vec<char>, text: &str) -> (same: bool)
    ensures
        same == (chars@ == text@),
{
    let wanted = chars_of(text);
    if wanted.len() != chars.len() {
        return false;
    }
    let mut i: usize = 0;
    while i < chars.len()
        invariant
            i <= chars.len(),
            wanted.len() == chars.len(),
            wanted@ == text@,
            forall|j: int| 0 <= j < i ==> chars@[j] == wanted@[j],
        decreases chars.len() - i,
    {
        if chars[i] != wanted[i] {
            assert(chars@[i as int] != text@[i as int]);
            return false;
        }
        i = i + 1;
    }
    assert(chars@ =~= wanted@);
    true
}

/// The end of the run that starts at `from`.
pub fn skip(chars: &Vec<char>, from: usize, run: Run) -> (end: usize)
    requires
        from <= chars.len(),
    ensures
        from <= end <= chars.len(),
        end - from == run_length(chars@.subrange(from as int, chars.len() as int), run),
{
    let mut end: usize = from;
    while end < chars.len() && run.test(chars[end])
        invariant
            from <= end <= chars.len(),
            forall|j: int| from <= j < end ==> run.holds(chars@[j]),
        decreases chars.len() - end,
    {
        end = end + 1;
    }
    proof {
        let rest = chars@.subrange(from as int, chars.len() as int);
        lemma_run_length_is(rest, run, (end - from) as nat);
    }
    end
}

/// Splits `chars` into [`lines`].
pub fn split_lines(chars: &Vec<char>) -> (parts: Vec<Vec<char>>)
    ensures
        rows(parts@) == lines(chars@),
{
    let mut parts: Vec<Vec<char>> = Vec::new();
    let mut pos: usize = 0;
    assert(chars@.subrange(0, chars.len() as int) =~= chars@);
    assert(rows(parts@) + lines(chars@) =~= lines(chars@));
    while pos < chars.len()
        invariant
            pos <= chars.len(),
            lines(chars@) == rows(parts@) + lines(chars@.subrange(pos as int, chars.len() as int)),
        decreases chars.len() - pos,
    {
        let ghost rest = chars@.subrange(pos as int, chars.len() as int);
        let ghost done = rows(parts@);
        let end = skip(chars, pos, Run::Until('\n'));
        if end >= chars.len() {
            parts.push(copy_range(chars, pos, end));
            proof {
                assert(chars@.subrange(pos as int, end as int) =~= rest);
                assert(lines(rest) =~= seq![rest]);
                assert(lines(chars@.subrange(end as int, chars.len() as int)) =~= Seq::<
                    Seq<char>,
                >::empty());
                assert(rows(parts@) =~= done + seq![rest]);
            }
            pos = end;
        } else {
            let stop = if end > pos && chars[end - 1] == '\r' {
                end - 1
            } else {
                end
            };
            parts.push(copy_range(chars, pos, stop));
            proof {
                let line = rest.subrange(0, end - pos);
                assert(line =~= chars@.subrange(pos as int, end as int));
                assert(without_cr(line) =~= chars@.subrange(pos as int, stop as int));
                assert(rest.subrange(end - pos + 1, rest.len() as int) =~= chars@.subrange(
                    end + 1,
                    chars.len() as int,
                ));
                assert(rows(parts@) =~= done + seq![without_cr(line)]);
            }
            pos = end + 1;
        }
    }
    proof {
        assert(lines(chars@.subrange(pos as int, chars.len() as int)) =~= Seq::<
            Seq<char>,
        >::empty());
    }
    parts
}

/// Splits `chars` into [`words`].
pub fn split_words(chars: &Vec<char>) -> (parts: Vec<Vec<char>>)
    ensures
        rows(parts@) == words(chars@),
{
    let mut parts: Vec<Vec<char>> = Vec::new();
    let mut pos: usize = 0;
    assert(chars@.subrange(0, chars.len() as int) =~= chars@);
    assert(rows(parts@) + words(chars@) =~= words(chars@));
    while pos < chars.len()
        invariant
            pos <= chars.len(),
            words(chars@) == rows(parts@) + words(chars@.subrange(pos as int, chars.len() as int)),
        decreases chars.len() - pos,
    {
        let ghost rest = chars@.subrange(pos as int, chars.len() as int);
        let ghost done = rows(parts@);
        let start = skip(chars, pos, Run::Blank);
        if start >= chars.len() {
            proof {
                assert(words(rest) =~= Seq::<Seq<char>>::empty());
                assert(words(chars@.subrange(start as int, chars.len() as int)) =~= Seq::<
                    Seq<char>,
                >::empty());
            }
            pos = start;
        } else {
            let end = skip(chars, start, Run::Word);
            parts.push(copy_range(chars, start, end));
            proof {
                let tail = rest.subrange(start - pos, rest.len() as int);
                assert(tail =~= chars@.subrange(start as int, chars.len() as int));
                assert(tail.subrange(0, end - start) =~= chars@.subrange(
                    start as int,
                    end as int,
                ));
                assert(tail.subrange(end - start, tail.len() as int) =~= chars@.subrange(
                    end as int,
                    chars.len() as int,
                ));
                assert(rows(parts@) =~= done + seq![tail.subrange(0, end - start)]);
            }
            pos = end;
        }
    }
    proof {
        assert(words(chars@.subrange(pos as int, chars.len() as int)) =~= Seq::<
            Seq<char>,
        >::empty());
    }
    parts
}

/// Whether `chars`, without the white space around it, starts with `prefix`.
pub fn trimmed_starts_with(chars: &Vec<char>, prefix: &str) -> (found: bool)
    ensures
        found == has_prefix(trimmed(chars@), prefix@),
{
    let wanted = chars_of(prefix);
    let start = skip(chars, 0, Run::Blank);
    let mut end: usize = chars.len();
    while end > 0 && char_is_whitespace(chars[end - 1])
        invariant
            end <= chars.len(),
            forall|j: int| end <= j < chars.len() ==> is_whitespace(chars@[j]),
        decreases end,
    {
        end = end - 1;
    }
    proof {
        assert(chars@.subrange(0, chars.len() as int) =~= chars@);
        let back = chars@.reverse();
        assert forall|j: int| 0 <= j < chars.len() - end implies Run::Blank.holds(
            #[trigger] back[j],
        ) by {
            assert(back[j] == chars@[chars.len() - 1 - j]);
        }
        if end > 0 {
            assert(back[chars.len() - end] == chars@[end - 1]);
        }
        lemma_run_length_is(back, Run::Blank, (chars.len() - end) as nat);
    }
    if start >= end {
        assert(trimmed(chars@) =~= Seq::<char>::empty());
        assert(wanted.len() == 0 ==> trimmed(chars@).subrange(0, 0) =~= prefix@);
        return wanted.len() == 0;
    }
    let ghost core = chars@.subrange(start as int, end as int);
    assert(trimmed(chars@) == core);
    if wanted.len() > end - start {
        return false;
    }
    let mut i: usize = 0;
    while i < wanted.len()
        invariant
            i <= wanted.len() <= end - start,
            start < end <= chars.len(),
            wanted@ == prefix@,
            core == chars@.subrange(start as int, end as int),
            trimmed(chars@) == core,
            forall|j: int| 0 <= j < i ==> chars@[start + j] == wanted@[j],
        decreases wanted.len() - i,
    {
        if chars[start + i] != wanted[i] {
            assert(core.subrange(0, wanted.len() as int)[i as int] != prefix@[i as int]);
            return false;
        }
        i = i + 1;
    }
    assert(core.subrange(0, wanted.len() as int) =~= prefix@);
    true
}

} // verus!
