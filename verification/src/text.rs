//! Trimming and unquoting of text.

use vstd::prelude::*;
use vstd::string::*;

verus! {

/// What is cut off the ends of a text.
#[derive(Clone, Copy, Debug, PartialEq, Eq, Structural)]
pub enum Strip {
    /// Characters with the Unicode property `White_Space`.
    Whitespace,
    /// The character `/`.
    Slash,
}

/// The characters with the Unicode property `White_Space`.
pub open spec fn is_whitespace(c: char) -> bool {
    ||| '\u{9}' <= c <= '\u{d}'
    ||| c == '\u{20}'
    ||| c == '\u{85}'
    ||| c == '\u{a0}'
    ||| c == '\u{1680}'
    ||| '\u{2000}' <= c <= '\u{200a}'
    ||| c == '\u{2028}'
    ||| c == '\u{2029}'
    ||| c == '\u{202f}'
    ||| c == '\u{205f}'
    ||| c == '\u{3000}'
}

impl Strip {
    /// Whether the character is one of those that are cut off.
    pub open spec fn cuts(self, c: char) -> bool {
        match self {
            Strip::Whitespace => is_whitespace(c),
            Strip::Slash => c == '/',
        }
    }

    /// Whether the character is one of those that are cut off.
    pub fn matches(self, c: char) -> (b: bool)
        ensures
            b == self.cuts(c),
    {
        match self {
            Strip::Whitespace => {
                ('\u{9}' <= c && c <= '\u{d}') || c == '\u{20}' || c == '\u{85}' || c == '\u{a0}'
                    || c == '\u{1680}' || ('\u{2000}' <= c && c <= '\u{200a}') || c == '\u{2028}'
                    || c == '\u{2029}' || c == '\u{202f}' || c == '\u{205f}' || c == '\u{3000}'
            },
            Strip::Slash => c == '/',
        }
    }
}

/// The text without the characters at its start that `strip` cuts.
pub open spec fn stripped_start(s: Seq<char>, strip: Strip) -> Seq<char>
    decreases s.len(),
{
    if s.len() > 0 && strip.cuts(s.first()) {
        stripped_start(s.drop_first(), strip)
    } else {
        s
    }
}

/// The text without the characters at its end that `strip` cuts.
pub open spec fn stripped_end(s: Seq<char>, strip: Strip) -> Seq<char>
    decreases s.len(),
{
    if s.len() > 0 && strip.cuts(s.last()) {
        stripped_end(s.drop_last(), strip)
    } else {
        s
    }
}

/// The text without the characters at either end that `strip` cuts.
pub open spec fn stripped(s: Seq<char>, strip: Strip) -> Seq<char> {
    stripped_end(stripped_start(s, strip), strip)
}

/// The text without the white space at either end.
pub open spec fn trimmed(s: Seq<char>) -> Seq<char> {
    stripped(s, Strip::Whitespace)
}

/// The text without its double quotes, wherever they stand.
pub open spec fn unquoted(s: Seq<char>) -> Seq<char> {
    s.filter(|c: char| c != '"')
}

/// Cuts what `strip` matches off the start of the text.
pub fn strip_start(s: &str, strip: Strip) -> (rest: &str)
    ensures
        rest@ == stripped_start(s@, strip),
{
    let n: usize = s.unicode_len();
    let mut i: usize = 0;
    assert(s@.subrange(0, n as int) =~= s@);
    while i < n && strip.matches(s.get_char(i))
        invariant
            i <= n,
            n == s@.len(),
            stripped_start(s@, strip) == stripped_start(s@.subrange(i as int, n as int), strip),
        decreases n - i,
    {
        assert(s@.subrange(i as int, n as int).drop_first() =~= s@.subrange(i + 1, n as int));
        i = i + 1;
    }
    s.substring_char(i, n)
}

/// Cuts what `strip` matches off the end of the text.
pub fn strip_end(s: &str, strip: Strip) -> (rest: &str)
    ensures
        rest@ == stripped_end(s@, strip),
{
    let mut n: usize = s.unicode_len();
    assert(s@.subrange(0, n as int) =~= s@);
    while n > 0 && strip.matches(s.get_char(n - 1))
        invariant
            n <= s@.len(),
            stripped_end(s@, strip) == stripped_end(s@.subrange(0, n as int), strip),
        decreases n,
    {
        assert(s@.subrange(0, n as int).drop_last() =~= s@.subrange(0, n - 1));
        n = n - 1;
    }
    s.substring_char(0, n)
}

/// Cuts what `strip` matches off both ends of the text.
pub fn strip_both(s: &str, strip: Strip) -> (rest: &str)
    ensures
        rest@ == stripped(s@, strip),
{
    strip_end(strip_start(s, strip), strip)
}

/// Cuts the white space off both ends of the text.
pub fn trim(s: &str) -> (rest: &str)
    ensures
        rest@ == trimmed(s@),
{
    strip_both(s, Strip::Whitespace)
}

/// `String::push`: appends the character to the text.
pub assume_specification[ String::push ](s: &mut String, c: char)
    ensures
        final(s)@ == old(s)@.push(c),
;

/// Takes every double quote out of the text.
pub fn unquote(s: &str) -> (plain: String)
    ensures
        plain@ == unquoted(s@),
{
    let mut plain = String::new();
    assert(s@.take(0) =~= Seq::empty());
    proof {
        reveal(Seq::filter);
    }
    for c in it: s.chars()
        invariant
            it.seq() == s@,
            plain@ == unquoted(s@.take(it.index() as int)),
    {
        proof {
            reveal(Seq::filter);
            assert(s@.take(it.index() + 1).drop_last() =~= s@.take(it.index() as int));
        }
        if c != '"' {
            plain.push(c);
        }
    }
    assert(s@.take(s@.len() as int) =~= s@);
    plain
}

/// Stripping a text leaves the part between the first and the last character
/// that is not cut; all that is lost is cut.
pub proof fn law_stripped_is_the_middle(s: Seq<char>, strip: Strip)
    ensures
        exists|i: int, j: int| #[trigger]
            is_middle(s, strip, i, j) && stripped(s, strip) == s.subrange(i, j),
{
    let i = lemma_stripped_start(s, strip);
    let rest = s.subrange(i, s.len() as int);
    let j = lemma_stripped_end(rest, strip);
    assert(rest.subrange(0, j) =~= s.subrange(i, i + j));
    assert forall|k: int| i + j <= k < s.len() implies strip.cuts(#[trigger] s[k]) by {
        assert(rest[k - i] == s[k]);
    }
    assert(is_middle(s, strip, i, i + j));
}

/// Whether the part from `i` up to `j` begins and ends with characters that
/// are not cut, and everything outside of it is cut.
pub open spec fn is_middle(s: Seq<char>, strip: Strip, i: int, j: int) -> bool {
    &&& 0 <= i <= j <= s.len()
    &&& forall|k: int| 0 <= k < i ==> strip.cuts(#[trigger] s[k])
    &&& forall|k: int| j <= k < s.len() ==> strip.cuts(#[trigger] s[k])
    &&& i < j ==> !strip.cuts(s[i]) && !strip.cuts(s[j - 1])
}

/// Where a text begins once its start is stripped.
proof fn lemma_stripped_start(s: Seq<char>, strip: Strip) -> (i: int)
    ensures
        0 <= i <= s.len(),
        stripped_start(s, strip) == s.subrange(i, s.len() as int),
        forall|k: int| 0 <= k < i ==> strip.cuts(#[trigger] s[k]),
        i < s.len() ==> !strip.cuts(s[i]),
    decreases s.len(),
{
    if s.len() > 0 && strip.cuts(s.first()) {
        let tail = s.drop_first();
        let i = lemma_stripped_start(tail, strip);
        assert(tail.subrange(i, tail.len() as int) =~= s.subrange(i + 1, s.len() as int));
        assert forall|k: int| 0 <= k < i + 1 implies strip.cuts(#[trigger] s[k]) by {
            if k > 0 {
                assert(tail[k - 1] == s[k]);
            }
        }
        i + 1
    } else {
        assert(s.subrange(0, s.len() as int) =~= s);
        0
    }
}

/// Where a text ends once its end is stripped.
proof fn lemma_stripped_end(s: Seq<char>, strip: Strip) -> (j: int)
    ensures
        0 <= j <= s.len(),
        stripped_end(s, strip) == s.subrange(0, j),
        forall|k: int| j <= k < s.len() ==> strip.cuts(#[trigger] s[k]),
        j > 0 ==> !strip.cuts(s[j - 1]),
    decreases s.len(),
{
    if s.len() > 0 && strip.cuts(s.last()) {
        let init = s.drop_last();
        let j = lemma_stripped_end(init, strip);
        assert(init.subrange(0, j) =~= s.subrange(0, j));
        assert forall|k: int| j <= k < s.len() implies strip.cuts(#[trigger] s[k]) by {
            if k < init.len() {
                assert(init[k] == s[k]);
            }
        }
        j
    } else {
        assert(s.subrange(0, s.len() as int) =~= s);
        s.len() as int
    }
}

/// Text that neither begins nor ends with something that is cut is left as it
/// is.
pub proof fn law_stripping_again_changes_nothing(s: Seq<char>, strip: Strip)
    ensures
        stripped(stripped(s, strip), strip) == stripped(s, strip),
{
    law_stripped_is_the_middle(s, strip);
    let (i, j) = choose|i: int, j: int| #[trigger]
        is_middle(s, strip, i, j) && stripped(s, strip) == s.subrange(i, j);
    let middle = s.subrange(i, j);
    if i < j {
        assert(middle.first() == s[i]);
        assert(middle.last() == s[j - 1]);
    }
}

/// White space is what Unicode calls so, by the numbers of the characters, and
/// of the other characters a slash alone can be cut.
pub proof fn law_what_can_be_cut(c: char)
    ensures
        Strip::Slash.cuts(c) <==> c == '/',
        Strip::Whitespace.cuts(c) <==> is_whitespace(c),
        is_whitespace(c) <==> {
            let n = c as u32;
            ||| 9 <= n <= 13
            ||| n == 32
            ||| n == 133
            ||| n == 160
            ||| n == 5760
            ||| 8192 <= n <= 8202
            ||| n == 8232
            ||| n == 8233
            ||| n == 8239
            ||| n == 8287
            ||| n == 12288
        },
{
}

/// What stands before a text does not matter to stripping where it is cut.
proof fn lemma_cut_before(before: Seq<char>, rest: Seq<char>, strip: Strip)
    requires
        forall|k: int| 0 <= k < before.len() ==> strip.cuts(#[trigger] before[k]),
    ensures
        stripped_start(before + rest, strip) == stripped_start(rest, strip),
    decreases before.len(),
{
    if before.len() > 0 {
        let tail = before.drop_first();
        assert forall|k: int| 0 <= k < tail.len() implies strip.cuts(#[trigger] tail[k]) by {
            assert(strip.cuts(before[k + 1]));
        }
        assert((before + rest).first() == before[0]);
        assert((before + rest).drop_first() =~= tail + rest);
        lemma_cut_before(tail, rest, strip);
    } else {
        assert(before + rest =~= rest);
    }
}

/// What stands behind a text does not matter to stripping where it is cut.
proof fn lemma_cut_behind(rest: Seq<char>, after: Seq<char>, strip: Strip)
    requires
        forall|k: int| 0 <= k < after.len() ==> strip.cuts(#[trigger] after[k]),
    ensures
        stripped_end(rest + after, strip) == stripped_end(rest, strip),
    decreases after.len(),
{
    if after.len() > 0 {
        let init = after.drop_last();
        assert forall|k: int| 0 <= k < init.len() implies strip.cuts(#[trigger] init[k]) by {
            assert(strip.cuts(after[k]));
        }
        assert((rest + after).last() == after[after.len() - 1]);
        assert((rest + after).drop_last() =~= rest + init);
        lemma_cut_behind(rest, init, strip);
    } else {
        assert(rest + after =~= rest);
    }
}

/// A text comes out whole, whatever padding stands around it, where it neither
/// begins nor ends with something that is cut.
pub proof fn law_padding_alone_is_stripped(
    before: Seq<char>,
    core: Seq<char>,
    after: Seq<char>,
    strip: Strip,
)
    requires
        forall|k: int| 0 <= k < before.len() ==> strip.cuts(#[trigger] before[k]),
        forall|k: int| 0 <= k < after.len() ==> strip.cuts(#[trigger] after[k]),
        core.len() > 0 ==> !strip.cuts(core.first()) && !strip.cuts(core.last()),
    ensures
        stripped(before + core + after, strip) == core,
        stripped_start(before + core, strip) == core,
        stripped_end(core + after, strip) == core,
{
    lemma_cut_before(before, core, strip);
    lemma_cut_before(before, core + after, strip);
    lemma_cut_behind(core, after, strip);
    assert(before + core + after =~= before + (core + after));
    if core.len() > 0 {
        assert((core + after).first() == core.first());
    } else {
        lemma_cut_before(after, Seq::empty(), strip);
        assert(after + Seq::<char>::empty() =~= core + after);
        assert(core =~= Seq::<char>::empty());
    }
}

/// A token, or any other text, comes out whole of the white space around it.
pub proof fn law_trimming_takes_white_space_alone(
    before: Seq<char>,
    core: Seq<char>,
    after: Seq<char>,
)
    requires
        forall|k: int| 0 <= k < before.len() ==> is_whitespace(#[trigger] before[k]),
        forall|k: int| 0 <= k < after.len() ==> is_whitespace(#[trigger] after[k]),
        core.len() > 0 ==> !is_whitespace(core.first()) && !is_whitespace(core.last()),
    ensures
        trimmed(before + core + after) == core,
        trimmed(core) == core,
{
    law_padding_alone_is_stripped(before, core, after, Strip::Whitespace);
    law_padding_alone_is_stripped(Seq::empty(), core, Seq::empty(), Strip::Whitespace);
    assert(Seq::<char>::empty() + core + Seq::<char>::empty() =~= core);
}

/// Unquoting a text goes through it character by character: a double quote is
/// dropped, and any other character is kept, in its place.
pub proof fn law_unquoting_drops_double_quotes_alone(s: Seq<char>, c: char)
    ensures
        unquoted(Seq::<char>::empty()) == Seq::<char>::empty(),
        c == '"' ==> unquoted(s.push(c)) == unquoted(s),
        c != '"' ==> unquoted(s.push(c)) == unquoted(s).push(c),
{
    reveal(Seq::filter);
    assert(s.push(c).drop_last() =~= s);
}

} // verus!
