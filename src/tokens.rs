//! Splitting text into whitespace-separated tokens.
use vstd::prelude::*;

verus! {

/// Whether `c` carries the Unicode `White_Space` property.
pub open spec fn is_white_space(c: char) -> bool {
    let x = c as u32;
    (0x9 <= x <= 0xd) || x == 0x20 || x == 0x85 || x == 0xa0 || x == 0x1680 || (0x2000 <= x
        <= 0x200a) || x == 0x2028 || x == 0x2029 || x == 0x202f || x == 0x205f || x == 0x3000
}

/// Relies on `char::is_whitespace`: true exactly for characters with the
/// Unicode `White_Space` property.
#[verifier::external_body]
fn is_space(c: char) -> (r: bool)
    ensures
        r == is_white_space(c),
{
    c.is_whitespace()
}

/// The tokens of `s`, given that the characters just before `s` form the
/// unfinished token `cur`.
pub open spec fn tokens_from(s: Seq<char>, cur: Seq<char>) -> Seq<Seq<char>>
    decreases s.len(),
{
    if s.len() == 0 {
        if cur.len() > 0 {
            seq![cur]
        } else {
            seq![]
        }
    } else if is_white_space(s[0]) {
        if cur.len() > 0 {
            seq![cur] + tokens_from(s.drop_first(), seq![])
        } else {
            tokens_from(s.drop_first(), seq![])
        }
    } else {
        tokens_from(s.drop_first(), cur.push(s[0]))
    }
}

/// The maximal runs of non-white-space characters of `s`, left to right.
pub open spec fn tokens(s: Seq<char>) -> Seq<Seq<char>> {
    tokens_from(s, seq![])
}

/// Whether every character of `s` is white space.
pub open spec fn all_white_space(s: Seq<char>) -> bool {
    forall|i: int| 0 <= i < s.len() ==> is_white_space(#[trigger] s[i])
}

/// Whether no character of `s` is white space.
pub open spec fn no_white_space(s: Seq<char>) -> bool {
    forall|i: int| 0 <= i < s.len() ==> !is_white_space(#[trigger] s[i])
}

/// Splits `text` at white space, dropping the empty runs.
pub fn split_tokens<'a>(text: &'a str) -> (r: Vec<&'a str>)
    ensures
        r@.len() == tokens(text@).len(),
        forall|i: int| 0 <= i < r@.len() ==> (#[trigger] r@[i])@ == tokens(text@)[i],
{
    let ghost s = text@;
    let n = text.unicode_len();
    let mut out: Vec<&'a str> = Vec::new();
    let mut start: usize = 0;
    let mut i: usize = 0;
    assert(s.skip(0) =~= s);
    assert(s.subrange(0, 0) =~= Seq::<char>::empty());
    assert(out@.map_values(|t: &str| t@) + tokens(s) =~= tokens(s));
    while i < n
        invariant
            n == s.len(),
            s == text@,
            start <= i <= n,
            out@.map_values(|t: &str| t@) + tokens_from(s.skip(i as int), s.subrange(
                start as int,
                i as int,
            )) == tokens(s),
        decreases n - i,
    {
        let ghost done = out@.map_values(|t: &str| t@);
        let ghost cur = s.subrange(start as int, i as int);
        assert(s.skip(i as int).drop_first() =~= s.skip(i + 1));
        assert(s.skip(i as int)[0] == s[i as int]);
        if is_space(text.get_char(i)) {
            if start < i {
                let tok = text.substring_char(start, i);
                out.push(tok);
                assert(out@.map_values(|t: &str| t@) =~= done.push(cur));
                assert(done + (seq![cur] + tokens_from(s.skip(i + 1), seq![])) =~= done.push(cur)
                    + tokens_from(s.skip(i + 1), seq![]));
            }
            i = i + 1;
            start = i;
            assert(s.subrange(start as int, i as int) =~= Seq::<char>::empty());
        } else {
            assert(cur.push(s[i as int]) =~= s.subrange(start as int, i + 1));
            i = i + 1;
        }
    }
    let ghost done = out@.map_values(|t: &str| t@);
    let ghost cur = s.subrange(start as int, i as int);
    assert(s.skip(i as int) =~= Seq::<char>::empty());
    if start < i {
        let tok = text.substring_char(start, i);
        out.push(tok);
        assert(out@.map_values(|t: &str| t@) =~= done.push(cur));
    } else {
        assert(done + seq![] =~= done);
    }
    assert(forall|k: int| 0 <= k < out@.len() ==> out@.map_values(|t: &str| t@)[k] == (#[trigger] out@[k])@);
    out
}

/// A run without white space extends the unfinished token.
pub proof fn lemma_run_extends(t: Seq<char>, rest: Seq<char>, cur: Seq<char>)
    requires
        no_white_space(t),
    ensures
        tokens_from(t + rest, cur) == tokens_from(rest, cur + t),
    decreases t.len(),
{
    if t.len() == 0 {
        assert(t + rest =~= rest);
        assert(cur + t =~= cur);
    } else {
        assert((t + rest)[0] == t[0]);
        assert((t + rest).drop_first() =~= t.drop_first() + rest);
        lemma_run_extends(t.drop_first(), rest, cur.push(t[0]));
        assert(cur.push(t[0]) + t.drop_first() =~= cur + t);
    }
}

/// White space between tokens leaves no trace.
pub proof fn lemma_blank_skipped(w: Seq<char>, rest: Seq<char>)
    requires
        all_white_space(w),
    ensures
        tokens_from(w + rest, seq![]) == tokens_from(rest, seq![]),
    decreases w.len(),
{
    if w.len() == 0 {
        assert(w + rest =~= rest);
    } else {
        assert((w + rest)[0] == w[0]);
        assert((w + rest).drop_first() =~= w.drop_first() + rest);
        lemma_blank_skipped(w.drop_first(), rest);
    }
}

/// Non-empty white space closes the unfinished token.
pub proof fn lemma_gap_closes(w: Seq<char>, rest: Seq<char>, cur: Seq<char>)
    requires
        all_white_space(w),
        w.len() > 0,
        cur.len() > 0,
    ensures
        tokens_from(w + rest, cur) == seq![cur] + tokens_from(rest, seq![]),
{
    assert((w + rest)[0] == w[0]);
    assert((w + rest).drop_first() =~= w.drop_first() + rest);
    lemma_blank_skipped(w.drop_first(), rest);
}

/// `codes[0] + gaps[0] + codes[1] + gaps[1] + ...`: each code followed by
/// its gap.
pub open spec fn spaced(codes: Seq<Seq<char>>, gaps: Seq<Seq<char>>) -> Seq<char>
    decreases codes.len(),
{
    if codes.len() == 0 {
        seq![]
    } else {
        codes[0] + gaps[0] + spaced(codes.drop_first(), gaps.drop_first())
    }
}

/// Whether `gaps` can separate `codes`: one run of white space after each
/// code, non-empty after every code but the last.
pub open spec fn separates(gaps: Seq<Seq<char>>, codes: Seq<Seq<char>>) -> bool {
    &&& gaps.len() == codes.len()
    &&& forall|i: int| 0 <= i < gaps.len() ==> all_white_space(#[trigger] gaps[i])
    &&& forall|i: int| 0 <= i < gaps.len() - 1 ==> (#[trigger] gaps[i]).len() > 0
}

/// Non-empty runs without white space, separated by white space, come back
/// as the tokens, in order.
pub proof fn lemma_spaced_tokens(codes: Seq<Seq<char>>, gaps: Seq<Seq<char>>)
    requires
        forall|i: int| 0 <= i < codes.len() ==> (#[trigger] codes[i]).len() > 0,
        forall|i: int| 0 <= i < codes.len() ==> no_white_space(#[trigger] codes[i]),
        separates(gaps, codes),
    ensures
        tokens(spaced(codes, gaps)) == codes,
    decreases codes.len(),
{
    if codes.len() == 0 {
        assert(codes =~= Seq::<Seq<char>>::empty());
    } else {
        let c = codes[0];
        let g = gaps[0];
        let rest = spaced(codes.drop_first(), gaps.drop_first());
        assert(forall|i: int| 0 <= i < codes.len() - 1 ==> codes.drop_first()[i] == codes[i + 1]);
        assert(forall|i: int| 0 <= i < gaps.len() - 1 ==> gaps.drop_first()[i] == gaps[i + 1]);
        lemma_spaced_tokens(codes.drop_first(), gaps.drop_first());
        assert(c + g + rest =~= c + (g + rest));
        lemma_run_extends(c, g + rest, seq![]);
        assert(Seq::<char>::empty() + c =~= c);
        if g.len() > 0 {
            lemma_gap_closes(g, rest, c);
        } else {
            assert(codes.drop_first().len() == 0);
            assert(g + rest =~= Seq::<char>::empty());
        }
        assert(seq![c] + codes.drop_first() =~= codes);
    }
}

/// Text made only of white space has no tokens.
pub proof fn lemma_blank_has_no_tokens(text: Seq<char>)
    requires
        all_white_space(text),
    ensures
        tokens(text).len() == 0,
{
    lemma_blank_skipped(text, seq![]);
    assert(text + Seq::<char>::empty() =~= text);
}

} // verus!
