//! Parsing of the free-text interests field.
//!
//! The user types interests as comma-separated free text.  The controller
//! keeps, beside the raw text, the ordered list it denotes: the text split
//! on commas, each token trimmed of surrounding whitespace, empty tokens
//! dropped.  [`spec_interests`] is the mathematical statement of that list;
//! [`parse_interests`] computes it.

use vstd::prelude::*;
use vstd::string::*;

verus! {

/// Whitespace that trimming removes from both ends of a token.
pub open spec fn is_space_char(c: char) -> bool {
    c == ' ' || c == '\t' || c == '\n' || c == '\r'
}

/// The token without its leading whitespace.
pub open spec fn trim_start(s: Seq<char>) -> Seq<char>
    decreases s.len(),
{
    if s.len() > 0 && is_space_char(s[0]) {
        trim_start(s.drop_first())
    } else {
        s
    }
}

/// The token without its trailing whitespace.
pub open spec fn trim_end(s: Seq<char>) -> Seq<char>
    decreases s.len(),
{
    if s.len() > 0 && is_space_char(s.last()) {
        trim_end(s.drop_last())
    } else {
        s
    }
}

/// The token without leading and trailing whitespace.
pub open spec fn trimmed(s: Seq<char>) -> Seq<char> {
    trim_end(trim_start(s))
}

/// The text split on commas, commas removed.  Splitting the empty text
/// gives one empty token, so a text of n commas gives n + 1 tokens.
pub open spec fn split_commas(s: Seq<char>) -> Seq<Seq<char>>
    decreases s.len(),
{
    if s.len() == 0 {
        seq![Seq::<char>::empty()]
    } else if s[0] == ',' {
        seq![Seq::<char>::empty()] + split_commas(s.drop_first())
    } else {
        let rest = split_commas(s.drop_first());
        seq![seq![s[0]] + rest.first()] + rest.drop_first()
    }
}

/// What one raw token contributes to the interests list: its trimmed text,
/// or nothing when only whitespace is left.
pub open spec fn cleaned_token(t: Seq<char>) -> Seq<Seq<char>> {
    if trimmed(t).len() == 0 {
        Seq::<Seq<char>>::empty()
    } else {
        seq![trimmed(t)]
    }
}

/// The raw tokens trimmed, empty ones dropped, order kept.
pub open spec fn cleaned_tokens(ts: Seq<Seq<char>>) -> Seq<Seq<char>>
    decreases ts.len(),
{
    if ts.len() == 0 {
        Seq::<Seq<char>>::empty()
    } else {
        cleaned_token(ts.first()) + cleaned_tokens(ts.drop_first())
    }
}

/// The interests list that a raw interests text denotes.
pub open spec fn spec_interests(s: Seq<char>) -> Seq<Seq<char>> {
    cleaned_tokens(split_commas(s))
}

/// Splitting never gives an empty token list.
pub proof fn lemma_split_commas_len(s: Seq<char>)
    ensures
        split_commas(s).len() >= 1,
    decreases s.len(),
{
    if s.len() > 0 {
        lemma_split_commas_len(s.drop_first());
    }
}

/// A text without commas is a single token.
pub proof fn lemma_split_commas_no_comma(s: Seq<char>)
    requires
        forall|j: int| 0 <= j < s.len() ==> s[j] != ',',
    ensures
        split_commas(s) =~= seq![s],
    decreases s.len(),
{
    if s.len() == 0 {
        assert(s =~= Seq::<char>::empty());
    } else {
        lemma_split_commas_no_comma(s.drop_first());
        let rest = split_commas(s.drop_first());
        assert(seq![s[0]] + rest.first() =~= s);
        assert(rest.drop_first() =~= Seq::<Seq<char>>::empty());
        assert(seq![seq![s[0]] + rest.first()] + rest.drop_first() =~= seq![
            seq![s[0]] + rest.first(),
        ]);
    }
}

/// Splitting at the first comma: the text up to it is the first token, and
/// the text after it splits on its own.
pub proof fn lemma_split_commas_at_comma(s: Seq<char>, i: int)
    requires
        0 <= i < s.len(),
        s[i] == ',',
        forall|j: int| 0 <= j < i ==> s[j] != ',',
    ensures
        split_commas(s) =~= seq![s.take(i)] + split_commas(s.skip(i + 1)),
    decreases i,
{
    if i == 0 {
        assert(s.drop_first() =~= s.skip(1));
        assert(s.take(0) =~= Seq::<char>::empty());
    } else {
        lemma_split_commas_at_comma(s.drop_first(), i - 1);
        lemma_split_commas_len(s.drop_first().skip(i));
        assert(s.drop_first().take(i - 1) =~= s.take(i).drop_first());
        assert(s.drop_first().skip(i) =~= s.skip(i + 1));
        assert(seq![s[0]] + s.take(i).drop_first() =~= s.take(i));
    }
}

/// Cleaning distributes over splitting off the first token.
pub proof fn lemma_cleaned_tokens_cons(t: Seq<char>, rest: Seq<Seq<char>>)
    ensures
        cleaned_tokens(seq![t] + rest) =~= cleaned_token(t) + cleaned_tokens(rest),
{
    assert((seq![t] + rest).first() == t);
    assert((seq![t] + rest).drop_first() =~= rest);
}

/// If the first `k` characters are whitespace and the next one (if any) is
/// not, trimming the start removes exactly those `k` characters.
pub proof fn lemma_trim_start_skip(t: Seq<char>, k: int)
    requires
        0 <= k <= t.len(),
        forall|j: int| 0 <= j < k ==> is_space_char(t[j]),
        k == t.len() || !is_space_char(t[k]),
    ensures
        trim_start(t) =~= t.skip(k),
    decreases k,
{
    if k == 0 {
        assert(t.skip(0) =~= t);
    } else {
        lemma_trim_start_skip(t.drop_first(), k - 1);
        assert(t.drop_first().skip(k - 1) =~= t.skip(k));
    }
}

/// If the last characters from `k` on are whitespace and the one before
/// (if any) is not, trimming the end keeps exactly the first `k`.
pub proof fn lemma_trim_end_take(t: Seq<char>, k: int)
    requires
        0 <= k <= t.len(),
        forall|j: int| k <= j < t.len() ==> is_space_char(t[j]),
        k == 0 || !is_space_char(t[k - 1]),
    ensures
        trim_end(t) =~= t.take(k),
    decreases t.len(),
{
    if k == t.len() {
        assert(t.take(k) =~= t);
    } else {
        lemma_trim_end_take(t.drop_last(), k);
        assert(t.drop_last() =~= t.take(t.len() - 1));
        assert(t.take(t.len() - 1).take(k) =~= t.take(k));
    }
}

/// Whether `c` is whitespace that trimming removes.
pub fn is_space(c: char) -> (b: bool)
    ensures
        b == is_space_char(c),
{
    c == ' ' || c == '\t' || c == '\n' || c == '\r'
}

/// Appends what the raw token `s@[start..end]` contributes to the
/// interests list: the trimmed token, or nothing when only whitespace is
/// left.
fn push_cleaned_token(r: &mut Vec<String>, s: &str, start: usize, end: usize)
    requires
        start <= end <= s@.len(),
    ensures
        final(r).deep_view() =~= old(r).deep_view() + cleaned_token(
            s@.subrange(start as int, end as int),
        ),
{
    let ghost t = s@.subrange(start as int, end as int);
    let mut a = start;
    while a < end && is_space(s.get_char(a))
        invariant
            start <= a <= end <= s@.len(),
            forall|j: int| start <= j < a ==> is_space_char(s@[j]),
        decreases end - a,
    {
        a = a + 1;
    }
    proof {
        lemma_trim_start_skip(t, a - start);
        assert(t.skip(a - start) =~= s@.subrange(a as int, end as int));
    }
    let ghost u = s@.subrange(a as int, end as int);
    let mut b = end;
    while b > a && is_space(s.get_char(b - 1))
        invariant
            a <= b <= end <= s@.len(),
            forall|j: int| b <= j < end ==> is_space_char(s@[j]),
        decreases b,
    {
        b = b - 1;
    }
    proof {
        lemma_trim_end_take(u, b - a);
        assert(u.take(b - a) =~= s@.subrange(a as int, b as int));
        assert(trimmed(t) =~= s@.subrange(a as int, b as int));
    }
    if a < b {
        let token = s.substring_char(a, b).to_owned();
        r.push(token);
    }
}

/// The interests list that the raw text denotes: split on commas, each
/// token trimmed, empty tokens dropped, order kept.
pub fn parse_interests(s: &str) -> (r: Vec<String>)
    ensures
        r.deep_view() == spec_interests(s@),
{
    let n = s.unicode_len();
    let mut r: Vec<String> = Vec::new();
    let mut start: usize = 0;
    let mut i: usize = 0;
    proof {
        assert(s@.skip(0) =~= s@);
        assert(r.deep_view() =~= Seq::<Seq<char>>::empty());
        assert(r.deep_view() + cleaned_tokens(split_commas(s@)) =~= cleaned_tokens(
            split_commas(s@),
        ));
    }
    while i < n
        invariant
            n == s@.len(),
            start <= i <= n,
            forall|j: int| start <= j < i ==> s@[j] != ',',
            spec_interests(s@) =~= r.deep_view() + cleaned_tokens(split_commas(s@.skip(start as int))),
        decreases n - i,
    {
        if s.get_char(i) == ',' {
            proof {
                let rem = s@.skip(start as int);
                lemma_split_commas_at_comma(rem, i - start);
                assert(rem.take(i - start) =~= s@.subrange(start as int, i as int));
                assert(rem.skip(i - start + 1) =~= s@.skip(i + 1));
                lemma_cleaned_tokens_cons(rem.take(i - start), split_commas(rem.skip(i - start + 1)));
            }
            push_cleaned_token(&mut r, s, start, i);
            start = i + 1;
        }
        i = i + 1;
    }
    proof {
        let rem = s@.skip(start as int);
        lemma_split_commas_no_comma(rem);
        assert(rem =~= s@.subrange(start as int, n as int));
        lemma_cleaned_tokens_cons(rem, Seq::<Seq<char>>::empty());
        assert(split_commas(rem) =~= seq![rem] + Seq::<Seq<char>>::empty());
        assert(cleaned_tokens(Seq::<Seq<char>>::empty()) =~= Seq::<Seq<char>>::empty());
    }
    push_cleaned_token(&mut r, s, start, n);
    proof {
        assert(r.deep_view() =~= spec_interests(s@));
    }
    r
}

} // verus!
