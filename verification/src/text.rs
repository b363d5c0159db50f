//! Character-level helpers shared by the wire format: whitespace, tokens
//! and decimal numbers.

use vstd::prelude::*;

verus! {

/// Whether `c` has the Unicode `White_Space` property.
pub open spec fn is_whitespace(c: char) -> bool {
    let u = c as u32;
    ||| 0x09 <= u <= 0x0D
    ||| u == 0x20
    ||| u == 0x85
    ||| u == 0xA0
    ||| u == 0x1680
    ||| 0x2000 <= u <= 0x200A
    ||| u == 0x2028
    ||| u == 0x2029
    ||| u == 0x202F
    ||| u == 0x205F
    ||| u == 0x3000
}

/// The longest prefix of `s` that holds no whitespace.
pub open spec fn first_word(s: Seq<char>) -> Seq<char>
    decreases s.len(),
{
    if s.len() == 0 || is_whitespace(s[0]) {
        Seq::empty()
    } else {
        seq![s[0]] + first_word(s.skip(1))
    }
}

/// The maximal runs of non-whitespace characters of `s`, in order.
pub open spec fn tokens(s: Seq<char>) -> Seq<Seq<char>>
    decreases s.len(),
{
    if s.len() == 0 {
        Seq::empty()
    } else if is_whitespace(s[0]) {
        tokens(s.skip(1))
    } else {
        proof {
            lemma_first_word_len(s);
        }
        seq![first_word(s)] + tokens(s.skip(first_word(s).len() as int))
    }
}

/// A word: a text that is not empty and holds no whitespace.
pub open spec fn is_word(w: Seq<char>) -> bool {
    w.len() > 0 && forall|j: int| 0 <= j < w.len() ==> !is_whitespace(#[trigger] w[j])
}

/// The character that writes the decimal digit `d`.
pub open spec fn digit(d: nat) -> char {
    if d == 0 {
        '0'
    } else if d == 1 {
        '1'
    } else if d == 2 {
        '2'
    } else if d == 3 {
        '3'
    } else if d == 4 {
        '4'
    } else if d == 5 {
        '5'
    } else if d == 6 {
        '6'
    } else if d == 7 {
        '7'
    } else if d == 8 {
        '8'
    } else {
        '9'
    }
}

/// `n` written in base ten, without sign or leading zeros.
pub open spec fn decimal(n: nat) -> Seq<char>
    decreases n,
{
    if n < 10 {
        seq![digit(n)]
    } else {
        decimal(n / 10).push(digit(n % 10))
    }
}

/// Decides `is_whitespace` for one character.
pub fn char_is_whitespace(c: char) -> (b: bool)
    ensures
        b == is_whitespace(c),
{
    let u: u32 = c as u32;
    (0x09 <= u && u <= 0x0D) || u == 0x20 || u == 0x85 || u == 0xA0 || u == 0x1680 || (0x2000 <= u
        && u <= 0x200A) || u == 0x2028 || u == 0x2029 || u == 0x202F || u == 0x205F || u == 0x3000
}

/// The characters of `s`, for indexed access.
pub fn to_chars(s: &str) -> (v: Vec<char>)
    ensures
        v@ == s@,
{
    let mut v: Vec<char> = Vec::new();
    for c in it: s.chars()
        invariant
            v@ == it.seq().take(it.index() as int),
            it.seq() == s@,
    {
        v.push(c);
    }
    v
}

/// Splits `s` at whitespace, as `str::split_whitespace` does.
pub fn split_whitespace(s: &str) -> (out: Vec<String>)
    ensures
        out.deep_view() == tokens(s@),
{
    let chars = to_chars(s);
    let n = chars.len();
    let mut out: Vec<String> = Vec::new();
    let mut i: usize = 0;
    assert(s@.skip(0) =~= s@);
    assert(out.deep_view() =~= Seq::<Seq<char>>::empty());
    while i < n
        invariant
            chars@ == s@,
            n == chars.len(),
            i <= n,
            tokens(s@) == out.deep_view() + tokens(s@.skip(i as int)),
        decreases n - i,
    {
        let ghost rest = s@.skip(i as int);
        if char_is_whitespace(chars[i]) {
            assert(rest.skip(1) =~= s@.skip(i + 1));
            i += 1;
        } else {
            let start = i;
            let mut j = i;
            assert(s@.subrange(start as int, j as int) + first_word(rest) =~= first_word(rest));
            while j < n && !char_is_whitespace(chars[j])
                invariant
                    chars@ == s@,
                    n == chars.len(),
                    start <= j <= n,
                    first_word(s@.skip(start as int)) == s@.subrange(start as int, j as int)
                        + first_word(s@.skip(j as int)),
                decreases n - j,
            {
                assert(s@.skip(j as int).skip(1) =~= s@.skip(j + 1));
                assert(s@.subrange(start as int, j as int) + (seq![s@[j as int]] + first_word(
                    s@.skip(j + 1),
                )) =~= s@.subrange(start as int, j + 1) + first_word(s@.skip(j + 1)));
                j += 1;
            }
            assert(first_word(rest) =~= s@.subrange(start as int, j as int));
            let word = s.substring_char(start, j).to_owned();
            let ghost before = out.deep_view();
            out.push(word);
            assert(out.deep_view() =~= before.push(first_word(rest)));
            assert(rest.skip(first_word(rest).len() as int) =~= s@.skip(j as int));
            assert(before + (seq![first_word(rest)] + tokens(s@.skip(j as int))) =~= before.push(
                first_word(rest),
            ) + tokens(s@.skip(j as int)));
            i = j;
        }
    }
    assert(out.deep_view() + Seq::<Seq<char>>::empty() =~= out.deep_view());
    out
}

/// The one-character text of a decimal digit.
fn digit_str(d: usize) -> (out: &'static str)
    requires
        d < 10,
    ensures
        out@ == seq![digit(d as nat)],
{
    proof {
        reveal_strlit("0");
        reveal_strlit("1");
        reveal_strlit("2");
        reveal_strlit("3");
        reveal_strlit("4");
        reveal_strlit("5");
        reveal_strlit("6");
        reveal_strlit("7");
        reveal_strlit("8");
        reveal_strlit("9");
    }
    let out = if d == 0 {
        "0"
    } else if d == 1 {
        "1"
    } else if d == 2 {
        "2"
    } else if d == 3 {
        "3"
    } else if d == 4 {
        "4"
    } else if d == 5 {
        "5"
    } else if d == 6 {
        "6"
    } else if d == 7 {
        "7"
    } else if d == 8 {
        "8"
    } else {
        "9"
    };
    assert(out@ =~= seq![digit(d as nat)]);
    out
}

/// Writes `n` in base ten.
pub fn decimal_string(n: usize) -> (out: String)
    ensures
        out@ == decimal(n as nat),
    decreases n,
{
    if n < 10 {
        digit_str(n).to_owned()
    } else {
        let mut out = decimal_string(n / 10);
        out.append(digit_str(n % 10));
        assert(out@ =~= decimal(n as nat));
        out
    }
}

/// A word is never longer than the text it starts, and is a prefix of it; a
/// text that starts with a non-whitespace character has a non-empty word.
pub proof fn lemma_first_word_len(s: Seq<char>)
    ensures
        first_word(s).len() <= s.len(),
        first_word(s) == s.take(first_word(s).len() as int),
        s.len() > 0 && !is_whitespace(s[0]) ==> first_word(s).len() >= 1,
    decreases s.len(),
{
    if s.len() == 0 || is_whitespace(s[0]) {
    } else {
        lemma_first_word_len(s.skip(1));
        let w = first_word(s.skip(1));
        assert(first_word(s) =~= s.take(first_word(s).len() as int)) by {
            assert(w == s.skip(1).take(w.len() as int));
        }
    }
}

/// A word holds no whitespace.
pub proof fn lemma_first_word_clean(s: Seq<char>)
    ensures
        forall|j: int| 0 <= j < first_word(s).len() ==> !is_whitespace(#[trigger] first_word(s)[j]),
    decreases s.len(),
{
    if s.len() == 0 || is_whitespace(s[0]) {
    } else {
        lemma_first_word_clean(s.skip(1));
        let rest = first_word(s.skip(1));
        assert forall|j: int| 0 <= j < first_word(s).len() implies !is_whitespace(
            #[trigger] first_word(s)[j],
        ) by {
            if j > 0 {
                assert(first_word(s)[j] == rest[j - 1]);
            }
        }
    }
}

/// Every token is a word.
pub proof fn lemma_tokens_are_words(s: Seq<char>)
    ensures
        forall|i: int| 0 <= i < tokens(s).len() ==> is_word(#[trigger] tokens(s)[i]),
    decreases s.len(),
{
    if s.len() == 0 {
        assert(tokens(s).len() == 0);
    } else if is_whitespace(s[0]) {
        lemma_tokens_are_words(s.skip(1));
        assert(tokens(s) == tokens(s.skip(1)));
    } else {
        lemma_first_word_len(s);
        lemma_first_word_clean(s);
        let rest = s.skip(first_word(s).len() as int);
        lemma_tokens_are_words(rest);
        assert(tokens(s) == seq![first_word(s)] + tokens(rest));
        assert forall|i: int| 0 <= i < tokens(s).len() implies is_word(#[trigger] tokens(s)[i]) by {
            if i > 0 {
                assert(tokens(s)[i] == tokens(rest)[i - 1]);
            } else {
                assert(tokens(s)[0] == first_word(s));
            }
        }
    }
}

/// Whitespace at the end of a text does not change its first word.
proof fn lemma_first_word_drop_space(s: Seq<char>)
    requires
        s.len() > 0,
        is_whitespace(s.last()),
    ensures
        first_word(s.drop_last()) == first_word(s),
        first_word(s).len() < s.len(),
    decreases s.len(),
{
    if is_whitespace(s[0]) {
    } else {
        assert(s.len() > 1);
        lemma_first_word_drop_space(s.skip(1));
        assert(s.drop_last().skip(1) =~= s.skip(1).drop_last());
    }
}

/// One whitespace character more at the end of a text does not change its
/// tokens.
pub proof fn lemma_trailing_space_does_not_count(s: Seq<char>)
    requires
        s.len() > 0,
        is_whitespace(s.last()),
    ensures
        tokens(s.drop_last()) == tokens(s),
    decreases s.len(),
{
    let front = s.drop_last();
    if s.len() == 1 {
        assert(tokens(s.skip(1)) =~= Seq::empty());
        assert(tokens(front) =~= Seq::empty());
    } else if is_whitespace(s[0]) {
        assert(front[0] == s[0]);
        assert(front.skip(1) =~= s.skip(1).drop_last());
        lemma_trailing_space_does_not_count(s.skip(1));
    } else {
        lemma_first_word_len(s);
        lemma_first_word_drop_space(s);
        let n = first_word(s).len() as int;
        assert(front[0] == s[0]);
        assert(front.skip(n) =~= s.skip(n).drop_last());
        assert(s.skip(n).last() == s.last());
        lemma_trailing_space_does_not_count(s.skip(n));
        assert(tokens(front) == seq![first_word(front)] + tokens(front.skip(n)));
    }
}

} // verus!
