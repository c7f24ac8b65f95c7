use vstd::prelude::*;

verus! {

/// The character of a decimal digit `d < 10`.
pub open spec fn digit_char(d: nat) -> char {
    (d + 48) as char
}

/// The decimal digits of `n`, most significant first, without leading zeros.
pub open spec fn decimal(n: nat) -> Seq<char>
    decreases n,
{
    if n < 10 {
        seq![digit_char(n)]
    } else {
        decimal(n / 10).push(digit_char(n % 10))
    }
}

/// Relies on `ToString` through `usize`'s `Display`: the plain decimal digits
/// of the number, without sign or leading zeros.
#[verifier::external_body]
pub(crate) fn decimal_text(n: usize) -> (r: String)
    ensures
        r@ == decimal(n as nat),
{
    n.to_string()
}

pub open spec fn is_digit(c: char) -> bool {
    '0' <= c && c <= '9'
}

/// The number that a sequence of decimal digits spells.
pub open spec fn digits_value(s: Seq<char>) -> nat
    decreases s.len(),
{
    if s.len() == 0 {
        0
    } else {
        digits_value(s.drop_last()) * 10 + ((s.last() as int - '0' as int) as nat)
    }
}

/// The text after an optional leading `+`.
pub open spec fn unsigned_digits(s: Seq<char>) -> Seq<char> {
    if s.len() > 0 && s[0] == '+' {
        s.drop_first()
    } else {
        s
    }
}

/// The value of `s` read as a non-negative decimal integer: an optional `+`
/// followed by one or more digits and nothing else, whose value fits a `usize`.
pub open spec fn parsed_usize(s: Seq<char>) -> Option<usize> {
    let d = unsigned_digits(s);
    if d.len() > 0 && (forall|i: int| 0 <= i < d.len() ==> is_digit(#[trigger] d[i]))
        && digits_value(d) <= usize::MAX {
        Some(digits_value(d) as usize)
    } else {
        None
    }
}

/// Relies on `usize`'s `FromStr` (`str::parse`): it accepts exactly an optional
/// `+` followed by ASCII digits whose value fits, and yields that value.
#[verifier::external_body]
pub(crate) fn parse_decimal(s: &str) -> (r: Option<usize>)
    ensures
        r == parsed_usize(s@),
{
    s.parse::<usize>().ok()
}

/// Whether a character has Unicode's White_Space property.
pub uninterp spec fn white_space(c: char) -> bool;

/// Relies on `char::is_whitespace`: whether `c` has the White_Space property.
#[verifier::external_body]
pub(crate) fn is_space(c: char) -> (r: bool)
    ensures
        r == white_space(c),
{
    c.is_whitespace()
}

/// The words of `s`: its maximal runs of characters that are not white space,
/// in order. A character that is not white space either continues the word of
/// the character before it or starts a new one.
pub open spec fn words(s: Seq<char>) -> Seq<Seq<char>>
    decreases s.len(),
{
    if s.len() == 0 {
        Seq::empty()
    } else {
        let prev = words(s.drop_last());
        let c = s.last();
        if white_space(c) {
            prev
        } else if s.len() >= 2 && !white_space(s[s.len() - 2]) {
            prev.drop_last().push(prev.last().push(c))
        } else {
            prev.push(seq![c])
        }
    }
}

pub open spec fn strings_view(v: Seq<String>) -> Seq<Seq<char>> {
    v.map_values(|w: String| w@)
}

/// Splits `text` into its words, as `str::split_whitespace` does.
pub fn split_words(text: &str) -> (r: Vec<String>)
    ensures
        strings_view(r@) == words(text@),
{
    let n = text.unicode_len();
    let mut found: Vec<String> = Vec::new();
    let mut start: usize = 0;
    let mut i: usize = 0;
    while i < n
        invariant
            n == text@.len(),
            start <= i <= n,
            start < i ==> !white_space(text@[i - 1]),
            start == i && i > 0 ==> white_space(text@[i - 1]),
            words(text@.subrange(0, i as int)) == strings_view(found@) + if start < i {
                seq![text@.subrange(start as int, i as int)]
            } else {
                Seq::empty()
            },
        decreases n - i,
    {
        let c = text.get_char(i);
        let ghost t = text@.subrange(0, i + 1);
        let ghost prev = words(text@.subrange(0, i as int));
        let ghost fin = strings_view(found@);
        proof {
            assert(t.drop_last() =~= text@.subrange(0, i as int));
            assert(t.last() == c);
            if i > 0 {
                assert(t[t.len() - 2] == text@[i - 1]);
            }
            assert(words(t) == if white_space(c) {
                prev
            } else if t.len() >= 2 && !white_space(t[t.len() - 2]) {
                prev.drop_last().push(prev.last().push(c))
            } else {
                prev.push(seq![c])
            });
        }
        if is_space(c) {
            if start < i {
                let w = String::from_str(text.substring_char(start, i));
                found.push(w);
                assert(strings_view(found@) =~= fin.push(w@));
                assert(words(t) =~= strings_view(found@));
            } else {
                assert(words(t) =~= strings_view(found@));
            }
            start = i + 1;
        } else {
            if start < i {
                assert(text@.subrange(start as int, i + 1) =~= text@.subrange(
                    start as int,
                    i as int,
                ).push(c));
                assert(prev.drop_last() =~= fin);
                assert(words(t) =~= fin.push(text@.subrange(start as int, i + 1)));
            } else {
                assert(text@.subrange(start as int, i + 1) =~= seq![c]);
                assert(words(t) =~= fin.push(text@.subrange(start as int, i + 1)));
            }
        }
        i = i + 1;
    }
    if start < n {
        let w = String::from_str(text.substring_char(start, n));
        let ghost before = found@;
        found.push(w);
        assert(strings_view(found@) =~= strings_view(before).push(w@));
    }
    assert(text@.subrange(0, n as int) =~= text@);
    assert(strings_view(found@) =~= words(text@));
    found
}

pub open spec fn spaces(n: nat) -> Seq<char> {
    Seq::new(n, |_i: int| ' ')
}

/// `s` left-aligned in a field of `width` characters: followed by spaces up to
/// that width, or unchanged when it is already as wide.
pub open spec fn pad(s: Seq<char>, width: nat) -> Seq<char> {
    if s.len() >= width {
        s
    } else {
        s + spaces((width - s.len()) as nat)
    }
}

/// Left-aligns `s` in a field of `width` characters, as the `{:<width}` format does.
pub fn pad_right(s: &str, width: usize) -> (r: String)
    ensures
        r@ == pad(s@, width as nat),
{
    let mut r = String::from_str(s);
    let n = s.unicode_len();
    let mut k: usize = n;
    assert(r@ =~= s@ + spaces(0));
    while k < width
        invariant
            n == s@.len(),
            n <= k,
            n < width ==> k <= width,
            n >= width ==> k == n,
            r@ == s@ + spaces((k - n) as nat),
        decreases width - k,
    {
        let ghost before = r@;
        r.append(" ");
        proof {
            reveal_strlit(" ");
            assert(" "@ =~= seq![' ']);
            assert(spaces((k + 1 - n) as nat) =~= spaces((k - n) as nat).push(' '));
        }
        assert(r@ =~= s@ + spaces((k + 1 - n) as nat));
        k = k + 1;
    }
    assert(spaces(0) =~= Seq::<char>::empty());
    assert(s@ + spaces(0) =~= s@);
    r
}

} // verus!
