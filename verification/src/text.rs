//! Character-level helpers for the pipeline: token extraction from SQL
//! text and substring search, both specified over `Seq<char>`.
use vstd::prelude::*;

verus! {

/// Token boundaries are ASCII whitespace characters.
pub open spec fn is_space_char(c: char) -> bool {
    c == ' ' || c == '\t' || c == '\n' || c == '\r' || c == '\u{b}' || c == '\u{c}'
}

/// Leading whitespace of `s` removed.
pub open spec fn spec_trim_leading(s: Seq<char>) -> Seq<char>
    decreases s.len(),
{
    if s.len() == 0 {
        s
    } else if is_space_char(s[0]) {
        spec_trim_leading(s.drop_first())
    } else {
        s
    }
}

/// The longest whitespace-free prefix of `s`.
pub open spec fn spec_token_prefix(s: Seq<char>) -> Seq<char>
    decreases s.len(),
{
    if s.len() == 0 || is_space_char(s[0]) {
        Seq::empty()
    } else {
        seq![s[0]] + spec_token_prefix(s.drop_first())
    }
}

/// The first whitespace-delimited token of `s`; empty when `s` holds no
/// token at all.
pub open spec fn spec_first_token(s: Seq<char>) -> Seq<char> {
    spec_token_prefix(spec_trim_leading(s))
}

/// Whether `s` holds at least one whitespace-delimited token.
pub open spec fn has_token(s: Seq<char>) -> bool {
    spec_first_token(s).len() > 0
}

/// A scan that saw only whitespace before position `i` and a non-space
/// (or the end) at `i` has found exactly where `spec_trim_leading` starts.
proof fn lemma_trim_leading_scan(s: Seq<char>, i: int)
    requires
        0 <= i <= s.len(),
        forall|k: int| 0 <= k < i ==> is_space_char(#[trigger] s[k]),
        i == s.len() || !is_space_char(s[i]),
    ensures
        spec_trim_leading(s) =~= s.skip(i),
    decreases i,
{
    if i == 0 {
        if s.len() == 0 {
        } else {
            assert(!is_space_char(s[0]));
        }
        assert(spec_trim_leading(s) =~= s.skip(0));
    } else {
        assert(is_space_char(s[0]));
        let t = s.drop_first();
        assert(forall|k: int| 0 <= k < i - 1 ==> is_space_char(#[trigger] t[k]));
        lemma_trim_leading_scan(t, i - 1);
        assert(t.skip(i - 1) =~= s.skip(i));
    }
}

/// A scan that saw only non-space characters before position `j` and a
/// space (or the end) at `j` has found exactly the token prefix.
proof fn lemma_token_prefix_scan(s: Seq<char>, j: int)
    requires
        0 <= j <= s.len(),
        forall|k: int| 0 <= k < j ==> !is_space_char(#[trigger] s[k]),
        j == s.len() || is_space_char(s[j]),
    ensures
        spec_token_prefix(s) =~= s.take(j),
    decreases j,
{
    if j == 0 {
    } else {
        assert(!is_space_char(s[0]));
        let t = s.drop_first();
        assert(forall|k: int| 0 <= k < j - 1 ==> !is_space_char(#[trigger] t[k]));
        lemma_token_prefix_scan(t, j - 1);
        assert(seq![s[0]] + t.take(j - 1) =~= s.take(j));
    }
}

fn is_space(c: char) -> (b: bool)
    ensures
        b == is_space_char(c),
{
    c == ' ' || c == '\t' || c == '\n' || c == '\r' || c == '\u{b}' || c == '\u{c}'
}

/// The half-open span `[a, b)` of the first whitespace-delimited token of
/// `s`, or `None` when `s` is all whitespace.
pub fn first_token_span(s: &str) -> (r: Option<(usize, usize)>)
    ensures
        match r {
            Some(span) => {
                &&& has_token(s@)
                &&& span.0 < span.1 <= s@.len()
                &&& s@.subrange(span.0 as int, span.1 as int) == spec_first_token(s@)
            },
            None => !has_token(s@),
        },
{
    let n = s.unicode_len();
    let mut i: usize = 0;
    while i < n && is_space(s.get_char(i))
        invariant
            0 <= i <= n,
            n == s@.len(),
            forall|k: int| 0 <= k < i ==> is_space_char(#[trigger] s@[k]),
        decreases n - i,
    {
        i = i + 1;
    }
    proof {
        lemma_trim_leading_scan(s@, i as int);
    }
    if i == n {
        proof {
            assert(spec_trim_leading(s@) =~= Seq::<char>::empty());
            assert(spec_first_token(s@).len() == 0);
        }
        return None;
    }
    let mut j: usize = i;
    while j < n && !is_space(s.get_char(j))
        invariant
            i <= j <= n,
            n == s@.len(),
            forall|k: int| i <= k < j ==> !is_space_char(#[trigger] s@[k]),
        decreases n - j,
    {
        j = j + 1;
    }
    proof {
        let rest = s@.skip(i as int);
        assert(forall|k: int| 0 <= k < j - i ==> !is_space_char(#[trigger] rest[k])) by {
            assert(forall|k: int| 0 <= k < j - i ==> rest[k] == s@[k + i]);
        }
        assert(j == n || is_space_char(rest[j - i]));
        lemma_token_prefix_scan(rest, j - i);
        assert(rest.take(j - i) =~= s@.subrange(i as int, j as int));
        assert(!is_space_char(s@[i as int]));
        assert(spec_first_token(s@).len() > 0);
    }
    Some((i, j))
}

/// The character for one decimal digit.
pub open spec fn spec_digit(d: nat) -> char {
    if d == 0 {
        '0'
    } else if d == 1 {
        '1'
    } else if d == 2 {
        '2'
    } else if d == 3 {
        '3'
    } else if d == 4 {
        '4'
    } else if d == 5 {
        '5'
    } else if d == 6 {
        '6'
    } else if d == 7 {
        '7'
    } else if d == 8 {
        '8'
    } else {
        '9'
    }
}

/// The canonical decimal rendering of `n`: its digits, most significant
/// first, with no leading zero except for zero itself.
pub open spec fn spec_decimal(n: nat) -> Seq<char>
    decreases n,
{
    if n < 10 {
        seq![spec_digit(n)]
    } else {
        spec_decimal(n / 10).push(spec_digit(n % 10))
    }
}

/// The digit characters of `ds` read back to front.
spec fn rev_digit_chars(ds: Seq<u64>) -> Seq<char> {
    Seq::new(ds.len(), |i: int| spec_digit(ds[ds.len() - 1 - i] as nat))
}

fn digit_str(d: u64) -> (r: &'static str)
    requires
        d < 10,
    ensures
        r@ == seq![spec_digit(d as nat)],
{
    proof {
        reveal_strlit("0");
        reveal_strlit("1");
        reveal_strlit("2");
        reveal_strlit("3");
        reveal_strlit("4");
        reveal_strlit("5");
        reveal_strlit("6");
        reveal_strlit("7");
        reveal_strlit("8");
        reveal_strlit("9");
    }
    let r = match d {
        0 => "0",
        1 => "1",
        2 => "2",
        3 => "3",
        4 => "4",
        5 => "5",
        6 => "6",
        7 => "7",
        8 => "8",
        _ => "9",
    };
    proof {
        assert(r@ =~= seq![spec_digit(d as nat)]);
    }
    r
}

/// Render `n` in decimal.
pub fn u64_to_decimal(n: u64) -> (r: String)
    ensures
        r@ == spec_decimal(n as nat),
{
    let mut digits: Vec<u64> = Vec::new();
    digits.push(n % 10);
    let mut m: u64 = n / 10;
    proof {
        assert(rev_digit_chars(digits@) =~= seq![spec_digit((n % 10) as nat)]);
        if n < 10 {
            assert(n % 10 == n);
        }
    }
    while m > 0
        invariant
            forall|i: int| 0 <= i < digits@.len() ==> #[trigger] digits@[i] < 10,
            digits@.len() >= 1,
            m == 0 ==> spec_decimal(n as nat) == rev_digit_chars(digits@),
            m > 0 ==> spec_decimal(n as nat) == spec_decimal(m as nat) + rev_digit_chars(digits@),
        decreases m,
    {
        let ghost old_ds = digits@;
        digits.push(m % 10);
        proof {
            assert(rev_digit_chars(digits@) =~= seq![spec_digit((m % 10) as nat)]
                + rev_digit_chars(old_ds));
            if m < 10 {
                assert(spec_decimal(m as nat) == seq![spec_digit(m as nat)]);
                assert(m % 10 == m);
                assert(spec_decimal(n as nat) =~= rev_digit_chars(digits@));
            } else {
                assert(spec_decimal(m as nat) == spec_decimal((m / 10) as nat).push(
                    spec_digit((m % 10) as nat),
                ));
                assert(spec_decimal((m / 10) as nat) + rev_digit_chars(digits@) =~= spec_decimal(
                    m as nat,
                ) + rev_digit_chars(old_ds));
            }
        }
        m = m / 10;
    }
    let mut r = String::new();
    let mut j: usize = digits.len();
    while j > 0
        invariant
            0 <= j <= digits@.len(),
            forall|i: int| 0 <= i < digits@.len() ==> #[trigger] digits@[i] < 10,
            spec_decimal(n as nat) == rev_digit_chars(digits@),
            r@ == rev_digit_chars(digits@).take(digits@.len() - j),
        decreases j,
    {
        j = j - 1;
        let d = digits[j];
        r.append(digit_str(d));
        proof {
            let ds = digits@;
            let pos = ds.len() - j - 1;
            assert(rev_digit_chars(ds)[pos] == spec_digit(ds[j as int] as nat));
            assert(rev_digit_chars(ds).take(ds.len() - j) =~= rev_digit_chars(ds).take(
                ds.len() - j - 1,
            ).push(spec_digit(ds[j as int] as nat)));
            assert(r@ =~= rev_digit_chars(ds).take(ds.len() - j));
        }
    }
    proof {
        assert(rev_digit_chars(digits@).take(digits@.len() as int) =~= rev_digit_chars(digits@));
    }
    r
}

/// Whether `needle` occurs in `hay` as a contiguous subsequence.
pub open spec fn spec_contains(hay: Seq<char>, needle: Seq<char>) -> bool {
    exists|i: int|
        0 <= i && i + needle.len() <= hay.len() && #[trigger] hay.subrange(i, i + needle.len())
            == needle
}

/// Substring search, specified against `spec_contains`.
pub fn str_contains(hay: &str, needle: &str) -> (b: bool)
    ensures
        b == spec_contains(hay@, needle@),
{
    let n = hay.unicode_len();
    let m = needle.unicode_len();
    if m == 0 {
        proof {
            assert(hay@.subrange(0, 0 + needle@.len() as int) =~= needle@);
        }
        return true;
    }
    if m > n {
        return false;
    }
    let mut i: usize = 0;
    while i <= n - m
        invariant
            0 <= i <= n - m + 1,
            m >= 1,
            m <= n,
            n == hay@.len(),
            m == needle@.len(),
            forall|k: int|
                0 <= k < i ==> #[trigger] hay@.subrange(k, k + needle@.len()) != needle@,
        decreases n - m + 1 - i,
    {
        let mut j: usize = 0;
        let mut matched = true;
        while j < m
            invariant
                0 <= j <= m,
                i + m <= n,
                n == hay@.len(),
                m == needle@.len(),
                matched ==> forall|k: int| 0 <= k < j ==> hay@[i + k] == needle@[k],
                !matched ==> exists|k: int| 0 <= k < j && hay@[i + k] != needle@[k],
            decreases m - j,
        {
            if hay.get_char(i + j) != needle.get_char(j) {
                matched = false;
                j = m;
            } else {
                j = j + 1;
            }
        }
        if matched {
            proof {
                assert(hay@.subrange(i as int, i + needle@.len()) =~= needle@);
            }
            return true;
        }
        proof {
            let k = choose|k: int| 0 <= k < m && hay@[i + k] != needle@[k];
            assert(hay@.subrange(i as int, i + needle@.len())[k] == hay@[i + k]);
            assert(hay@.subrange(i as int, i + needle@.len()) != needle@);
        }
        i = i + 1;
    }
    proof {
        assert forall|k: int|
            0 <= k && k + needle@.len() <= hay@.len() implies #[trigger] hay@.subrange(
            k,
            k + needle@.len(),
        ) != needle@ by {
            assert(k < i);
        }
    }
    false
}

} // verus!
