//! Character-level text operations: prefixes, suffixes, substrings,
//! decimal numerals.
use vstd::prelude::*;

verus! {

/// `p` is a prefix of `s`.
pub open spec fn is_prefix(p: Seq<char>, s: Seq<char>) -> bool {
    p.len() <= s.len() && s.subrange(0, p.len() as int) == p
}

/// `p` is a suffix of `s`.
pub open spec fn is_suffix(p: Seq<char>, s: Seq<char>) -> bool {
    p.len() <= s.len() && s.subrange(s.len() - p.len(), s.len() as int) == p
}

/// `p` occurs in `s` starting at position `i`.
pub open spec fn occurs_at(s: Seq<char>, p: Seq<char>, i: int) -> bool {
    0 <= i && i + p.len() <= s.len() && s.subrange(i, i + p.len()) == p
}

/// `p` occurs somewhere in `s` (the empty text occurs everywhere).
pub open spec fn contains_text(s: Seq<char>, p: Seq<char>) -> bool {
    exists|i: int| occurs_at(s, p, i)
}

/// `c` occurs in `s`.
pub open spec fn has_char(s: Seq<char>, c: char) -> bool {
    exists|i: int| 0 <= i < s.len() && s[i] == c
}

/// The characters of a text, in order.
pub fn chars_of(s: &str) -> (r: Vec<char>)
    ensures
        r@ == s@,
{
    let n = s.unicode_len();
    let mut out: Vec<char> = Vec::new();
    let mut i: usize = 0;
    while i < n
        invariant
            n == s@.len(),
            0 <= i <= n,
            out@ == s@.subrange(0, i as int),
        decreases n - i,
    {
        let c = s.get_char(i);
        out.push(c);
        i = i + 1;
        assert(out@ =~= s@.subrange(0, i as int));
    }
    assert(out@ =~= s@);
    out
}

/// Whether `p` occurs in `s` at position `i` (character vectors).
pub fn occurs_at_exec(s: &Vec<char>, p: &Vec<char>, i: usize) -> (r: bool)
    ensures
        r == occurs_at(s@, p@, i as int),
{
    if i > s.len() || p.len() > s.len() - i {
        return false;
    }
    let mut j: usize = 0;
    while j < p.len()
        invariant
            i + p.len() <= s.len(),
            0 <= j <= p.len(),
            forall|k: int| 0 <= k < j ==> s@[i + k] == p@[k],
        decreases p.len() - j,
    {
        if s[i + j] != p[j] {
            assert(s@.subrange(i as int, i + p.len())[j as int] != p@[j as int]);
            return false;
        }
        j = j + 1;
    }
    assert(s@.subrange(i as int, i + p.len()) =~= p@);
    true
}

/// `p` is a prefix of `s`.
pub fn text_starts_with(s: &str, p: &str) -> (r: bool)
    ensures
        r == is_prefix(p@, s@),
{
    let sc = chars_of(s);
    let pc = chars_of(p);
    occurs_at_exec(&sc, &pc, 0)
}

/// `p` is a suffix of `s`.
pub fn text_ends_with(s: &str, p: &str) -> (r: bool)
    ensures
        r == is_suffix(p@, s@),
{
    let sc = chars_of(s);
    let pc = chars_of(p);
    if pc.len() > sc.len() {
        return false;
    }
    occurs_at_exec(&sc, &pc, sc.len() - pc.len())
}

/// `p` occurs somewhere in `s`.
pub fn text_contains(s: &str, p: &str) -> (r: bool)
    ensures
        r == contains_text(s@, p@),
{
    let sc = chars_of(s);
    let pc = chars_of(p);
    if pc.len() > sc.len() {
        assert forall|i: int| !occurs_at(s@, p@, i) by {}
        return false;
    }
    let last = sc.len() - pc.len();
    let mut i: usize = 0;
    loop
        invariant
            sc@ == s@,
            pc@ == p@,
            pc.len() <= sc.len(),
            last == sc.len() - pc.len(),
            0 <= i <= last,
            forall|k: int| 0 <= k < i ==> !occurs_at(s@, p@, k),
        ensures
            forall|k: int| 0 <= k <= last ==> !occurs_at(s@, p@, k),
        decreases last - i,
    {
        if occurs_at_exec(&sc, &pc, i) {
            return true;
        }
        if i == last {
            break;
        }
        i = i + 1;
    }
    false
}

/// Whether the character `c` occurs in `s`.
pub fn text_has_char(s: &str, c: char) -> (r: bool)
    ensures
        r == has_char(s@, c),
{
    let sc = chars_of(s);
    let mut i: usize = 0;
    while i < sc.len()
        invariant
            sc@ == s@,
            0 <= i <= sc.len(),
            forall|k: int| 0 <= k < i ==> sc@[k] != c,
        decreases sc.len() - i,
    {
        if sc[i] == c {
            return true;
        }
        i = i + 1;
    }
    false
}

/// The value of a decimal digit character.
pub open spec fn digit_value(c: char) -> int {
    c as int - '0' as int
}

pub open spec fn is_digit(c: char) -> bool {
    '0' <= c && c <= '9'
}

/// Every character of `s` is a decimal digit.
pub open spec fn all_digits(s: Seq<char>) -> bool {
    forall|i: int| 0 <= i < s.len() ==> is_digit(#[trigger] s[i])
}

/// The number written by the decimal digits `s`.
pub open spec fn digits_value(s: Seq<char>) -> nat
    decreases s.len(),
{
    if s.len() == 0 {
        0
    } else {
        (digits_value(s.drop_last()) * 10 + digit_value(s.last())) as nat
    }
}

/// What reading `s` as an unsigned machine-word numeral gives: an optional
/// `+`, then at least one decimal digit, and a value that fits in a `usize`.
pub open spec fn parse_usize_spec(s: Seq<char>) -> Option<usize> {
    let digits = if s.len() > 0 && s[0] == '+' {
        s.drop_first()
    } else {
        s
    };
    if digits.len() == 0 || !all_digits(digits) || digits_value(digits) > usize::MAX {
        None
    } else {
        Some(digits_value(digits) as usize)
    }
}

proof fn lemma_digits_value_step(s: Seq<char>, i: int)
    requires
        0 <= i < s.len(),
        is_digit(s[i]),
    ensures
        digits_value(s.subrange(0, i + 1)) == digits_value(s.subrange(0, i)) * 10 + digit_value(s[i]),
{
    let x = s.subrange(0, i + 1);
    assert(x.drop_last() =~= s.subrange(0, i));
    assert(x.last() == s[i]);
}

proof fn lemma_digits_value_monotone(s: Seq<char>, i: int, j: int)
    requires
        0 <= i <= j <= s.len(),
        all_digits(s),
    ensures
        digits_value(s.subrange(0, i)) <= digits_value(s.subrange(0, j)),
    decreases j - i,
{
    if i < j {
        lemma_digits_value_monotone(s, i, j - 1);
        lemma_digits_value_step(s, j - 1);
        assert(is_digit(s[j - 1]));
    }
}

/// Reads a text as an unsigned machine-word numeral, as `str::parse::<usize>` does.
pub fn parse_usize(s: &str) -> (r: Option<usize>)
    ensures
        r == parse_usize_spec(s@),
{
    let sc = chars_of(s);
    let start: usize = if sc.len() > 0 && sc[0] == '+' {
        1
    } else {
        0
    };
    let ghost digits = if s@.len() > 0 && s@[0] == '+' {
        s@.drop_first()
    } else {
        s@
    };
    assert(digits =~= sc@.subrange(start as int, sc.len() as int));
    if start == sc.len() {
        return None;
    }
    let mut acc: usize = 0;
    let mut i: usize = start;
    while i < sc.len()
        invariant
            sc@ == s@,
            start <= i <= sc.len(),
            digits == sc@.subrange(start as int, sc.len() as int),
            digits == (if s@.len() > 0 && s@[0] == '+' {
                s@.drop_first()
            } else {
                s@
            }),
            all_digits(sc@.subrange(start as int, i as int)),
            acc == digits_value(sc@.subrange(start as int, i as int)),
        decreases sc.len() - i,
    {
        let c = sc[i];
        let ghost done = sc@.subrange(start as int, i as int);
        let ghost next = sc@.subrange(start as int, i + 1);
        assert(next.drop_last() =~= done);
        assert(digits.subrange(0, (i - start) as int) =~= done);
        assert(digits.subrange(0, (i + 1 - start) as int) =~= next);
        if !('0' <= c && c <= '9') {
            assert(digits[(i - start) as int] == c);
            assert(!is_digit(digits[(i - start) as int]));
            return None;
        }
        let d: usize = (c as u32 - '0' as u32) as usize;
        assert(d == digit_value(c));
        if acc > (usize::MAX - d) / 10 {
            proof {
                assert(next.last() == c);
                assert(digits_value(next) == acc * 10 + d);
                assert(all_digits(next));
                if all_digits(digits) {
                    lemma_digits_value_monotone(digits, (i + 1 - start) as int, digits.len() as int);
                    assert(digits.subrange(0, digits.len() as int) =~= digits);
                }
            }
            return None;
        }
        acc = acc * 10 + d;
        i = i + 1;
        assert(all_digits(sc@.subrange(start as int, i as int)));
    }
    assert(sc@.subrange(start as int, i as int) =~= digits);
    Some(acc)
}

/// The decimal numeral of a number, most significant digit first.
pub open spec fn decimal_text(n: nat) -> Seq<char>
    decreases n,
{
    if n < 10 {
        seq![digit_char(n)]
    } else {
        decimal_text(n / 10) + seq![digit_char(n % 10)]
    }
}

/// The character of a decimal digit.
pub open spec fn digit_char(d: nat) -> char {
    if d == 0 {
        '0'
    } else if d == 1 {
        '1'
    } else if d == 2 {
        '2'
    } else if d == 3 {
        '3'
    } else if d == 4 {
        '4'
    } else if d == 5 {
        '5'
    } else if d == 6 {
        '6'
    } else if d == 7 {
        '7'
    } else if d == 8 {
        '8'
    } else {
        '9'
    }
}

fn digit_str(d: usize) -> (r: &'static str)
    requires
        d < 10,
    ensures
        r@ == seq![digit_char(d as nat)],
{
    proof {
        reveal_strlit("0");
        reveal_strlit("1");
        reveal_strlit("2");
        reveal_strlit("3");
        reveal_strlit("4");
        reveal_strlit("5");
        reveal_strlit("6");
        reveal_strlit("7");
        reveal_strlit("8");
        reveal_strlit("9");
    }
    if d == 0 {
        "0"
    } else if d == 1 {
        "1"
    } else if d == 2 {
        "2"
    } else if d == 3 {
        "3"
    } else if d == 4 {
        "4"
    } else if d == 5 {
        "5"
    } else if d == 6 {
        "6"
    } else if d == 7 {
        "7"
    } else if d == 8 {
        "8"
    } else {
        "9"
    }
}

/// The decimal numeral of `n`, as `n.to_string()` writes it.
pub fn u128_to_text(n: u128) -> (r: String)
    ensures
        r@ == decimal_text(n as nat),
    decreases n,
{
    if n < 10 {
        String::from_str(digit_str(n as usize))
    } else {
        let mut s = u128_to_text(n / 10);
        s.append(digit_str((n % 10) as usize));
        s
    }
}

/// The decimal numeral of `n`, as `n.to_string()` writes it.
pub fn usize_to_text(n: usize) -> (r: String)
    ensures
        r@ == decimal_text(n as nat),
{
    u128_to_text(n as u128)
}

/// The decimal numeral of `n`, as `n.to_string()` writes it.
pub fn u64_to_text(n: u64) -> (r: String)
    ensures
        r@ == decimal_text(n as nat),
{
    u128_to_text(n as u128)
}


/// The pieces of `s` between the occurrences of `sep`, as `str::split(sep)`
/// gives them (there is always at least one piece).
pub open spec fn split_on(s: Seq<char>, sep: char) -> Seq<Seq<char>>
    decreases s.len(),
{
    if s.len() == 0 {
        seq![Seq::empty()]
    } else {
        let rest = split_on(s.drop_last(), sep);
        if s.last() == sep {
            rest.push(Seq::empty())
        } else {
            rest.update(rest.len() - 1, rest.last().push(s.last()))
        }
    }
}

pub proof fn lemma_split_nonempty(s: Seq<char>, sep: char)
    ensures
        split_on(s, sep).len() >= 1,
    decreases s.len(),
{
    if s.len() > 0 {
        lemma_split_nonempty(s.drop_last(), sep);
    }
}

/// Splits a text at every `sep`.
pub fn split_text(text: &str, sep: char) -> (pieces: Vec<String>)
    ensures
        pieces.len() == split_on(text@, sep).len(),
        forall|i: int| 0 <= i < pieces.len() ==> #[trigger] pieces@[i]@ == split_on(text@, sep)[i],
{
    let tc = chars_of(text);
    let n = tc.len();
    let mut pieces: Vec<String> = Vec::new();
    let ghost mut sv: Seq<Seq<char>> = Seq::empty();
    let mut start: usize = 0;
    let mut i: usize = 0;
    proof {
        let e = text@.subrange(0, 0);
        assert(e =~= Seq::<char>::empty());
        assert(sv.push(e) =~= split_on(e, sep));
    }
    while i < n
        invariant
            tc@ == text@,
            n == tc.len(),
            0 <= start <= i <= n,
            pieces.len() == sv.len(),
            forall|j: int| 0 <= j < pieces.len() ==> #[trigger] pieces@[j]@ == sv[j],
            sv.push(text@.subrange(start as int, i as int)) == split_on(
                text@.subrange(0, i as int),
                sep,
            ),
        decreases n - i,
    {
        let ghost prefix = text@.subrange(0, i + 1);
        assert(prefix.drop_last() =~= text@.subrange(0, i as int));
        assert(prefix.last() == tc@[i as int]);
        if tc[i] == sep {
            let piece = text.substring_char(start, i);
            pieces.push(String::from_str(piece));
            proof {
                sv = sv.push(text@.subrange(start as int, i as int));
                assert(text@.subrange(i + 1, i + 1) =~= Seq::<char>::empty());
            }
            start = i + 1;
        } else {
            proof {
                assert(text@.subrange(start as int, i + 1) =~= text@.subrange(
                    start as int,
                    i as int,
                ).push(tc@[i as int]));
            }
        }
        i = i + 1;
    }
    let piece = text.substring_char(start, n);
    pieces.push(String::from_str(piece));
    proof {
        assert(text@.subrange(0, n as int) =~= text@);
        sv = sv.push(text@.subrange(start as int, n as int));
    }
    pieces
}


/// What reading `s` as a signed 64-bit numeral gives: an optional `+` or
/// `-`, then at least one decimal digit, and a value that fits in an `i64`.
pub open spec fn parse_i64_spec(s: Seq<char>) -> Option<i64> {
    let negative = s.len() > 0 && s[0] == '-';
    let digits = if s.len() > 0 && (s[0] == '+' || s[0] == '-') {
        s.drop_first()
    } else {
        s
    };
    if digits.len() == 0 || !all_digits(digits) {
        None
    } else if negative {
        if digits_value(digits) > 0x8000_0000_0000_0000 {
            None
        } else {
            Some((0 - digits_value(digits)) as i64)
        }
    } else if digits_value(digits) > 0x7fff_ffff_ffff_ffff {
        None
    } else {
        Some(digits_value(digits) as i64)
    }
}

/// Reads a text as a signed 64-bit numeral, as `str::parse::<i64>` does.
pub fn parse_i64(s: &str) -> (r: Option<i64>)
    ensures
        r == parse_i64_spec(s@),
{
    let sc = chars_of(s);
    let negative = sc.len() > 0 && sc[0] == '-';
    let start: usize = if sc.len() > 0 && (sc[0] == '+' || sc[0] == '-') {
        1
    } else {
        0
    };
    let ghost digits = if s@.len() > 0 && (s@[0] == '+' || s@[0] == '-') {
        s@.drop_first()
    } else {
        s@
    };
    assert(digits =~= sc@.subrange(start as int, sc.len() as int));
    if start == sc.len() {
        return None;
    }
    let limit: u64 = if negative {
        0x8000_0000_0000_0000
    } else {
        0x7fff_ffff_ffff_ffff
    };
    let mut acc: u64 = 0;
    let mut i: usize = start;
    while i < sc.len()
        invariant
            sc@ == s@,
            start <= i <= sc.len(),
            digits == sc@.subrange(start as int, sc.len() as int),
            all_digits(sc@.subrange(start as int, i as int)),
            acc == digits_value(sc@.subrange(start as int, i as int)),
            acc <= limit,
            negative == (s@.len() > 0 && s@[0] == '-'),
            digits == (if s@.len() > 0 && (s@[0] == '+' || s@[0] == '-') {
                s@.drop_first()
            } else {
                s@
            }),
            limit == if negative {
                0x8000_0000_0000_0000u64
            } else {
                0x7fff_ffff_ffff_ffffu64
            },
        decreases sc.len() - i,
    {
        let c = sc[i];
        let ghost done = sc@.subrange(start as int, i as int);
        let ghost next = sc@.subrange(start as int, i + 1);
        assert(next.drop_last() =~= done);
        assert(digits.subrange(0, (i - start) as int) =~= done);
        assert(digits.subrange(0, (i + 1 - start) as int) =~= next);
        if !('0' <= c && c <= '9') {
            assert(digits[(i - start) as int] == c);
            assert(!is_digit(digits[(i - start) as int]));
            return None;
        }
        let d: u64 = (c as u32 - '0' as u32) as u64;
        assert(d == digit_value(c));
        if acc > (limit - d) / 10 {
            proof {
                assert(next.last() == c);
                assert(digits_value(next) == acc * 10 + d);
                assert(all_digits(next));
                if all_digits(digits) {
                    lemma_digits_value_monotone(digits, (i + 1 - start) as int, digits.len() as int);
                    assert(digits.subrange(0, digits.len() as int) =~= digits);
                }
            }
            return None;
        }
        acc = acc * 10 + d;
        i = i + 1;
        assert(all_digits(sc@.subrange(start as int, i as int)));
    }
    assert(sc@.subrange(start as int, i as int) =~= digits);
    if negative {
        if acc == 0x8000_0000_0000_0000 {
            Some(i64::MIN)
        } else {
            Some(0 - (acc as i64))
        }
    } else {
        Some(acc as i64)
    }
}

} // verus!
