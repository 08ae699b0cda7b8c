//! Plain text handling: trimming, ASCII case folding, decimal numbers
//! and semicolon-separated records.

use vstd::prelude::*;
use vstd::string::*;

verus! {

/// Characters treated as blank when an input line is trimmed:
/// the ASCII whitespace set.
pub open spec fn is_blank(c: char) -> bool {
    c == ' ' || c == '\t' || c == '\n' || c == '\r' || c == '\u{c}'
}

pub open spec fn trim_front(s: Seq<char>) -> Seq<char>
    decreases s.len(),
{
    if s.len() > 0 && is_blank(s[0]) {
        trim_front(s.drop_first())
    } else {
        s
    }
}

pub open spec fn trim_back(s: Seq<char>) -> Seq<char>
    decreases s.len(),
{
    if s.len() > 0 && is_blank(s.last()) {
        trim_back(s.drop_last())
    } else {
        s
    }
}

/// The trimmed form of a line: leading and trailing blanks removed.
pub open spec fn trimmed(s: Seq<char>) -> Seq<char> {
    trim_back(trim_front(s))
}

fn is_blank_char(c: char) -> (r: bool)
    ensures
        r == is_blank(c),
{
    c == ' ' || c == '\t' || c == '\n' || c == '\r' || c == '\u{c}'
}

/// Remove leading and trailing blanks from a line.
pub fn trim_str(s: &str) -> (r: String)
    ensures
        r@ == trimmed(s@),
{
    let n = s.unicode_len();
    let mut lo: usize = 0;
    proof {
        assert(s@.skip(0) =~= s@);
    }
    while lo < n && is_blank_char(s.get_char(lo))
        invariant
            n == s@.len(),
            lo <= n,
            trim_front(s@) == trim_front(s@.skip(lo as int)),
        decreases n - lo,
    {
        proof {
            assert(s@.skip(lo as int).drop_first() =~= s@.skip(lo as int + 1));
        }
        lo = lo + 1;
    }
    if lo == n {
        proof {
            assert(s@.skip(lo as int) =~= Seq::<char>::empty());
        }
        return String::new();
    }
    // s@[lo] is not blank, so trim_front(s@) == s@.skip(lo).
    let mut hi: usize = n;
    proof {
        assert(s@.subrange(lo as int, n as int) =~= s@.skip(lo as int));
    }
    while lo < hi && is_blank_char(s.get_char(hi - 1))
        invariant
            n == s@.len(),
            lo <= hi <= n,
            lo < n,
            !is_blank(s@[lo as int]),
            trim_front(s@) == s@.skip(lo as int),
            trim_back(s@.skip(lo as int)) == trim_back(s@.subrange(lo as int, hi as int)),
        decreases hi,
    {
        proof {
            let piece = s@.subrange(lo as int, hi as int);
            assert(piece.last() == s@[hi - 1]);
            assert(piece.drop_last() =~= s@.subrange(lo as int, hi as int - 1));
        }
        hi = hi - 1;
    }
    if hi == lo {
        proof {
            assert(s@.subrange(lo as int, hi as int) =~= Seq::<char>::empty());
        }
        return String::new();
    }
    proof {
        let piece = s@.subrange(lo as int, hi as int);
        assert(piece.last() == s@[hi - 1]);
        assert(trim_back(piece) == piece);
    }
    s.substring_char(lo, hi).to_owned()
}

/// Exact, case-sensitive equality of two pieces of text.
pub fn str_eq(a: &str, b: &str) -> (r: bool)
    ensures
        r == (a@ == b@),
{
    let na = a.unicode_len();
    let nb = b.unicode_len();
    if na != nb {
        return false;
    }
    let mut i: usize = 0;
    while i < na
        invariant
            na == a@.len(),
            na == b@.len(),
            i <= na,
            forall|j: int| 0 <= j < i ==> a@[j] == b@[j],
        decreases na - i,
    {
        if a.get_char(i) != b.get_char(i) {
            return false;
        }
        i = i + 1;
    }
    proof {
        assert(a@ =~= b@);
    }
    true
}

/// The lower-case form of a character, for the ASCII letters only.
pub open spec fn lower_char(c: char) -> char {
    match c {
        'A' => 'a',
        'B' => 'b',
        'C' => 'c',
        'D' => 'd',
        'E' => 'e',
        'F' => 'f',
        'G' => 'g',
        'H' => 'h',
        'I' => 'i',
        'J' => 'j',
        'K' => 'k',
        'L' => 'l',
        'M' => 'm',
        'N' => 'n',
        'O' => 'o',
        'P' => 'p',
        'Q' => 'q',
        'R' => 'r',
        'S' => 's',
        'T' => 't',
        'U' => 'u',
        'V' => 'v',
        'W' => 'w',
        'X' => 'x',
        'Y' => 'y',
        'Z' => 'z',
        _ => c,
    }
}

/// Character-wise ASCII lower-casing of a piece of text.
pub open spec fn lower(s: Seq<char>) -> Seq<char> {
    s.map_values(|c: char| lower_char(c))
}

fn to_lower_char(c: char) -> (r: char)
    ensures
        r == lower_char(c),
{
    match c {
        'A' => 'a',
        'B' => 'b',
        'C' => 'c',
        'D' => 'd',
        'E' => 'e',
        'F' => 'f',
        'G' => 'g',
        'H' => 'h',
        'I' => 'i',
        'J' => 'j',
        'K' => 'k',
        'L' => 'l',
        'M' => 'm',
        'N' => 'n',
        'O' => 'o',
        'P' => 'p',
        'Q' => 'q',
        'R' => 'r',
        'S' => 's',
        'T' => 't',
        'U' => 'u',
        'V' => 'v',
        'W' => 'w',
        'X' => 'x',
        'Y' => 'y',
        'Z' => 'z',
        _ => c,
    }
}

/// Does `a`, lower-cased, read exactly as `low` (already lower-case)?
pub fn eq_lowered(a: &str, low: &str) -> (r: bool)
    ensures
        r == (lower(a@) == low@),
{
    let na = a.unicode_len();
    let nb = low.unicode_len();
    if na != nb {
        proof {
            assert(lower(a@).len() == a@.len());
        }
        return false;
    }
    let mut i: usize = 0;
    while i < na
        invariant
            na == a@.len(),
            na == low@.len(),
            i <= na,
            forall|j: int| 0 <= j < i ==> lower_char(a@[j]) == low@[j],
        decreases na - i,
    {
        if to_lower_char(a.get_char(i)) != low.get_char(i) {
            proof {
                assert(lower(a@)[i as int] == lower_char(a@[i as int]));
            }
            return false;
        }
        i = i + 1;
    }
    proof {
        assert(lower(a@) =~= low@);
    }
    true
}

pub open spec fn is_digit(c: char) -> bool {
    48 <= c as u32 <= 57
}

pub open spec fn digit_val(c: char) -> int {
    c as u32 - 48
}

pub open spec fn all_digits(s: Seq<char>) -> bool {
    forall|i: int| 0 <= i < s.len() ==> is_digit(#[trigger] s[i])
}

/// The value of a run of decimal digits, most significant first.
pub open spec fn digits_val(s: Seq<char>) -> int
    decreases s.len(),
{
    if s.len() == 0 {
        0
    } else {
        digits_val(s.drop_last()) * 10 + digit_val(s.last())
    }
}

/// What a small unsigned count reads as: an optional leading '+',
/// then at least one decimal digit, and a value that fits in a byte.
pub open spec fn parse_u8_spec(s: Seq<char>) -> Option<u8> {
    let body = if s.len() > 0 && s[0] == '+' {
        s.drop_first()
    } else {
        s
    };
    if body.len() > 0 && all_digits(body) && digits_val(body) <= 255 {
        Some(digits_val(body) as u8)
    } else {
        None
    }
}

proof fn lemma_digits_val_nonneg(s: Seq<char>)
    requires
        all_digits(s),
    ensures
        digits_val(s) >= 0,
    decreases s.len(),
{
    if s.len() > 0 {
        assert(all_digits(s.drop_last()));
        lemma_digits_val_nonneg(s.drop_last());
    }
}

proof fn lemma_digits_val_prefix(s: Seq<char>, k: int)
    requires
        all_digits(s),
        0 <= k <= s.len(),
    ensures
        digits_val(s.take(k)) <= digits_val(s),
    decreases s.len() - k,
{
    if k < s.len() {
        lemma_digits_val_prefix(s, k + 1);
        let t = s.take(k + 1);
        assert(t.drop_last() =~= s.take(k));
        assert(all_digits(s.take(k)));
        lemma_digits_val_nonneg(s.take(k));
        assert(digits_val(t) == digits_val(s.take(k)) * 10 + digit_val(t.last()));
    } else {
        assert(s.take(k) =~= s);
    }
}

/// Read a line as a small unsigned count, as `parse_u8_spec` says.
pub fn parse_u8(s: &str) -> (r: Option<u8>)
    ensures
        r == parse_u8_spec(s@),
{
    let n = s.unicode_len();
    let start: usize = if n > 0 && s.get_char(0) == '+' {
        1
    } else {
        0
    };
    let ghost body = s@.skip(start as int);
    proof {
        if start == 1 {
            assert(body =~= s@.drop_first());
        } else {
            assert(body =~= s@);
        }
    }
    if start >= n {
        return None;
    }
    let mut i: usize = start;
    let mut val: u32 = 0;
    while i < n
        invariant
            n == s@.len(),
            start <= i <= n,
            body == s@.skip(start as int),
            body == (if s@.len() > 0 && s@[0] == '+' {
                s@.drop_first()
            } else {
                s@
            }),
            all_digits(s@.subrange(start as int, i as int)),
            val == digits_val(s@.subrange(start as int, i as int)),
            val <= 255,
        decreases n - i,
    {
        let c = s.get_char(i);
        let u = c as u32;
        if u < 48 || u > 57 {
            proof {
                assert(body[i - start] == s@[i as int]);
                assert(!is_digit(body[i - start]));
            }
            return None;
        }
        let d = u - 48;
        val = val * 10 + d;
        proof {
            let prev = s@.subrange(start as int, i as int);
            let cur = s@.subrange(start as int, i as int + 1);
            assert(cur.drop_last() =~= prev);
            assert(cur.last() == s@[i as int]);
        }
        i = i + 1;
        if val > 255 {
            proof {
                let pre = s@.subrange(start as int, i as int);
                if all_digits(body) {
                    assert(body.take(i - start) =~= pre);
                    lemma_digits_val_prefix(body, i - start);
                }
            }
            return None;
        }
    }
    proof {
        assert(s@.subrange(start as int, n as int) =~= body);
    }
    Some(val as u8)
}

/// The digit character of a value below ten.
pub open spec fn dec_digit(d: int) -> char {
    if d == 0 {
        '0'
    } else if d == 1 {
        '1'
    } else if d == 2 {
        '2'
    } else if d == 3 {
        '3'
    } else if d == 4 {
        '4'
    } else if d == 5 {
        '5'
    } else if d == 6 {
        '6'
    } else if d == 7 {
        '7'
    } else if d == 8 {
        '8'
    } else {
        '9'
    }
}

/// The decimal rendering of a non-negative value, most significant digit first.
pub open spec fn dec_str(n: int) -> Seq<char>
    decreases n,
{
    if n < 10 {
        seq![dec_digit(n)]
    } else {
        dec_str(n / 10).push(dec_digit(n % 10))
    }
}

fn digit_str(d: u8) -> (r: &'static str)
    requires
        d < 10,
    ensures
        r@ =~= seq![dec_digit(d as int)],
{
    proof {
        reveal_strlit("0");
        reveal_strlit("1");
        reveal_strlit("2");
        reveal_strlit("3");
        reveal_strlit("4");
        reveal_strlit("5");
        reveal_strlit("6");
        reveal_strlit("7");
        reveal_strlit("8");
        reveal_strlit("9");
    }
    match d {
        0 => "0",
        1 => "1",
        2 => "2",
        3 => "3",
        4 => "4",
        5 => "5",
        6 => "6",
        7 => "7",
        8 => "8",
        _ => "9",
    }
}

/// Render a byte-sized count in decimal.
pub fn u8_to_string(n: u8) -> (r: String)
    ensures
        r@ == dec_str(n as int),
{
    let mut r = String::new();
    if n >= 100 {
        r.append(digit_str(n / 100));
    }
    if n >= 10 {
        r.append(digit_str((n / 10) % 10));
    }
    r.append(digit_str(n % 10));
    proof {
        let v = n as int;
        if v < 10 {
            assert(r@ =~= dec_str(v));
        } else if v < 100 {
            assert(dec_str(v / 10) == seq![dec_digit(v / 10)]);
            assert(r@ =~= dec_str(v));
        } else {
            assert(v / 10 / 10 == v / 100);
            assert(dec_str(v / 10) == dec_str(v / 100).push(dec_digit(v / 10 % 10)));
            assert(dec_str(v / 100) == seq![dec_digit(v / 100)]);
            assert(r@ =~= dec_str(v));
        }
    }
    r
}

/// The pieces of a record split at every semicolon. Splitting empty text
/// gives one empty piece.
pub open spec fn split_semi(s: Seq<char>) -> Seq<Seq<char>>
    decreases s.len(),
{
    if s.len() == 0 {
        seq![Seq::<char>::empty()]
    } else if s[0] == ';' {
        seq![Seq::<char>::empty()] + split_semi(s.drop_first())
    } else {
        let rest = split_semi(s.drop_first());
        seq![seq![s[0]] + rest[0]] + rest.drop_first()
    }
}

pub proof fn lemma_split_semi_len(s: Seq<char>)
    ensures
        split_semi(s).len() >= 1,
    decreases s.len(),
{
    if s.len() > 0 {
        lemma_split_semi_len(s.drop_first());
    }
}

/// `parts`, with `p` prefixed onto its first piece.
spec fn prefix_first(p: Seq<char>, parts: Seq<Seq<char>>) -> Seq<Seq<char>> {
    seq![p + parts[0]] + parts.drop_first()
}

/// Split a record at every semicolon, as `split_semi` says.
pub fn split_semicolons(s: &str) -> (r: Vec<String>)
    ensures
        r@.map_values(|p: String| p@) == split_semi(s@),
{
    let n = s.unicode_len();
    let mut r: Vec<String> = Vec::new();
    let mut piece_start: usize = 0;
    let mut i: usize = 0;
    proof {
        lemma_split_semi_len(s@);
        assert(s@.skip(0) =~= s@);
        assert(s@.subrange(0, 0) =~= Seq::<char>::empty());
        let parts = split_semi(s@);
        assert(Seq::<char>::empty() + parts[0] =~= parts[0]);
        assert(prefix_first(Seq::<char>::empty(), parts) =~= parts);
        assert(r@.map_values(|p: String| p@) + parts =~= parts);
    }
    while i < n
        invariant
            n == s@.len(),
            piece_start <= i <= n,
            split_semi(s@) == r@.map_values(|p: String| p@) + prefix_first(
                s@.subrange(piece_start as int, i as int),
                split_semi(s@.skip(i as int)),
            ),
        decreases n - i,
    {
        let c = s.get_char(i);
        proof {
            lemma_split_semi_len(s@.skip(i as int + 1));
            assert(s@.skip(i as int).drop_first() =~= s@.skip(i as int + 1));
            assert(s@.skip(i as int)[0] == s@[i as int]);
        }
        if c == ';' {
            let piece = s.substring_char(piece_start, i).to_owned();
            let ghost old_r = r@;
            r.push(piece);
            proof {
                let cur = s@.subrange(piece_start as int, i as int);
                let tail = split_semi(s@.skip(i as int + 1));
                assert(split_semi(s@.skip(i as int)) == seq![Seq::<char>::empty()] + tail);
                assert((seq![Seq::<char>::empty()] + tail)[0] =~= Seq::<char>::empty());
                assert((seq![Seq::<char>::empty()] + tail).drop_first() =~= tail);
                assert(prefix_first(cur, split_semi(s@.skip(i as int))) =~= seq![cur] + tail);
                assert(r@.map_values(|p: String| p@) =~= old_r.map_values(|p: String| p@)
                    + seq![cur]);
                assert(s@.subrange(i as int + 1, i as int + 1) =~= Seq::<char>::empty());
                assert(r@.map_values(|p: String| p@) + prefix_first(
                    s@.subrange(i as int + 1, i as int + 1),
                    tail,
                ) =~= old_r.map_values(|p: String| p@) + (seq![cur] + tail));
                assert(old_r.map_values(|p: String| p@) + (seq![cur] + tail) =~= split_semi(s@));
            }
            piece_start = i + 1;
        } else {
            proof {
                let cur = s@.subrange(piece_start as int, i as int);
                let next = s@.subrange(piece_start as int, i as int + 1);
                let parts = split_semi(s@.skip(i as int));
                let tail = split_semi(s@.skip(i as int + 1));
                assert(parts == seq![seq![s@[i as int]] + tail[0]] + tail.drop_first());
                assert(next =~= cur.push(s@[i as int]));
                assert(cur + (seq![s@[i as int]] + tail[0]) =~= next + tail[0]);
                assert(parts.drop_first() =~= tail.drop_first());
                assert(prefix_first(cur, parts) =~= prefix_first(next, tail));
            }
        }
        i = i + 1;
    }
    let last = s.substring_char(piece_start, n).to_owned();
    let ghost old_r = r@;
    r.push(last);
    proof {
        let cur = s@.subrange(piece_start as int, n as int);
        assert(s@.skip(n as int) =~= Seq::<char>::empty());
        assert(split_semi(Seq::<char>::empty()) == seq![Seq::<char>::empty()]);
        assert(cur + Seq::<char>::empty() =~= cur);
        assert(prefix_first(cur, split_semi(s@.skip(n as int))) =~= seq![cur]);
        assert(r@.map_values(|p: String| p@) =~= old_r.map_values(|p: String| p@) + seq![cur]);
    }
    r
}

} // verus!
