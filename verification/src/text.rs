//! Verified character and string utilities used across the crate.

use vstd::prelude::*;
use vstd::string::StrSliceExecFns;
use vstd::string::StringExecFns;

verus! {

/// The Unicode `White_Space` characters, the set `str::trim` removes.
pub open spec fn is_space_char(c: char) -> bool {
    c == ' ' || c == '\t' || c == '\n' || c == '\r' || c == '\u{000B}' || c == '\u{000C}' || c
        == '\u{0085}' || c == '\u{00A0}' || c == '\u{1680}' || ((0x2000 <= c as u32) && (c as u32
        <= 0x200A)) || c == '\u{2028}' || c == '\u{2029}' || c == '\u{202F}' || c == '\u{205F}' || c
        == '\u{3000}'
}

pub fn is_space(c: char) -> (b: bool)
    ensures
        b == is_space_char(c),
{
    c == ' ' || c == '\t' || c == '\n' || c == '\r' || c == '\u{000B}' || c == '\u{000C}' || c
        == '\u{0085}' || c == '\u{00A0}' || c == '\u{1680}' || ((0x2000 <= c as u32) && (c as u32
        <= 0x200A)) || c == '\u{2028}' || c == '\u{2029}' || c == '\u{202F}' || c == '\u{205F}' || c
        == '\u{3000}'
}

pub open spec fn trim_front_spec(s: Seq<char>) -> Seq<char>
    decreases s.len(),
{
    if s.len() > 0 && is_space_char(s[0]) {
        trim_front_spec(s.drop_first())
    } else {
        s
    }
}

pub open spec fn trim_back_spec(s: Seq<char>) -> Seq<char>
    decreases s.len(),
{
    if s.len() > 0 && is_space_char(s.last()) {
        trim_back_spec(s.drop_last())
    } else {
        s
    }
}

/// The sequence with leading and trailing white space removed.
pub open spec fn trim_spec(s: Seq<char>) -> Seq<char> {
    trim_back_spec(trim_front_spec(s))
}

proof fn lemma_trim_front(s: Seq<char>, i: int)
    requires
        0 <= i <= s.len(),
        forall|k: int| 0 <= k < i ==> is_space_char(s[k]),
        i < s.len() ==> !is_space_char(s[i]),
    ensures
        trim_front_spec(s) == s.subrange(i, s.len() as int),
    decreases i,
{
    if i == 0 {
        assert(s.subrange(0, s.len() as int) =~= s);
    } else {
        lemma_trim_front(s.drop_first(), i - 1);
        assert(s.drop_first().subrange(i - 1, s.drop_first().len() as int) =~= s.subrange(
            i,
            s.len() as int,
        ));
    }
}

proof fn lemma_trim_back(s: Seq<char>, j: int)
    requires
        0 <= j <= s.len(),
        forall|k: int| j <= k < s.len() ==> is_space_char(s[k]),
        j > 0 ==> !is_space_char(s[j - 1]),
    ensures
        trim_back_spec(s) == s.subrange(0, j),
    decreases s.len(),
{
    if j == s.len() {
        assert(s.subrange(0, j) =~= s);
    } else {
        lemma_trim_back(s.drop_last(), j);
        assert(s.drop_last().subrange(0, j) =~= s.subrange(0, j));
    }
}

/// `str::trim`, verified against the `White_Space` set above.
pub fn trim_str(s: &str) -> (r: &str)
    ensures
        r@ == trim_spec(s@),
{
    let len = s.unicode_len();
    let mut i: usize = 0;
    while i < len && is_space(s.get_char(i))
        invariant
            0 <= i <= len,
            len == s@.len(),
            forall|k: int| 0 <= k < i ==> is_space_char(s@[k]),
        decreases len - i,
    {
        i += 1;
    }
    let mut j: usize = len;
    while j > i && is_space(s.get_char(j - 1))
        invariant
            i <= j <= len,
            len == s@.len(),
            forall|k: int| j <= k < len ==> is_space_char(s@[k]),
        decreases j,
    {
        j -= 1;
    }
    proof {
        lemma_trim_front(s@, i as int);
        let t = s@.subrange(i as int, s@.len() as int);
        lemma_trim_back(t, j - i);
        assert(t.subrange(0, j - i) =~= s@.subrange(i as int, j as int));
    }
    s.substring_char(i, j)
}

/// Whether `suffix` is a suffix of `s`.
pub open spec fn ends_with_spec(s: Seq<char>, suffix: Seq<char>) -> bool {
    s.len() >= suffix.len() && s.subrange(s.len() - suffix.len(), s.len() as int) == suffix
}

pub fn str_ends_with(s: &str, suffix: &str) -> (b: bool)
    ensures
        b == ends_with_spec(s@, suffix@),
{
    let n = s.unicode_len();
    let m = suffix.unicode_len();
    if n < m {
        return false;
    }
    let off = n - m;
    let mut k: usize = 0;
    while k < m
        invariant
            m <= n,
            off == n - m,
            n == s@.len(),
            m == suffix@.len(),
            0 <= k <= m,
            forall|t: int| 0 <= t < k ==> s@[off + t] == suffix@[t],
        decreases m - k,
    {
        if s.get_char(off + k) != suffix.get_char(k) {
            proof {
                assert(s@.subrange(off as int, n as int)[k as int] != suffix@[k as int]);
            }
            return false;
        }
        k += 1;
    }
    proof {
        assert(s@.subrange(off as int, n as int) =~= suffix@);
    }
    true
}

/// Index of the first occurrence of `c` in `s`, or `-1` when there is none.
pub open spec fn index_of_first(s: Seq<char>, c: char) -> int
    decreases s.len(),
{
    if s.len() == 0 {
        -1
    } else if s[0] == c {
        0
    } else {
        let r = index_of_first(s.drop_first(), c);
        if r < 0 {
            -1
        } else {
            r + 1
        }
    }
}

/// Index of the last occurrence of `c` in `s`, or `-1` when there is none.
pub open spec fn index_of_last(s: Seq<char>, c: char) -> int
    decreases s.len(),
{
    if s.len() == 0 {
        -1
    } else if s.last() == c {
        s.len() - 1
    } else {
        index_of_last(s.drop_last(), c)
    }
}

proof fn lemma_index_of_first(s: Seq<char>, c: char, k: int)
    requires
        0 <= k <= s.len(),
        forall|t: int| 0 <= t < k ==> s[t] != c,
        k < s.len() ==> s[k] == c,
    ensures
        index_of_first(s, c) == if k < s.len() {
            k
        } else {
            -1
        },
    decreases k,
{
    if k > 0 {
        lemma_index_of_first(s.drop_first(), c, k - 1);
    }
}

proof fn lemma_index_of_last(s: Seq<char>, c: char, j: int)
    requires
        0 <= j <= s.len(),
        forall|t: int| j <= t < s.len() ==> s[t] != c,
        j > 0 ==> s[j - 1] == c,
    ensures
        index_of_last(s, c) == j - 1,
    decreases s.len(),
{
    if j < s.len() {
        lemma_index_of_last(s.drop_last(), c, j);
    }
}

pub fn find_first(s: &str, c: char) -> (r: Option<usize>)
    ensures
        match r {
            Some(u) => u < s@.len() && index_of_first(s@, c) == u as int,
            None => index_of_first(s@, c) == -1,
        },
{
    let len = s.unicode_len();
    let mut i: usize = 0;
    while i < len && s.get_char(i) != c
        invariant
            0 <= i <= len,
            len == s@.len(),
            forall|t: int| 0 <= t < i ==> s@[t] != c,
        decreases len - i,
    {
        i += 1;
    }
    proof {
        lemma_index_of_first(s@, c, i as int);
    }
    if i < len {
        Some(i)
    } else {
        None
    }
}

pub fn find_last(s: &str, c: char) -> (r: Option<usize>)
    ensures
        match r {
            Some(u) => u < s@.len() && index_of_last(s@, c) == u as int,
            None => index_of_last(s@, c) == -1,
        },
{
    let len = s.unicode_len();
    let mut j: usize = len;
    while j > 0 && s.get_char(j - 1) != c
        invariant
            0 <= j <= len,
            len == s@.len(),
            forall|t: int| j <= t < len ==> s@[t] != c,
        decreases j,
    {
        j -= 1;
    }
    proof {
        lemma_index_of_last(s@, c, j as int);
    }
    if j > 0 {
        Some(j - 1)
    } else {
        None
    }
}

/// The piece of `s` after its last `-`, or all of `s` when it has none.
pub open spec fn after_last_hyphen(s: Seq<char>) -> Seq<char> {
    s.subrange(index_of_last(s, '-') + 1, s.len() as int)
}

pub fn last_hyphen_piece(s: &str) -> (r: &str)
    ensures
        r@ == after_last_hyphen(s@),
{
    let len = s.unicode_len();
    match find_last(s, '-') {
        Some(p) => s.substring_char(p + 1, len),
        None => {
            proof {
                assert(s@.subrange(0, s@.len() as int) =~= s@);
            }
            s
        },
    }
}

/// The prefix of `s` up to and including its first `)`, or all of `s` when it
/// has none.
pub open spec fn first_sentence_spec(s: Seq<char>) -> Seq<char> {
    let k = index_of_first(s, ')');
    if k >= 0 {
        s.subrange(0, k + 1)
    } else {
        s
    }
}

pub fn truncate_first_sentence(s: &str) -> (r: &str)
    ensures
        r@ == first_sentence_spec(s@),
{
    let len = s.unicode_len();
    match find_first(s, ')') {
        Some(p) => s.substring_char(0, p + 1),
        None => {
            proof {
                assert(s@.subrange(0, s@.len() as int) =~= s@);
            }
            s
        },
    }
}

pub open spec fn is_ascii_digit_char(c: char) -> bool {
    48 <= c as u32 && c as u32 <= 57
}

pub open spec fn digit_val(c: char) -> int {
    c as u32 - 48
}

pub open spec fn all_digits(s: Seq<char>) -> bool {
    forall|i: int| 0 <= i < s.len() ==> is_ascii_digit_char(s[i])
}

/// The value of a sequence of decimal digits, most significant first.
pub open spec fn digits_val(s: Seq<char>) -> int
    decreases s.len(),
{
    if s.len() == 0 {
        0
    } else {
        digits_val(s.drop_last()) * 10 + digit_val(s.last())
    }
}

/// What `str::parse::<u32>` accepts: an optional leading `+`, then one or
/// more decimal digits, with a value that fits in the type.
pub open spec fn u32_from_decimal(s: Seq<char>) -> Option<u32> {
    let body = if s.len() > 0 && s[0] == '+' {
        s.drop_first()
    } else {
        s
    };
    if body.len() > 0 && all_digits(body) && digits_val(body) <= u32::MAX {
        Some(digits_val(body) as u32)
    } else {
        None
    }
}

proof fn lemma_digits_val_nonneg(s: Seq<char>)
    requires
        all_digits(s),
    ensures
        digits_val(s) >= 0,
    decreases s.len(),
{
    if s.len() > 0 {
        assert(all_digits(s.drop_last()));
        lemma_digits_val_nonneg(s.drop_last());
    }
}

proof fn lemma_digits_val_prefix(s: Seq<char>, i: int)
    requires
        all_digits(s),
        0 <= i <= s.len(),
    ensures
        digits_val(s.subrange(0, i)) <= digits_val(s),
    decreases s.len() - i,
{
    if i == s.len() {
        assert(s.subrange(0, i) =~= s);
    } else {
        assert(s.subrange(0, i + 1).drop_last() =~= s.subrange(0, i));
        assert(all_digits(s.subrange(0, i)));
        lemma_digits_val_nonneg(s.subrange(0, i));
        lemma_digits_val_prefix(s, i + 1);
    }
}

/// `str::parse::<u32>`, verified against `u32_from_decimal`.
pub fn parse_u32_decimal(s: &str) -> (r: Option<u32>)
    ensures
        r == u32_from_decimal(s@),
{
    let len = s.unicode_len();
    let start: usize = if len > 0 && s.get_char(0) == '+' {
        1
    } else {
        0
    };
    let ghost body = if s@.len() > 0 && s@[0] == '+' {
        s@.drop_first()
    } else {
        s@
    };
    proof {
        assert(body =~= s@.subrange(start as int, len as int));
    }
    if start == len {
        return None;
    }
    let mut acc: u64 = 0;
    let mut i: usize = start;
    while i < len
        invariant
            start <= i <= len,
            len == s@.len(),
            start as int == (if s@.len() > 0 && s@[0] == '+' {
                1int
            } else {
                0int
            }),
            body == s@.subrange(start as int, len as int),
            forall|t: int| start <= t < i ==> is_ascii_digit_char(s@[t]),
            acc as int == digits_val(body.subrange(0, i - start)),
            acc <= u32::MAX as u64,
        decreases len - i,
    {
        let c = s.get_char(i);
        let u = c as u32;
        if u < 48 || u > 57 {
            proof {
                assert(body[i - start] == s@[i as int]);
                assert(!all_digits(body));
                assert((if s@.len() > 0 && s@[0] == '+' {
                    s@.drop_first()
                } else {
                    s@
                }) =~= body);
            }
            return None;
        }
        let d: u64 = (u - 48) as u64;
        proof {
            assert(body.subrange(0, i - start + 1).drop_last() =~= body.subrange(0, i - start));
            assert(body.subrange(0, i - start + 1).last() == body[i - start]);
        }
        acc = acc * 10 + d;
        if acc > u32::MAX as u64 {
            proof {
                if all_digits(body) {
                    lemma_digits_val_prefix(body, i - start + 1);
                }
                assert((if s@.len() > 0 && s@[0] == '+' {
                    s@.drop_first()
                } else {
                    s@
                }) =~= body);
            }
            return None;
        }
        i += 1;
    }
    proof {
        assert(body.subrange(0, body.len() as int) =~= body);
        assert(forall|t: int|
            0 <= t < body.len() ==> is_ascii_digit_char(#[trigger] body[t]) && body[t] == s@[
                start + t
            ]);
    }
    Some(acc as u32)
}

/// Whether `s` is plain decimal notation: one or more digits, optionally
/// followed by a point and one or more digits.
pub open spec fn is_plain_decimal(s: Seq<char>) -> bool {
    let k = index_of_first(s, '.');
    if k < 0 {
        s.len() > 0 && all_digits(s)
    } else {
        0 < k && k + 1 < s.len() && all_digits(s.subrange(0, k)) && all_digits(
            s.subrange(k + 1, s.len() as int),
        )
    }
}

fn all_digits_between(s: &str, from: usize, to: usize) -> (b: bool)
    requires
        from <= to <= s@.len(),
    ensures
        b == all_digits(s@.subrange(from as int, to as int)),
{
    let mut k: usize = from;
    while k < to
        invariant
            from <= k <= to <= s@.len(),
            forall|t: int| from <= t < k ==> is_ascii_digit_char(s@[t]),
        decreases to - k,
    {
        let u = s.get_char(k) as u32;
        if u < 48 || u > 57 {
            proof {
                assert(!is_ascii_digit_char(s@.subrange(from as int, to as int)[k - from]));
            }
            return false;
        }
        k += 1;
    }
    proof {
        assert(forall|t: int|
            0 <= t < to - from ==> is_ascii_digit_char(
                #[trigger] s@.subrange(from as int, to as int)[t],
            ));
    }
    true
}

pub fn check_plain_decimal(s: &str) -> (b: bool)
    ensures
        b == is_plain_decimal(s@),
{
    let len = s.unicode_len();
    match find_first(s, '.') {
        None => {
            if len == 0 {
                false
            } else {
                let b = all_digits_between(s, 0, len);
                proof {
                    assert(s@.subrange(0, len as int) =~= s@);
                }
                b
            }
        },
        Some(p) => {
            if p == 0 || p + 1 >= len {
                false
            } else {
                all_digits_between(s, 0, p) && all_digits_between(s, p + 1, len)
            }
        },
    }
}

pub open spec fn digit_char(d: int) -> char {
    if d == 0 {
        '0'
    } else if d == 1 {
        '1'
    } else if d == 2 {
        '2'
    } else if d == 3 {
        '3'
    } else if d == 4 {
        '4'
    } else if d == 5 {
        '5'
    } else if d == 6 {
        '6'
    } else if d == 7 {
        '7'
    } else if d == 8 {
        '8'
    } else {
        '9'
    }
}

pub fn digit_str(d: u32) -> (r: &'static str)
    requires
        d < 10,
    ensures
        r@ == seq![digit_char(d as int)],
{
    let r = match d {
        0 => "0",
        1 => "1",
        2 => "2",
        3 => "3",
        4 => "4",
        5 => "5",
        6 => "6",
        7 => "7",
        8 => "8",
        _ => "9",
    };
    proof {
        reveal_strlit("0");
        reveal_strlit("1");
        reveal_strlit("2");
        reveal_strlit("3");
        reveal_strlit("4");
        reveal_strlit("5");
        reveal_strlit("6");
        reveal_strlit("7");
        reveal_strlit("8");
        reveal_strlit("9");
        assert(r@ =~= seq![digit_char(d as int)]);
    }
    r
}

/// Appends `v` as exactly two decimal digits, zero padded.
pub fn push_two_digits(out: &mut String, v: u32)
    requires
        v < 100,
    ensures
        final (out)@ == old(out)@ + seq![digit_char(v as int / 10), digit_char(v as int % 10)],
{
    out.append(digit_str(v / 10));
    out.append(digit_str(v % 10));
    proof {
        assert(out@ =~= old(out)@ + seq![digit_char(v as int / 10), digit_char(v as int % 10)]);
    }
}

/// Appends `v` as exactly four decimal digits, zero padded.
pub fn push_four_digits(out: &mut String, v: u32)
    requires
        v < 10000,
    ensures
        final (out)@ == old(out)@ + seq![
            digit_char(v as int / 1000),
            digit_char((v as int / 100) % 10),
            digit_char((v as int / 10) % 10),
            digit_char(v as int % 10),
        ],
{
    out.append(digit_str(v / 1000));
    out.append(digit_str((v / 100) % 10));
    out.append(digit_str((v / 10) % 10));
    out.append(digit_str(v % 10));
    proof {
        assert(out@ =~= old(out)@ + seq![
            digit_char(v as int / 1000),
            digit_char((v as int / 100) % 10),
            digit_char((v as int / 10) % 10),
            digit_char(v as int % 10),
        ]);
    }
}

} // verus!
