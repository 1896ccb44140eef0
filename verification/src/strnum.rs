//! Character-level helpers for the split-size parser: Unicode whitespace
//! trimming and base-10 signed integer literals, each with a mathematical
//! model and a verified executable counterpart.
use vstd::prelude::*;
use vstd::string::StrSliceExecFns;

verus! {

/// The Unicode `White_Space` characters, the set that `str` trimming of
/// whitespace goes by.
pub open spec fn is_whitespace_char(c: char) -> bool {
    ||| c == ' '
    ||| c == '\t'
    ||| c == '\n'
    ||| c == '\u{000B}'
    ||| c == '\u{000C}'
    ||| c == '\r'
    ||| c == '\u{0085}'
    ||| c == '\u{00A0}'
    ||| c == '\u{1680}'
    ||| ('\u{2000}' as int <= c as int && c as int <= '\u{200A}' as int)
    ||| c == '\u{2028}'
    ||| c == '\u{2029}'
    ||| c == '\u{202F}'
    ||| c == '\u{205F}'
    ||| c == '\u{3000}'
}

pub fn is_whitespace_char_exec(c: char) -> (b: bool)
    ensures
        b == is_whitespace_char(c),
{
    let u = c as u32;
    u == ' ' as u32 || u == '\t' as u32 || u == '\n' as u32 || u == 0x000B || u == 0x000C
        || u == '\r' as u32 || u == 0x0085 || u == 0x00A0 || u == 0x1680
        || (0x2000 <= u && u <= 0x200A) || u == 0x2028 || u == 0x2029 || u == 0x202F
        || u == 0x205F || u == 0x3000
}

/// Length of `s` once trailing whitespace is dropped.
pub open spec fn trimmed_end_len(s: Seq<char>) -> int
    decreases s.len(),
{
    if s.len() == 0 {
        0
    } else if is_whitespace_char(s.last()) {
        trimmed_end_len(s.drop_last())
    } else {
        s.len() as int
    }
}

pub proof fn lemma_trimmed_end_len_bounds(s: Seq<char>)
    ensures
        0 <= trimmed_end_len(s) <= s.len(),
    decreases s.len(),
{
    if s.len() > 0 && is_whitespace_char(s.last()) {
        lemma_trimmed_end_len_bounds(s.drop_last());
    }
}

/// `s` with trailing whitespace dropped.
pub open spec fn trim_end(s: Seq<char>) -> Seq<char> {
    s.subrange(0, trimmed_end_len(s))
}

/// Computes `trimmed_end_len` on a string slice.
pub fn trimmed_end_index(s: &str) -> (end: usize)
    ensures
        end == trimmed_end_len(s@),
{
    proof {
        lemma_trimmed_end_len_bounds(s@);
    }
    let n = s.unicode_len();
    proof {
        assert(s@.subrange(0, n as int) =~= s@);
    }
    let mut end = n;
    while end > 0 && is_whitespace_char_exec(s.get_char(end - 1))
        invariant
            end <= n,
            n == s@.len(),
            trimmed_end_len(s@) == trimmed_end_len(s@.subrange(0, end as int)),
        decreases end,
    {
        proof {
            let pre = s@.subrange(0, end as int);
            assert(pre.last() == s@[end - 1]);
            assert(pre.drop_last() =~= s@.subrange(0, end - 1));
        }
        end = end - 1;
    }
    proof {
        let pre = s@.subrange(0, end as int);
        if end > 0 {
            assert(pre.last() == s@[end - 1]);
        }
        assert(trimmed_end_len(pre) == end);
    }
    end
}

pub open spec fn is_digit_char(c: char) -> bool {
    '0' as int <= c as int && c as int <= '9' as int
}

pub open spec fn digit_char_val(c: char) -> int {
    c as int - '0' as int
}

pub open spec fn all_digit_chars(s: Seq<char>) -> bool {
    forall|i: int| 0 <= i < s.len() ==> is_digit_char(#[trigger] s[i])
}

/// Value of a non-empty run of decimal digits, most significant first.
pub open spec fn digits_val(s: Seq<char>) -> int
    decreases s.len(),
{
    if s.len() == 0 {
        0
    } else {
        digits_val(s.drop_last()) * 10 + digit_char_val(s.last())
    }
}

/// What `i64::from_str` accepts, range aside: an optional sign followed by
/// one or more ASCII digits.
pub open spec fn is_int_literal(s: Seq<char>) -> bool {
    if s.len() == 0 {
        false
    } else if s[0] == '+' || s[0] == '-' {
        s.len() > 1 && all_digit_chars(s.subrange(1, s.len() as int))
    } else {
        all_digit_chars(s)
    }
}

/// The mathematical value an integer literal denotes.
pub open spec fn int_literal_val(s: Seq<char>) -> int
    recommends
        is_int_literal(s),
{
    if s.len() > 0 && s[0] == '-' {
        -digits_val(s.subrange(1, s.len() as int))
    } else if s.len() > 0 && s[0] == '+' {
        digits_val(s.subrange(1, s.len() as int))
    } else {
        digits_val(s)
    }
}

/// The strings on which `i64::from_str` succeeds: an integer literal whose
/// value fits in an `i64`.
pub open spec fn is_i64_literal(s: Seq<char>) -> bool {
    is_int_literal(s) && i64::MIN <= int_literal_val(s) <= i64::MAX
}

proof fn lemma_digits_val_nonneg(s: Seq<char>)
    requires
        all_digit_chars(s),
    ensures
        digits_val(s) >= 0,
    decreases s.len(),
{
    if s.len() > 0 {
        assert(forall|i: int| 0 <= i < s.len() - 1 ==> s.drop_last()[i] == s[i]);
        lemma_digits_val_nonneg(s.drop_last());
        assert(is_digit_char(s.last()));
    }
}

/// A run of digits is worth at least any of its prefixes.
proof fn lemma_digits_val_prefix(s: Seq<char>, k: int)
    requires
        all_digit_chars(s),
        0 <= k <= s.len(),
    ensures
        digits_val(s.subrange(0, k)) <= digits_val(s),
    decreases s.len(),
{
    if k == s.len() {
        assert(s.subrange(0, k) =~= s);
    } else {
        let head = s.drop_last();
        assert(forall|i: int| 0 <= i < head.len() ==> head[i] == s[i]);
        lemma_digits_val_prefix(head, k);
        assert(head.subrange(0, k) =~= s.subrange(0, k));
        lemma_digits_val_nonneg(head);
        assert(is_digit_char(s.last()));
    }
}

/// Parses a base-10 signed integer exactly as `i64::from_str` does: an
/// optional `+` or `-` sign, then one or more ASCII digits, rejected when
/// anything else appears or the value does not fit in an `i64`.
pub fn parse_i64(s: &str) -> (r: Option<i64>)
    ensures
        r is Some <==> is_i64_literal(s@),
        r matches Some(v) ==> v == int_literal_val(s@),
{
    let n = s.unicode_len();
    if n == 0 {
        return None;
    }
    let first = s.get_char(0);
    let neg = first == '-';
    let has_sign = neg || first == '+';
    let start: usize = if has_sign {
        1
    } else {
        0
    };
    if start == n {
        // a bare sign has no digits
        return None;
    }
    let limit: u64 = if neg {
        9223372036854775808
    } else {
        9223372036854775807
    };
    let ghost digits = s@.subrange(start as int, n as int);
    proof {
        if !has_sign {
            assert(digits =~= s@);
        }
    }
    let mut acc: u64 = 0;
    let mut i: usize = start;
    while i < n
        invariant
            start <= i <= n,
            start < n,
            n == s@.len(),
            start == (if has_sign { 1int } else { 0int }),
            has_sign == (s@[0] == '+' || s@[0] == '-'),
            neg == (s@[0] == '-'),
            digits == s@.subrange(start as int, n as int),
            !has_sign ==> digits == s@,
            limit == (if neg { 9223372036854775808u64 } else { 9223372036854775807u64 }),
            all_digit_chars(digits.subrange(0, i - start)),
            acc == digits_val(digits.subrange(0, i - start)),
            acc <= limit,
        decreases n - i,
    {
        let c = s.get_char(i);
        let u = c as u32;
        if u < '0' as u32 || u > '9' as u32 {
            proof {
                assert(digits[i - start] == s@[i as int]);
                assert(!is_digit_char(digits[i - start]));
                assert(!all_digit_chars(digits));
                assert(!is_int_literal(s@));
            }
            return None;
        }
        let d: u64 = (u - '0' as u32) as u64;
        proof {
            assert(digits[i - start] == s@[i as int]);
            assert(is_digit_char(c));
            assert(d == digit_char_val(c));
            let pre = digits.subrange(0, i - start);
            let ext = digits.subrange(0, i + 1 - start);
            assert(ext.drop_last() =~= pre);
            assert(ext.last() == digits[i - start]);
            assert(digits_val(ext) == acc * 10 + d);
        }
        if acc > (limit - d) / 10 {
            proof {
                let ext = digits.subrange(0, i + 1 - start);
                assert(((limit - d) / 10) * 10 + (limit - d) % 10 == limit - d);
                assert(acc * 10 + d > limit);
                if is_int_literal(s@) {
                    assert(all_digit_chars(digits));
                    lemma_digits_val_prefix(digits, i + 1 - start);
                    assert(digits_val(digits) > limit);
                    if neg {
                        assert(int_literal_val(s@) == -digits_val(digits));
                        assert(int_literal_val(s@) < i64::MIN);
                    } else {
                        assert(int_literal_val(s@) == digits_val(digits));
                        assert(int_literal_val(s@) > i64::MAX);
                    }
                }
            }
            return None;
        }
        proof {
            assert(acc <= (limit - d) / 10);
            assert(acc * 10 <= ((limit - d) / 10) * 10);
            assert(((limit - d) / 10) * 10 + (limit - d) % 10 == limit - d);
            assert(acc * 10 + d <= limit);
        }
        acc = acc * 10 + d;
        i = i + 1;
    }
    proof {
        assert(digits.subrange(0, n - start) =~= digits);
        assert(all_digit_chars(digits));
        assert(acc == digits_val(digits));
        if has_sign {
            assert(s@.subrange(1, s@.len() as int) == digits);
        }
        assert(is_int_literal(s@));
        lemma_digits_val_nonneg(digits);
    }
    if neg {
        if acc == 9223372036854775808 {
            Some(i64::MIN)
        } else {
            Some(-(acc as i64))
        }
    } else {
        Some(acc as i64)
    }
}

} // verus!
