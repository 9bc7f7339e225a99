use vstd::prelude::*;
use vstd::string::StrSliceExecFns;

verus! {

pub open spec fn is_digit(c: char) -> bool {
    '0' <= c && c <= '9'
}

/// The number that the decimal digits `s` write.
pub open spec fn decimal_value(s: Seq<char>) -> int
    decreases s.len(),
{
    if s.len() == 0 {
        0
    } else {
        decimal_value(s.drop_last()) * 10 + (s.last() as int - '0' as int)
    }
}

/// The port a line of the engine's output announces: `PORT=` followed by
/// one or more decimal digits naming a port from 1 to 65535. Any other line
/// announces nothing.
pub open spec fn announced_port(line: Seq<char>) -> Option<u16> {
    let p = "PORT="@;
    if line.len() > p.len() && line.subrange(0, p.len() as int) == p {
        let digits = line.subrange(p.len() as int, line.len() as int);
        if (forall|i: int| 0 <= i < digits.len() ==> is_digit(#[trigger] digits[i]))
            && 1 <= decimal_value(digits) <= 65535 {
            Some(decimal_value(digits) as u16)
        } else {
            None
        }
    } else {
        None
    }
}

proof fn lemma_decimal_value_nonneg(s: Seq<char>)
    requires
        forall|i: int| 0 <= i < s.len() ==> is_digit(#[trigger] s[i]),
    ensures
        decimal_value(s) >= 0,
    decreases s.len(),
{
    if s.len() > 0 {
        lemma_decimal_value_nonneg(s.drop_last());
    }
}

/// Reads the port a line of the engine's output announces, if any.
pub fn parse_port_line(line: &str) -> (r: Option<u16>)
    ensures
        r == announced_port(line@),
{
    proof {
        reveal_strlit("PORT=");
    }
    let n = line.unicode_len();
    if n <= 5 {
        return None;
    }
    let mut i: usize = 0;
    while i < 5
        invariant
            n == line@.len(),
            n > 5,
            i <= 5,
            "PORT="@.len() == 5,
            forall|j: int| 0 <= j < i ==> line@[j] == "PORT="@[j],
        decreases 5 - i,
    {
        if line.get_char(i) != "PORT=".get_char(i) {
            assert(line@.subrange(0, 5)[i as int] != "PORT="@[i as int]);
            return None;
        }
        i = i + 1;
    }
    assert(line@.subrange(0, 5) =~= "PORT="@);
    let ghost digits = line@.subrange(5, n as int);
    let mut value: u32 = 0;
    let mut k: usize = 5;
    while k < n
        invariant
            n == line@.len(),
            5 <= k <= n,
            digits == line@.subrange(5, n as int),
            "PORT="@.len() == 5,
            line@.subrange(0, 5) == "PORT="@,
            forall|j: int| 0 <= j < k - 5 ==> is_digit(#[trigger] digits[j]),
            value as int == decimal_value(digits.subrange(0, k - 5)),
            value <= 65535,
        decreases n - k,
    {
        let c = line.get_char(k);
        if !('0' <= c && c <= '9') {
            assert(!is_digit(digits[k - 5]));
            return None;
        }
        let ghost prefix = digits.subrange(0, k - 5);
        assert(digits.subrange(0, k + 1 - 5).drop_last() =~= prefix);
        let d = (c as u32) - ('0' as u32);
        let next = value * 10 + d;
        if next > 65535 {
            proof {
                let rest = digits.subrange(0, k + 1 - 5);
                assert(decimal_value(rest) > 65535);
                lemma_prefix_grows(digits, k + 1 - 5, digits.len() as int);
                assert(digits.subrange(0, digits.len() as int) =~= digits);
            }
            return None;
        }
        value = next;
        k = k + 1;
    }
    assert(digits.subrange(0, k - 5) =~= digits);
    if value == 0 {
        return None;
    }
    Some(value as u16)
}

/// Once a digit prefix is past a bound, every longer prefix either is past
/// it too or holds a non-digit.
proof fn lemma_prefix_grows(s: Seq<char>, a: int, b: int)
    requires
        0 <= a <= b <= s.len(),
        decimal_value(s.subrange(0, a)) > 65535,
    ensures
        decimal_value(s.subrange(0, b)) > 65535 || exists|j: int| 0 <= j < b && !is_digit(s[j]),
    decreases b - a,
{
    if b > a {
        lemma_prefix_grows(s, a, b - 1);
        if decimal_value(s.subrange(0, b - 1)) > 65535 && is_digit(s[b - 1]) {
            assert(s.subrange(0, b).drop_last() =~= s.subrange(0, b - 1));
            assert(s.subrange(0, b).last() == s[b - 1]);
        } else if !(decimal_value(s.subrange(0, b - 1)) > 65535) {
            let j = choose|j: int| 0 <= j < b - 1 && !is_digit(s[j]);
            assert(0 <= j < b && !is_digit(s[j]));
        } else {
            assert(!is_digit(s[b - 1]));
        }
    }
}

} // verus!
