//! Dot-delimited address handling: splitting an address into its parts,
//! joining parts back together, and the naive IPv4 classifier.

use vstd::prelude::*;

verus! {

/// Splitting a character sequence on `'.'`, as `str::split('.')` does:
/// empty parts are kept, and an empty input yields one empty part.
pub open spec fn split_dots_spec(s: Seq<char>) -> Seq<Seq<char>>
    decreases s.len(),
{
    if s.len() == 0 {
        seq![Seq::<char>::empty()]
    } else {
        let rest = split_dots_spec(s.drop_last());
        if s.last() == '.' {
            rest.push(Seq::<char>::empty())
        } else {
            rest.update(rest.len() - 1, rest.last().push(s.last()))
        }
    }
}

/// Joining parts with `'.'` between them; the inverse of splitting.
pub open spec fn join_dots_spec(parts: Seq<Seq<char>>) -> Seq<char>
    decreases parts.len(),
{
    if parts.len() == 0 {
        Seq::empty()
    } else if parts.len() == 1 {
        parts[0]
    } else {
        join_dots_spec(parts.drop_last()) + seq!['.'] + parts.last()
    }
}

/// Splits an address into its dot-delimited parts.
pub fn split_dots(s: &str) -> (parts: Vec<String>)
    ensures
        parts.deep_view() == split_dots_spec(s@),
        parts@.len() >= 1,
{
    let n = s.unicode_len();
    let mut parts: Vec<String> = Vec::new();
    let mut start: usize = 0;
    let mut i: usize = 0;
    while i < n
        invariant
            n == s@.len(),
            start <= i <= n,
            parts.deep_view().push(s@.subrange(start as int, i as int)) =~~= split_dots_spec(
                s@.take(i as int),
            ),
        decreases n - i,
    {
        let ghost prefix = s@.take(i as int);
        let c = s.get_char(i);
        if c == '.' {
            let part = s.substring_char(start, i).to_owned();
            parts.push(part);
            start = i + 1;
        }
        proof {
            assert(s@.take(i + 1 as int).drop_last() =~= prefix);
            assert(parts.deep_view().push(s@.subrange(start as int, i + 1 as int))
                =~~= split_dots_spec(s@.take(i + 1 as int)));
        }
        i += 1;
    }
    let last = s.substring_char(start, n).to_owned();
    parts.push(last);
    proof {
        assert(s@.take(n as int) =~= s@);
        assert(parts.deep_view() =~~= split_dots_spec(s@));
    }
    parts
}

/// Joins `parts[from..to]` with dots.
pub fn join_range(parts: &Vec<String>, from: usize, to: usize) -> (r: String)
    requires
        from < to <= parts@.len(),
    ensures
        r@ == join_dots_spec(parts.deep_view().subrange(from as int, to as int)),
{
    let mut r = parts[from].clone();
    let mut j = from + 1;
    proof {
        assert(parts.deep_view().subrange(from as int, from + 1 as int) =~= seq![
            parts.deep_view()[from as int],
        ]);
    }
    while j < to
        invariant
            from < j <= to <= parts@.len(),
            r@ == join_dots_spec(parts.deep_view().subrange(from as int, j as int)),
        decreases to - j,
    {
        let ghost before = parts.deep_view().subrange(from as int, j as int);
        r.append(".");
        r.append(parts[j].as_str());
        proof {
            reveal_strlit(".");
            let after = parts.deep_view().subrange(from as int, j + 1 as int);
            assert(after.drop_last() =~= before);
            assert(after.len() >= 2);
            assert("."@ =~= seq!['.']);
            assert(r@ =~= join_dots_spec(after));
        }
        j += 1;
    }
    r
}

/// A decimal digit.
pub open spec fn is_digit_char(c: char) -> bool {
    '0' <= c <= '9'
}

/// The numeric value of a decimal digit character.
pub open spec fn digit_value(c: char) -> int {
    c as int - '0' as int
}

/// The value of a character sequence read as an unsigned decimal numeral.
pub open spec fn decimal_value(s: Seq<char>) -> int
    decreases s.len(),
{
    if s.len() == 0 {
        0
    } else {
        decimal_value(s.drop_last()) * 10 + digit_value(s.last())
    }
}

/// A part that reads as an unsigned 8-bit integer: nonempty, decimal digits
/// only (no sign), and value at most 255. Leading zeros are accepted.
pub open spec fn is_u8_octet(s: Seq<char>) -> bool {
    &&& s.len() > 0
    &&& (forall|i: int| 0 <= i < s.len() ==> is_digit_char(s[i]))
    &&& decimal_value(s) <= 255
}

fn is_u8_octet_exec(s: &str) -> (r: bool)
    ensures
        r == is_u8_octet(s@),
{
    let n = s.unicode_len();
    if n == 0 {
        return false;
    }
    // `value` tracks the numeral's value, capped just above the octet range
    // so that it never overflows whatever the input length.
    let mut value: u32 = 0;
    let mut i: usize = 0;
    while i < n
        invariant
            n == s@.len(),
            i <= n,
            forall|m: int| 0 <= m < i ==> is_digit_char(s@[m]),
            value <= 256,
            decimal_value(s@.take(i as int)) <= 255 ==> value == decimal_value(
                s@.take(i as int),
            ),
            decimal_value(s@.take(i as int)) > 255 ==> value > 255,
        decreases n - i,
    {
        let ghost prefix = s@.take(i as int);
        let c = s.get_char(i);
        if !('0' <= c && c <= '9') {
            return false;
        }
        let d = (c as u32) - ('0' as u32);
        value = if value > 255 {
            256
        } else if value * 10 + d > 255 {
            256
        } else {
            value * 10 + d
        };
        proof {
            assert(s@.take(i + 1 as int).drop_last() =~= prefix);
        }
        i += 1;
    }
    proof {
        assert(s@.take(n as int) =~= s@);
    }
    value <= 255
}

/// Whether the split parts of an address form an IPv4 literal: exactly four
/// parts, each an unsigned 8-bit decimal numeral. Deliberately naive: leading
/// zeros are accepted, so a four-label all-numeric hostname is treated as an
/// address.
pub open spec fn is_ipv4_spec(parts: Seq<Seq<char>>) -> bool {
    &&& parts.len() == 4
    &&& (forall|i: int| 0 <= i < parts.len() ==> is_u8_octet(parts[i]))
}

/// Tests whether an address, already split on `'.'`, is an IPv4 literal.
pub fn is_ipv4(ip: &[&str]) -> (r: bool)
    ensures
        r == is_ipv4_spec(ip.deep_view()),
{
    if ip.len() != 4 {
        return false;
    }
    let mut i: usize = 0;
    while i < 4
        invariant
            ip@.len() == 4,
            i <= 4,
            forall|m: int| 0 <= m < i ==> is_u8_octet(ip.deep_view()[m]),
        decreases 4 - i,
    {
        let part = ip[i];
        proof {
            assert(ip.deep_view()[i as int] == part@);
        }
        if !is_u8_octet_exec(part) {
            return false;
        }
        i += 1;
    }
    true
}

} // verus!
