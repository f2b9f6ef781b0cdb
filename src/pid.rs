use vstd::prelude::*;

verus! {

/// std's `ParseIntError`, the error of integer parsing, carried through as it
/// is.
#[verifier::external_type_specification]
#[verifier::external_body]
pub struct ExParseIntError(std::num::ParseIntError);

/// The value of `c` as a digit (`0`-`9`, then `a`-`z` or `A`-`Z` for 10 to
/// 35), or -1 when it is none.
pub open spec fn digit_value(c: char) -> int {
    if '0' <= c && c <= '9' {
        c as int - '0' as int
    } else if 'a' <= c && c <= 'z' {
        c as int - 'a' as int + 10
    } else if 'A' <= c && c <= 'Z' {
        c as int - 'A' as int + 10
    } else {
        -1
    }
}

/// Every character of `cs` is a digit of `radix`.
pub open spec fn all_digits(cs: Seq<char>, radix: int) -> bool {
    forall|i: int| 0 <= i < cs.len() ==> 0 <= #[trigger] digit_value(cs[i]) < radix
}

/// The number that the digits `cs` write in `radix`.
pub open spec fn digits_value(cs: Seq<char>, radix: int) -> int
    decreases cs.len(),
{
    if cs.len() == 0 {
        0
    } else {
        digits_value(cs.drop_last(), radix) * radix + digit_value(cs.last())
    }
}

/// An unsigned number as text: an optional `+`, then one or more digits
/// of `radix`, whose value must fit in a `u32`.
pub open spec fn parse_u32_spec(s: Seq<char>, radix: int) -> Option<u32> {
    let digits = if s.len() > 0 && s[0] == '+' {
        s.drop_first()
    } else {
        s
    };
    if digits.len() > 0 && all_digits(digits, radix) && digits_value(digits, radix)
        <= u32::MAX {
        Some(digits_value(digits, radix) as u32)
    } else {
        None
    }
}

/// `s` begins with `prefix`.
pub open spec fn has_prefix(s: Seq<char>, prefix: Seq<char>) -> bool {
    prefix.len() <= s.len() && s.subrange(0, prefix.len() as int) == prefix
}

/// `s` with every leading repetition of a non-empty `prefix` removed.
pub open spec fn trim_prefixes(s: Seq<char>, prefix: Seq<char>) -> Seq<char>
    decreases s.len(),
{
    if prefix.len() > 0 && has_prefix(s, prefix) {
        trim_prefixes(s.subrange(prefix.len() as int, s.len() as int), prefix)
    } else {
        s
    }
}

/// A process id as text: hexadecimal after one or more leading `0x`,
/// decimal otherwise.
pub open spec fn pid_spec(s: Seq<char>) -> Option<u32> {
    if has_prefix(s, seq!['0', 'x']) {
        parse_u32_spec(trim_prefixes(s, seq!['0', 'x']), 16)
    } else {
        parse_u32_spec(s, 10)
    }
}

/// Relies on `str::starts_with` with a string pattern.
#[verifier::external_body]
fn str_starts_with(s: &str, prefix: &str) -> (r: bool)
    ensures
        r == has_prefix(s@, prefix@),
{
    s.starts_with(prefix)
}

/// Relies on `str::trim_start_matches` with a string pattern: all leading
/// matches of the pattern removed, repeatedly.
#[verifier::external_body]
fn str_trim_start_matches<'a>(s: &'a str, prefix: &str) -> (r: &'a str)
    ensures
        r@ == trim_prefixes(s@, prefix@),
{
    s.trim_start_matches(prefix)
}

/// Relies on `u32::from_str_radix`, which panics on a radix outside 2..=36.
#[verifier::external_body]
fn u32_from_str_radix(s: &str, radix: u32) -> (r: Result<u32, std::num::ParseIntError>)
    requires
        2 <= radix <= 36,
    ensures
        match r {
            Ok(v) => parse_u32_spec(s@, radix as int) == Some(v),
            Err(_) => parse_u32_spec(s@, radix as int) is None,
        },
{
    u32::from_str_radix(s, radix)
}

/// Relies on `str::parse::<u32>`, which reads decimal as `from_str_radix`
/// does.
#[verifier::external_body]
fn str_parse_u32(s: &str) -> (r: Result<u32, std::num::ParseIntError>)
    ensures
        match r {
            Ok(v) => parse_u32_spec(s@, 10) == Some(v),
            Err(_) => parse_u32_spec(s@, 10) is None,
        },
{
    s.parse::<u32>()
}

/// Reads a process id: hexadecimal after a `0x` prefix, decimal otherwise.
pub fn parse_pid(value: &str) -> (r: Result<u32, std::num::ParseIntError>)
    ensures
        match r {
            Ok(v) => pid_spec(value@) == Some(v),
            Err(_) => pid_spec(value@) is None,
        },
{
    let prefix = "0x";
    proof {
        reveal_strlit("0x");
        assert(prefix@ =~= seq!['0', 'x']);
    }
    if str_starts_with(value, prefix) {
        u32_from_str_radix(str_trim_start_matches(value, prefix), 16)
    } else {
        str_parse_u32(value)
    }
}

} // verus!
