//! Addressing an NTFS file by its argument: a name in the current directory,
//! or `/<decimal>` and `/0x<hex>` for a file record number.
use crate::error::GcookieError;
use vstd::prelude::*;

verus! {

/// The value of one digit in a radix, if the character is a digit there.
pub open spec fn digit_of(c: char, radix: nat) -> Option<nat> {
    let u = c as u32;
    let v: nat = if 48 <= u <= 57 {
        (u - 48) as nat
    } else if 97 <= u <= 122 {
        (u - 97 + 10) as nat
    } else if 65 <= u <= 90 {
        (u - 65 + 10) as nat
    } else {
        36
    };
    if v < radix {
        Some(v)
    } else {
        None
    }
}

/// The number that a string of digits spells, if every character is a digit.
pub open spec fn digits_value(s: Seq<char>, radix: nat) -> Option<nat>
    decreases s.len(),
{
    if s.len() == 0 {
        Some(0)
    } else {
        match (digits_value(s.drop_last(), radix), digit_of(s.last(), radix)) {
            (Some(v), Some(d)) => Some(v * radix + d),
            _ => None,
        }
    }
}

/// The unsigned number that a text spells as `u64::from_str_radix` reads
/// it: an optional `+`, then at least one digit.
pub open spec fn unsigned_value(s: Seq<char>, radix: nat) -> Option<nat> {
    let body = if s.len() > 0 && s[0] == '+' {
        s.drop_first()
    } else {
        s
    };
    if body.len() == 0 {
        None
    } else {
        digits_value(body, radix)
    }
}

/// `unsigned_value`, where it fits in 64 bits.
pub open spec fn u64_value(s: Seq<char>, radix: nat) -> Option<u64> {
    match unsigned_value(s, radix) {
        Some(n) => if n <= u64::MAX {
            Some(n as u64)
        } else {
            None
        },
        None => None,
    }
}

/// How a file is named on the command line.
#[derive(Debug, Clone, PartialEq, Eq)]
pub enum FileArg {
    /// By file record number.
    Record(u64),
    /// By name, in the current directory.
    Name(String),
}

/// The record number that the text after `/` names: hexadecimal after
/// `0x`, else decimal.
pub open spec fn record_number_of(rest: Seq<char>) -> Option<u64> {
    if rest.len() >= 2 && rest[0] == '0' && rest[1] == 'x' {
        u64_value(rest.subrange(2, rest.len() as int), 16)
    } else {
        u64_value(rest, 10)
    }
}

proof fn lemma_digits_prefix(s: Seq<char>, radix: nat, i: int)
    requires
        0 <= i <= s.len(),
        radix >= 1,
        digits_value(s, radix) is Some,
    ensures
        digits_value(s.subrange(0, i), radix) is Some,
        digits_value(s.subrange(0, i), radix)->Some_0 <= digits_value(s, radix)->Some_0,
    decreases s.len(),
{
    if i == s.len() {
        assert(s.subrange(0, i) =~= s);
    } else {
        let v = digits_value(s.drop_last(), radix)->Some_0;
        let d = digit_of(s.last(), radix)->Some_0;
        lemma_digits_prefix(s.drop_last(), radix, i);
        assert(s.drop_last().subrange(0, i) =~= s.subrange(0, i));
        assert(v <= v * radix + d) by (nonlinear_arith)
            requires
                radix >= 1,
        ;
    }
}

/// The digit value of a character, as `char::to_digit` gives it.
fn digit(c: char, radix: u32) -> (r: Option<u32>)
    requires
        2 <= radix <= 36,
    ensures
        match digit_of(c, radix as nat) {
            Some(v) => r == Some(v as u32),
            None => r is None,
        },
{
    let u = c as u32;
    let v: u32 = if 48 <= u && u <= 57 {
        u - 48
    } else if 97 <= u && u <= 122 {
        u - 97 + 10
    } else if 65 <= u && u <= 90 {
        u - 65 + 10
    } else {
        36
    };
    if v < radix {
        Some(v)
    } else {
        None
    }
}

/// Reads the characters of `s` from `from` on as an unsigned number in
/// `radix`, as `u64::from_str_radix` does.
pub fn parse_u64(s: &str, from: usize, radix: u32) -> (r: Option<u64>)
    requires
        from <= s@.len(),
        2 <= radix <= 36,
    ensures
        r == u64_value(s@.subrange(from as int, s@.len() as int), radix as nat),
{
    let ghost text = s@.subrange(from as int, s@.len() as int);
    let n = s.unicode_len();
    let mut start = from;
    if start < n && s.get_char(start) == '+' {
        start = start + 1;
    }
    let ghost body = s@.subrange(start as int, n as int);
    assert(body =~= (if text.len() > 0 && text[0] == '+' {
        text.drop_first()
    } else {
        text
    }));
    if start == n {
        return None;
    }
    let mut acc: u64 = 0;
    let mut i = start;
    while i < n
        invariant
            n == s@.len(),
            from <= n,
            text == s@.subrange(from as int, n as int),
            start <= i <= n,
            body == s@.subrange(start as int, n as int),
            body.len() > 0,
            body == (if text.len() > 0 && text[0] == '+' {
                text.drop_first()
            } else {
                text
            }),
            2 <= radix <= 36,
            digits_value(body.subrange(0, i - start), radix as nat) == Some(acc as nat),
        decreases n - i,
    {
        let c = s.get_char(i);
        let ghost prefix = body.subrange(0, i + 1 - start);
        assert(prefix.drop_last() =~= body.subrange(0, i - start));
        assert(prefix.last() == c);
        let d = match digit(c, radix) {
            Some(d) => d,
            None => {
                proof {
                    assert(digits_value(prefix, radix as nat) is None);
                    if digits_value(body, radix as nat) is Some {
                        lemma_digits_prefix(body, radix as nat, i + 1 - start);
                    }
                }
                return None;
            },
        };
        let limit: u64 = (u64::MAX - d as u64) / radix as u64;
        if acc > limit {
            proof {
                assert(acc * radix + d > u64::MAX) by (nonlinear_arith)
                    requires
                        acc > limit,
                        limit == (u64::MAX - d) / radix as int,
                        radix >= 2,
                        d < 36,
                ;
                assert(digits_value(prefix, radix as nat) == Some((acc * radix + d) as nat));
                if digits_value(body, radix as nat) is Some {
                    lemma_digits_prefix(body, radix as nat, i + 1 - start);
                }
            }
            return None;
        }
        proof {
            assert(acc * radix + d <= u64::MAX) by (nonlinear_arith)
                requires
                    acc <= limit,
                    limit == (u64::MAX - d) / radix as int,
                    radix >= 2,
                    d < 36,
            ;
        }
        acc = acc * radix as u64 + d as u64;
        i = i + 1;
    }
    assert(body.subrange(0, n - start) =~= body);
    Some(acc)
}

/// Reads a file argument. `/` followed by a number addresses a file record
/// (hexadecimal after `0x`, else decimal); anything else is a name. An
/// empty argument, or a `/` not followed by a number, is rejected.
pub fn parse_file_arg(arg: &str) -> (r: Result<FileArg, GcookieError>)
    ensures
        arg@.len() == 0 ==> r == Err::<FileArg, GcookieError>(GcookieError::PathResolutionFailed),
        arg@.len() > 0 && arg@[0] == '/' ==> match record_number_of(arg@.drop_first()) {
            Some(n) => r == Ok::<FileArg, GcookieError>(FileArg::Record(n)),
            None => r == Err::<FileArg, GcookieError>(GcookieError::PathResolutionFailed),
        },
        arg@.len() > 0 && arg@[0] != '/' ==> (r matches Ok(FileArg::Name(name)) && name@ == arg@),
{
    let n = arg.unicode_len();
    if n == 0 {
        return Err(GcookieError::PathResolutionFailed);
    }
    if arg.get_char(0) != '/' {
        return Ok(FileArg::Name(arg.to_owned()));
    }
    let ghost rest = arg@.drop_first();
    let parsed = if n >= 3 && arg.get_char(1) == '0' && arg.get_char(2) == 'x' {
        assert(arg@.subrange(3, n as int) =~= rest.subrange(2, rest.len() as int));
        parse_u64(arg, 3, 16)
    } else {
        assert(arg@.subrange(1, n as int) =~= rest);
        parse_u64(arg, 1, 10)
    };
    match parsed {
        Some(v) => Ok(FileArg::Record(v)),
        None => Err(GcookieError::PathResolutionFailed),
    }
}

} // verus!
