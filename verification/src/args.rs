//! The positional command-line convention: `program [port] [directory]`.
//!
//! When the first argument reads as an unsigned 16-bit decimal number it
//! is the port and the second argument, if any, is the directory;
//! otherwise the first argument is the directory and the port keeps its
//! default of 8000. With no arguments both default (directory `.`).

use vstd::prelude::*;

verus! {

/// A decimal digit.
pub open spec fn is_digit(c: char) -> bool {
    '0' <= c && c <= '9'
}

/// The numeric value of a decimal digit.
pub open spec fn digit_value(c: char) -> int {
    c as int - '0' as int
}

/// Every character of `s` is a decimal digit.
pub open spec fn all_digits(s: Seq<char>) -> bool {
    forall|i: int| 0 <= i < s.len() ==> is_digit(s[i])
}

/// The number a digit string denotes, most significant digit first.
pub open spec fn dec_value(s: Seq<char>) -> int
    decreases s.len(),
{
    if s.len() == 0 {
        0
    } else {
        dec_value(s.drop_last()) * 10 + digit_value(s.last())
    }
}

/// How an unsigned 16-bit number reads from a string: an optional
/// leading `+`, then at least one decimal digit, denoting a value of at
/// most 65535; anything else does not read as a port.
pub open spec fn spec_parse_u16(s: Seq<char>) -> Option<u16> {
    let digits = if s.len() > 0 && s[0] == '+' {
        s.subrange(1, s.len() as int)
    } else {
        s
    };
    if digits.len() == 0 || !all_digits(digits) {
        None
    } else if dec_value(digits) > u16::MAX {
        None
    } else {
        Some(dec_value(digits) as u16)
    }
}

/// Read a string of decimal digits as a number, answering `None` on a
/// non-digit, an empty string, or a value over 65535.
fn parse_digits(s: &str, from: usize) -> (r: Option<u16>)
    requires
        from <= s@.len(),
    ensures
        ({
            let digits = s@.subrange(from as int, s@.len() as int);
            r == if digits.len() == 0 || !all_digits(digits) {
                None::<u16>
            } else if dec_value(digits) > u16::MAX {
                None::<u16>
            } else {
                Some(dec_value(digits) as u16)
            }
        }),
{
    let n = s.unicode_len();
    if from == n {
        assert(s@.subrange(from as int, s@.len() as int).len() == 0);
        return None;
    }
    let mut value: u32 = 0;
    let mut i: usize = from;
    while i < n
        invariant
            from <= i <= n,
            n == s@.len(),
            all_digits(s@.subrange(from as int, i as int)),
            value == dec_value(s@.subrange(from as int, i as int)),
            value <= u16::MAX,
        decreases n - i,
    {
        let c = s.get_char(i);
        if !('0' <= c && c <= '9') {
            proof {
                let digits = s@.subrange(from as int, s@.len() as int);
                assert(digits[i - from] == s@[i as int]);
                assert(!all_digits(digits));
            }
            return None;
        }
        let d: u32 = c as u32 - '0' as u32;
        let next: u32 = value * 10 + d;
        proof {
            assert(s@.subrange(from as int, i + 1) == s@.subrange(from as int, i as int).push(
                s@[i as int],
            ));
            assert(s@.subrange(from as int, i + 1).drop_last() == s@.subrange(
                from as int,
                i as int,
            ));
        }
        if next > 65535 {
            proof {
                let digits = s@.subrange(from as int, s@.len() as int);
                if all_digits(digits) {
                    lemma_dec_value_grows(digits, i + 1 - from);
                    assert(digits.subrange(0, i + 1 - from) =~= s@.subrange(from as int, i + 1));
                }
            }
            return None;
        }
        value = next;
        i = i + 1;
    }
    proof {
        assert(s@.subrange(from as int, i as int) == s@.subrange(from as int, s@.len() as int));
    }
    Some(value as u16)
}

/// A digit string denotes at least as much as any of its prefixes: the
/// value never shrinks as digits are appended.
proof fn lemma_dec_value_grows(s: Seq<char>, k: int)
    requires
        0 <= k <= s.len(),
        all_digits(s),
    ensures
        dec_value(s) >= dec_value(s.subrange(0, k)),
        dec_value(s) >= 0,
    decreases s.len(),
{
    if s.len() == 0 {
    } else {
        lemma_dec_value_grows(s.drop_last(), if k < s.len() { k } else { k - 1 });
        if k < s.len() {
            assert(s.drop_last().subrange(0, k) == s.subrange(0, k));
        } else {
            assert(s.subrange(0, k) == s);
        }
    }
}

/// Read a string as a port number exactly as an unsigned 16-bit decimal
/// parse would: optional `+`, digits, value at most 65535.
pub fn parse_port(s: &str) -> (r: Option<u16>)
    ensures
        r == spec_parse_u16(s@),
{
    let n = s.unicode_len();
    if n > 0 && s.get_char(0) == '+' {
        parse_digits(s, 1)
    } else {
        proof {
            assert(s@.subrange(0, s@.len() as int) == s@);
        }
        parse_digits(s, 0)
    }
}

/// The port and directory the argument list selects: see the module
/// description. `args[0]` is the program name and never read.
pub open spec fn spec_parsed_arguments(args: Seq<Seq<char>>) -> (u16, Seq<char>) {
    if args.len() <= 1 {
        (8000u16, "."@)
    } else if spec_parse_u16(args[1]) is Some {
        (
            spec_parse_u16(args[1])->0,
            if args.len() > 2 {
                args[2]
            } else {
                "."@
            },
        )
    } else {
        (8000u16, args[1])
    }
}

/// Pick the port and the directory from the command line.
pub fn parse_arguments(args: &Vec<String>) -> (r: (u16, String))
    ensures
        r.0 == spec_parsed_arguments(args.deep_view()).0,
        r.1@ == spec_parsed_arguments(args.deep_view()).1,
{
    if args.len() <= 1 {
        return (8000, String::from_str("."));
    }
    let first_arg: &String = &args[1];
    match parse_port(first_arg.as_str()) {
        Some(port) => {
            let dir = if args.len() > 2 {
                args[2].clone()
            } else {
                String::from_str(".")
            };
            (port, dir)
        },
        None => (8000, first_arg.clone()),
    }
}

} // verus!
