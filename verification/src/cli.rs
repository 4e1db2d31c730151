//! The command-line argument splitter: an ordered sequence of string
//! tokens becomes either a `send` command with an amount and an address,
//! or a `balance` command.

use crate::errors::BitcoinError;
use vstd::arithmetic::div_mod::lemma_fundamental_div_mod;
use vstd::prelude::*;
use vstd::string::StrSliceExecFns;
use vstd::string::StringExecFns;

verus! {

/// The two commands the splitter recognizes.
pub enum CliCommand {
    /// `send <amount> <address>`: a decimal unsigned 64-bit amount and an
    /// opaque address string, passed through verbatim.
    Send { amount: u64, address: String },
    /// `balance`, with no arguments.
    Balance,
}

/// Whether `c` is one of the ten decimal digit characters.
pub open spec fn is_dec_digit(c: char) -> bool {
    '0' as u32 <= c as u32 <= '9' as u32
}

/// The numeric value of a decimal digit character.
pub open spec fn dec_digit_value(c: char) -> int {
    c as u32 - '0' as u32
}

/// Whether every character of `s` is a decimal digit.
pub open spec fn all_dec_digits(s: Seq<char>) -> bool {
    forall|i: int| 0 <= i < s.len() ==> is_dec_digit(#[trigger] s[i])
}

/// The value of `s` read as a decimal numeral, most significant digit
/// first.
pub open spec fn dec_value(s: Seq<char>) -> int
    decreases s.len(),
{
    if s.len() == 0 {
        0
    } else {
        dec_value(s.drop_last()) * 10 + dec_digit_value(s.last())
    }
}

/// Whether `s` is a decimal numeral whose value fits in an unsigned
/// 64-bit integer: non-empty, all digits, value at most `u64::MAX`.
pub open spec fn is_u64_decimal(s: Seq<char>) -> bool {
    &&& s.len() > 0
    &&& all_dec_digits(s)
    &&& dec_value(s) <= u64::MAX as int
}

/// A string of decimal digits has a non-negative value.
proof fn lemma_dec_value_nonneg(s: Seq<char>)
    requires
        all_dec_digits(s),
    ensures
        dec_value(s) >= 0,
    decreases s.len(),
{
    if s.len() > 0 {
        assert(forall|i: int| 0 <= i < s.drop_last().len() ==> is_dec_digit(
            #[trigger] s.drop_last()[i],
        ));
        lemma_dec_value_nonneg(s.drop_last());
    }
}

/// Extending a digit string to the right never lowers its value: the
/// value of any prefix is at most the value of the whole.
proof fn lemma_dec_value_prefix_le(s: Seq<char>, i: int)
    requires
        all_dec_digits(s),
        0 <= i <= s.len(),
    ensures
        dec_value(s.subrange(0, i)) <= dec_value(s),
    decreases s.len() - i,
{
    if i == s.len() {
        assert(s.subrange(0, i) =~= s);
    } else {
        let a = s.subrange(0, i);
        let b = s.subrange(0, i + 1);
        assert(b.drop_last() =~= a);
        assert(forall|k: int| 0 <= k < a.len() ==> is_dec_digit(#[trigger] a[k]));
        lemma_dec_value_nonneg(a);
        assert(dec_value(b) == dec_value(a) * 10 + dec_digit_value(s[i]));
        lemma_dec_value_prefix_le(s, i + 1);
    }
}

/// Reads a decimal unsigned 64-bit integer from `s`: the digits only, no
/// sign, no surrounding space. Returns `None` exactly when `s` is not
/// such a numeral (empty, a non-digit character, or a value past
/// `u64::MAX`).
pub fn parse_u64_decimal(s: &str) -> (r: Option<u64>)
    ensures
        r matches Some(v) ==> is_u64_decimal(s@) && v as int == dec_value(s@),
        r is None ==> !is_u64_decimal(s@),
{
    let n = s.unicode_len();
    if n == 0 {
        return None;
    }
    let mut val: u64 = 0;
    let mut i: usize = 0;
    while i < n
        invariant
            i <= n,
            n == s@.len(),
            forall|k: int| 0 <= k < i ==> is_dec_digit(#[trigger] s@[k]),
            val as int == dec_value(s@.subrange(0, i as int)),
        decreases n - i,
    {
        let c = s.get_char(i);
        let cv = c as u32;
        if cv < 0x30 || cv > 0x39 {
            assert(!is_dec_digit(s@[i as int]));
            return None;
        }
        let d = (cv - 0x30) as u64;
        proof {
            assert(s@.subrange(0, i + 1).drop_last() =~= s@.subrange(0, i as int));
            assert(s@.subrange(0, i + 1).last() == s@[i as int]);
            lemma_fundamental_div_mod((u64::MAX - d) as int, 10);
        }
        if val > (u64::MAX - d) / 10 {
            proof {
                let full = s@.subrange(0, i + 1);
                assert(dec_value(full) == val as int * 10 + d);
                assert(val as int * 10 + d > u64::MAX as int);
                if all_dec_digits(s@) {
                    lemma_dec_value_prefix_le(s@, i + 1);
                }
            }
            return None;
        }
        val = val * 10 + d;
        i = i + 1;
    }
    proof {
        assert(s@.subrange(0, n as int) =~= s@);
    }
    Some(val)
}

/// Splits an argument vector into a [`CliCommand`].
///
/// An empty vector, a `send` with fewer than two following tokens, and an
/// unrecognized first token each fail with a descriptive
/// [`BitcoinError::ParseError`]; a `send` amount that is not a decimal
/// unsigned 64-bit numeral fails with [`BitcoinError::InvalidAmount`].
/// The address token is not validated.
pub fn parse_cli_args(args: &[String]) -> (r: Result<CliCommand, BitcoinError>)
    ensures
        args@.len() == 0 ==> (r matches Err(e) && e matches BitcoinError::ParseError(m) && m@
            == "No command provided"@),
        args@.len() > 0 && args@[0]@ == "send"@ && args@.len() < 3 ==> (r matches Err(e)
            && e matches BitcoinError::ParseError(m) && m@
            == "Send command requires amount and address"@),
        args@.len() >= 3 && args@[0]@ == "send"@ && is_u64_decimal(args@[1]@) ==> (r matches Ok(c)
            && c matches CliCommand::Send { amount, address } && amount as int == dec_value(
            args@[1]@,
        ) && address@ == args@[2]@),
        args@.len() >= 3 && args@[0]@ == "send"@ && !is_u64_decimal(args@[1]@) ==> (r matches Err(
            e,
        ) && e is InvalidAmount),
        args@.len() > 0 && args@[0]@ == "balance"@ ==> (r matches Ok(c) && c is Balance),
        args@.len() > 0 && args@[0]@ != "send"@ && args@[0]@ != "balance"@ ==> (r matches Err(e)
            && e matches BitcoinError::ParseError(m) && m@ == "Unknown command: "@ + args@[0]@),
{
    proof {
        reveal_strlit("send");
        reveal_strlit("balance");
        assert("send"@.len() != "balance"@.len());
        assert("send"@ != "balance"@);
    }
    if args.len() == 0 {
        return Err(BitcoinError::ParseError("No command provided".to_owned()));
    }

    let first = &args[0];
    if *first == String::from_str("send") {
        if args.len() < 3 {
            return Err(
                BitcoinError::ParseError("Send command requires amount and address".to_owned()),
            );
        }
        let amount = match parse_u64_decimal(args[1].as_str()) {
            Some(v) => v,
            None => {
                return Err(BitcoinError::InvalidAmount);
            },
        };
        let address = args[2].clone();
        Ok(CliCommand::Send { amount, address })
    } else if *first == String::from_str("balance") {
        Ok(CliCommand::Balance)
    } else {
        Err(BitcoinError::ParseError("Unknown command: ".to_owned().concat(first.as_str())))
    }
}

} // verus!
