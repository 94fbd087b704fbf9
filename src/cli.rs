//! Mapping command-line words to a command.
use vstd::prelude::*;

use crate::BitcoinError;

verus! {

/// A command given on the command line.
pub enum CliCommand {
    /// Send `amount` satoshi to `address`.
    Send { amount: u64, address: String },
    /// Show the balance.
    Balance,
}

/// Whether every character of `s` is an ASCII decimal digit.
pub open spec fn all_ascii_digits(s: Seq<char>) -> bool {
    forall|i: int| 0 <= i < s.len() ==> '0' <= #[trigger] s[i] && s[i] <= '9'
}

/// The number that the decimal digits `s` spell, most significant first.
pub open spec fn decimal_value(s: Seq<char>) -> nat
    decreases s.len(),
{
    if s.len() == 0 {
        0
    } else {
        decimal_value(s.drop_last()) * 10 + (s.last() as nat - '0' as nat) as nat
    }
}

/// `s` without one leading `+`, if it has one.
pub open spec fn unsigned_digits(s: Seq<char>) -> Seq<char> {
    if s.len() > 0 && s[0] == '+' {
        s.drop_first()
    } else {
        s
    }
}

/// Whether `s` is the decimal text of a `u64`: an optional `+` and then one
/// or more ASCII digits whose value is at most `u64::MAX`.
pub open spec fn is_u64_text(s: Seq<char>) -> bool {
    let d = unsigned_digits(s);
    &&& d.len() > 0
    &&& all_ascii_digits(d)
    &&& decimal_value(d) <= u64::MAX
}

/// The value of the decimal text `s` of a `u64`.
pub open spec fn u64_text_value(s: Seq<char>) -> nat {
    decimal_value(unsigned_digits(s))
}

/// The message of the error that parsing `s` as a `u64` reports.
pub uninterp spec fn u64_parse_error_text(s: Seq<char>) -> Seq<char>;

/// Relies on `str::parse::<u64>` (`u64`'s `FromStr`), which accepts exactly an
/// optional `+` followed by ASCII digits whose value fits, and on
/// `ParseIntError`'s `to_string` for the message on failure.
#[verifier::external_body]
fn parse_u64(s: &str) -> (r: Result<u64, String>)
    ensures
        r is Ok <==> is_u64_text(s@),
        r matches Ok(n) ==> n == u64_text_value(s@),
        r matches Err(m) ==> m@ == u64_parse_error_text(s@),
{
    match s.parse::<u64>() {
        Ok(n) => Ok(n),
        Err(e) => Err(e.to_string()),
    }
}

/// The `send` command for `address`, from the outcome of parsing its amount:
/// the amount on success, or else the parse failure's message.
pub fn send_command(amount: Result<u64, String>, address: String) -> (r: Result<
    CliCommand,
    BitcoinError,
>)
    ensures
        amount matches Ok(n) ==> (r matches Ok(CliCommand::Send { amount: a, address: d })
            && a == n && d == address),
        amount matches Err(m) ==> (r matches Err(BitcoinError::ParseError(e)) && e == m),
{
    match amount {
        Ok(n) => Ok(CliCommand::Send { amount: n, address }),
        Err(m) => Err(BitcoinError::ParseError(m)),
    }
}

/// Whether `r` is a `ParseError` whose message is `msg`.
pub open spec fn is_parse_error(r: Result<CliCommand, BitcoinError>, msg: Seq<char>) -> bool {
    r matches Err(BitcoinError::ParseError(m)) && m@ == msg
}

/// Maps command-line words to a command. `send <amount> <address>` takes
/// exactly three words and a decimal `u64` amount; `balance` ignores any
/// words after it; anything else is a `ParseError`.
pub fn parse_cli_args(args: &[String]) -> (r: Result<CliCommand, BitcoinError>)
    ensures
        args@.len() == 0 ==> is_parse_error(r, "Missing command"@),
        args@.len() > 0 && args@[0]@ == "balance"@ ==> r matches Ok(CliCommand::Balance),
        args@.len() > 0 && args@[0]@ == "send"@ && args@.len() != 3 ==> is_parse_error(
            r,
            "Missing amount or address"@,
        ),
        args@.len() == 3 && args@[0]@ == "send"@ && is_u64_text(args@[1]@) ==> (r matches Ok(
            CliCommand::Send { amount, address },
        ) && amount == u64_text_value(args@[1]@) && address@ == args@[2]@),
        args@.len() == 3 && args@[0]@ == "send"@ && !is_u64_text(args@[1]@) ==> is_parse_error(
            r,
            u64_parse_error_text(args@[1]@),
        ),
        args@.len() > 0 && args@[0]@ != "send"@ && args@[0]@ != "balance"@ ==> is_parse_error(
            r,
            "Unknown command"@,
        ),
{
    if args.len() == 0 {
        return Err(BitcoinError::ParseError("Missing command".to_string()));
    }
    let command = &args[0];
    proof {
        reveal_strlit("send");
        reveal_strlit("balance");
        assert("send"@.len() != "balance"@.len());
    }
    if *command == "send".to_string() {
        if args.len() != 3 {
            return Err(BitcoinError::ParseError("Missing amount or address".to_string()));
        }
        let amount = parse_u64(args[1].as_str());
        send_command(amount, args[2].clone())
    } else if *command == "balance".to_string() {
        Ok(CliCommand::Balance)
    } else {
        Err(BitcoinError::ParseError("Unknown command".to_string()))
    }
}

} // verus!
