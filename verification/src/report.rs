//! The message shown when the overlay gives up: where the fault was raised
//! and why.

use vstd::prelude::*;
use vstd::string::StringExecFns;

verus! {

/// The character of a decimal digit.
pub open spec fn digit(d: nat) -> char {
    (0x30 + d) as char
}

/// A number in decimal, without leading zeros.
pub open spec fn decimal(n: nat) -> Seq<char>
    decreases n,
{
    if n < 10 {
        seq![digit(n)]
    } else {
        decimal(n / 10).push(digit(n % 10))
    }
}

/// The message for a fault raised at `location`, a file and a line, for
/// `reason`. A fault without a known reason is reported as `Unknown`.
pub open spec fn panic_text(location: Option<(Seq<char>, nat)>, reason: Option<Seq<char>>) -> Seq<char> {
    let cause = match reason {
        Some(text) => text,
        None => "Unknown"@,
    };
    match location {
        Some((file, line)) => "A panic occurred at "@ + file + ":"@ + decimal(line) + "\nReason: "@ + cause,
        None => "A panic occurred\nReason: "@ + cause,
    }
}

/// Appends `n` in decimal.
fn push_decimal(out: &mut String, n: u32)
    ensures
        final(out)@ == old(out)@ + decimal(n as nat),
    decreases n,
{
    if n >= 10 {
        push_decimal(out, n / 10);
    }
    let last: u32 = n % 10;
    match char::from_u32(0x30 + last) {
        Some(c) => {
            proof {
                vstd::utf8::char_u32_cast(c, (0x30 + last) as u32);
                assert(c == digit(last as nat));
                if n >= 10 {
                    assert(old(out)@ + decimal((n / 10) as nat).push(c) =~= (old(out)@ + decimal(
                        (n / 10) as nat,
                    )).push(c));
                } else {
                    assert(old(out)@ + seq![c] =~= old(out)@.push(c));
                }
            }
            out.push(c);
        },
        None => {},
    }
}

/// Builds the message for a fault raised at `location`, a file and a line,
/// for `reason`.
pub fn panic_message(location: Option<(&str, u32)>, reason: Option<&str>) -> (message: String)
    ensures
        message@ == panic_text(
            match location {
                Some((file, line)) => Some((file@, line as nat)),
                None => None,
            },
            match reason {
                Some(text) => Some(text@),
                None => None,
            },
        ),
{
    let cause = match reason {
        Some(text) => text,
        None => "Unknown",
    };
    let mut message = String::new();
    match location {
        Some((file, line)) => {
            message.append("A panic occurred at ");
            message.append(file);
            message.append(":");
            push_decimal(&mut message, line);
            message.append("\nReason: ");
            message.append(cause);
            assert(message@ =~= "A panic occurred at "@ + file@ + ":"@ + decimal(line as nat) + "\nReason: "@
                + cause@);
        },
        None => {
            message.append("A panic occurred\nReason: ");
            message.append(cause);
            assert(message@ =~= "A panic occurred\nReason: "@ + cause@);
        },
    }
    message
}

} // verus!
