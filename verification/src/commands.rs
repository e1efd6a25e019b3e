//! What the click notifier sends, where to, and what it logs.

use crate::constants::NVIM_LISTENER_PORT;
use crate::latex::option_view;
use crate::text::{
    decimal, is_digit, lemma_decimal_digits, lemma_decimal_injective, push_decimal,
};
use vstd::prelude::*;
use vstd::string::*;

verus! {

/// The one line sent for a click on `line_number`.
pub open spec fn line_payload_text(line_number: u32) -> Seq<char> {
    "{\"line\": "@ + decimal(line_number as nat) + "}\n"@
}

/// The address of `port` on the loopback host.
pub open spec fn local_address_text(port: u16) -> Seq<char> {
    "127.0.0.1:"@ + decimal(port as nat)
}

/// Builds the line to send for a click on `line_number`.
pub fn line_payload(line_number: u32) -> (r: String)
    ensures
        r@ == line_payload_text(line_number),
{
    let mut payload = String::from_str("{\"line\": ");
    push_decimal(&mut payload, line_number);
    payload.append("}\n");
    payload
}

/// Builds the address of `port` on the loopback host.
pub fn local_address(port: u16) -> (r: String)
    ensures
        r@ == local_address_text(port),
{
    let mut address = String::from_str("127.0.0.1:");
    push_decimal(&mut address, port as u32);
    address
}

/// The address on which the editor listens for clicks.
pub fn listener_address() -> (r: String)
    ensures
        r@ == local_address_text(NVIM_LISTENER_PORT),
{
    local_address(NVIM_LISTENER_PORT)
}

/// How sending a notification went.
#[derive(Debug, PartialEq, Eq)]
pub enum NotifyOutcome {
    /// The line was written.
    Sent,
    /// No connection could be made; holds the system's message.
    ConnectFailed(String),
    /// The connection was made and the write failed; holds the system's
    /// message.
    WriteFailed(String),
}

/// The line to log for an outcome: none after a success.
pub open spec fn outcome_diagnostic(outcome: NotifyOutcome) -> Option<Seq<char>> {
    match outcome {
        NotifyOutcome::Sent => None,
        NotifyOutcome::ConnectFailed(reason) => Some("Could not connect to listener: "@ + reason@),
        NotifyOutcome::WriteFailed(reason) => Some("Failed to send to line number: "@ + reason@),
    }
}

/// The line to log after a notification. Every failure gets one and none is
/// handed on to the caller.
pub fn notify_diagnostic(outcome: &NotifyOutcome) -> (r: Option<String>)
    ensures
        option_view(r) == outcome_diagnostic(*outcome),
        r is None <==> *outcome is Sent,
{
    match outcome {
        NotifyOutcome::Sent => None,
        NotifyOutcome::ConnectFailed(reason) => {
            let mut line = String::from_str("Could not connect to listener: ");
            line.append(reason.as_str());
            Some(line)
        },
        NotifyOutcome::WriteFailed(reason) => {
            let mut line = String::from_str("Failed to send to line number: ");
            line.append(reason.as_str());
            Some(line)
        },
    }
}

/// The payload is one line: it ends with a line feed and holds no other.
pub proof fn lemma_line_payload_single_line(line_number: u32)
    ensures
        line_payload_text(line_number).len() >= 12,
        line_payload_text(line_number).last() == '\n',
        forall|i: int|
            0 <= i < line_payload_text(line_number).len() - 1 ==> #[trigger] line_payload_text(
                line_number,
            )[i] != '\n',
{
    reveal_strlit("{\"line\": ");
    reveal_strlit("}\n");
    let digits = decimal(line_number as nat);
    let payload = line_payload_text(line_number);
    lemma_decimal_digits(line_number as nat);
    assert forall|i: int| 0 <= i < payload.len() - 1 implies #[trigger] payload[i] != '\n' by {
        if 9 <= i < 9 + digits.len() {
            assert(payload[i] == digits[i - 9]);
            assert(is_digit(digits[i - 9]));
        }
    }
}

/// The payload tells the line: two clicks with one payload are on one line.
pub proof fn lemma_line_payload_tells_line(first: u32, second: u32)
    requires
        line_payload_text(first) == line_payload_text(second),
    ensures
        first == second,
{
    let head = "{\"line\": "@;
    let tail = "}\n"@;
    let a = decimal(first as nat);
    let b = decimal(second as nat);
    assert((head + a + tail).len() == head.len() + a.len() + tail.len());
    assert((head + b + tail).len() == head.len() + b.len() + tail.len());
    let at = head.len() as int;
    assert(a =~= (head + a + tail).subrange(at, at + a.len()));
    assert(b =~= (head + b + tail).subrange(at, at + b.len()));
    lemma_decimal_injective(first as nat, second as nat);
}

} // verus!
