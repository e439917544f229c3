//! Delivery status of a message and the parsing of client-supplied status text.
use vstd::prelude::*;

verus! {

/// The delivery status of a stored message.
#[derive(Clone, Copy, Debug, PartialEq, Eq, Structural)]
pub enum MessageStatus {
    Sent,
    Delivered,
    Read,
    Failed,
}

/// What `str::trim` returns for a string.
pub uninterp spec fn trim_of(s: Seq<char>) -> Seq<char>;

/// What `str::to_uppercase` returns for a string.
pub uninterp spec fn upper_of(s: Seq<char>) -> Seq<char>;

/// Relies on `str::trim`: leading and trailing whitespace removed, a
/// result that depends on the characters alone.
#[verifier::external_body]
fn trimmed(s: &str) -> (r: &str)
    ensures
        r@ == trim_of(s@),
{
    s.trim()
}

/// Relies on `str::to_uppercase`: the Unicode upper-case mapping, a result
/// that depends on the characters alone.
#[verifier::external_body]
fn uppercased(s: &str) -> (r: String)
    ensures
        r@ == upper_of(s@),
{
    s.to_uppercase()
}

impl MessageStatus {
    /// The canonical wire text of the status.
    pub open spec fn text(self) -> Seq<char> {
        match self {
            MessageStatus::Sent => "SENT"@,
            MessageStatus::Delivered => "DELIVERED"@,
            MessageStatus::Read => "READ"@,
            MessageStatus::Failed => "FAILED"@,
        }
    }

    pub fn as_string(&self) -> (r: String)
        ensures
            r@ == self.text(),
    {
        match self {
            MessageStatus::Sent => "SENT".to_owned(),
            MessageStatus::Delivered => "DELIVERED".to_owned(),
            MessageStatus::Read => "READ".to_owned(),
            MessageStatus::Failed => "FAILED".to_owned(),
        }
    }
}

/// The status whose canonical text is exactly `t`, if any.
pub open spec fn status_of_text(t: Seq<char>) -> Option<MessageStatus> {
    if t == "SENT"@ {
        Some(MessageStatus::Sent)
    } else if t == "DELIVERED"@ {
        Some(MessageStatus::Delivered)
    } else if t == "READ"@ {
        Some(MessageStatus::Read)
    } else if t == "FAILED"@ {
        Some(MessageStatus::Failed)
    } else {
        None
    }
}

/// The status requested by a client: surrounding whitespace is ignored and
/// letters are compared in upper case.
pub open spec fn requested_status(s: Seq<char>) -> Option<MessageStatus> {
    status_of_text(upper_of(trim_of(s)))
}

/// Two strings with the same characters.
pub fn same_text(a: &str, b: &str) -> (r: bool)
    ensures
        r == (a@ == b@),
{
    let x = a.to_owned();
    let y = b.to_owned();
    x == y
}

/// The status whose canonical text is exactly `t`.
pub fn status_from_text(t: &str) -> (r: Option<MessageStatus>)
    ensures
        r == status_of_text(t@),
{
    if same_text(t, "SENT") {
        Some(MessageStatus::Sent)
    } else if same_text(t, "DELIVERED") {
        Some(MessageStatus::Delivered)
    } else if same_text(t, "READ") {
        Some(MessageStatus::Read)
    } else if same_text(t, "FAILED") {
        Some(MessageStatus::Failed)
    } else {
        None
    }
}

/// Parses a client-supplied status: trimmed, upper-cased, then matched
/// against the four canonical names.
pub fn parse_status(s: &str) -> (r: Option<MessageStatus>)
    ensures
        r == requested_status(s@),
{
    let t = trimmed(s);
    let u = uppercased(t);
    status_from_text(u.as_str())
}

} // verus!
