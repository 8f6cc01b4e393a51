//! The library's error type and the text it is reported with.
use vstd::prelude::*;
use crate::text::{decimal, push_decimal, push_str};

verus! {

/// Everything that can go wrong in the tool.
#[derive(Debug)]
pub enum Error {
    /// A usage error or another plain message.
    Msg(String),
    /// A listener could not be reached.
    Network(String),
    /// An input/output failure, described by the operating system.
    Io(String),
    /// The command's text holds a NUL byte at this byte position.
    Nul(usize),
    /// This text is not a valid unsigned number.
    ParseInt(String),
    /// The desktop notification service failed.
    Notify(String),
    /// A payload could not be encoded or decoded.
    Json(String),
    /// A step of the self-update failed.
    Upgrade(String),
}

/// The text an error is reported with.
pub open spec fn error_text(e: Error) -> Seq<char> {
    match e {
        Error::Msg(s) => s@,
        Error::Network(s) => "NetworkError: "@ + s@,
        Error::Io(s) => "IoError: "@ + s@,
        Error::Nul(p) => "NulError: nul byte found in provided data at position: "@ + decimal(p as nat),
        Error::ParseInt(s) => "ParseIntError: invalid number: "@ + s@,
        Error::Notify(s) => "NotifyError: "@ + s@,
        Error::Json(s) => "JsonError: "@ + s@,
        Error::Upgrade(s) => "UpgradeError: "@ + s@,
    }
}

impl Error {
    /// The text this error is reported with.
    pub fn message(&self) -> (r: String)
        ensures
            r@ == error_text(*self),
    {
        let mut out = String::new();
        match self {
            Error::Msg(s) => push_str(&mut out, s.as_str()),
            Error::Network(s) => {
                push_str(&mut out, "NetworkError: ");
                push_str(&mut out, s.as_str());
            },
            Error::Io(s) => {
                push_str(&mut out, "IoError: ");
                push_str(&mut out, s.as_str());
            },
            Error::Nul(p) => {
                push_str(&mut out, "NulError: nul byte found in provided data at position: ");
                push_decimal_usize(&mut out, *p);
            },
            Error::ParseInt(s) => {
                push_str(&mut out, "ParseIntError: invalid number: ");
                push_str(&mut out, s.as_str());
            },
            Error::Notify(s) => {
                push_str(&mut out, "NotifyError: ");
                push_str(&mut out, s.as_str());
            },
            Error::Json(s) => {
                push_str(&mut out, "JsonError: ");
                push_str(&mut out, s.as_str());
            },
            Error::Upgrade(s) => {
                push_str(&mut out, "UpgradeError: ");
                push_str(&mut out, s.as_str());
            },
        }
        proof {
            assert(out@ =~= error_text(*self));
        }
        out
    }
}

/// Appends the decimal text of a position to `s`.
fn push_decimal_usize(s: &mut String, n: usize)
    ensures
        final(s)@ == old(s)@ + decimal(n as nat),
    decreases n,
{
    if n >= 10 {
        push_decimal_usize(s, n / 10);
    }
    let d: u32 = (n % 10) as u32;
    let mut digit = String::new();
    push_decimal(&mut digit, d);
    push_str(s, digit.as_str());
    assert(final(s)@ =~= old(s)@ + decimal(n as nat));
}

} // verus!
