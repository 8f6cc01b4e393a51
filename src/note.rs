//! Notifications: what is shown or sent, with its defaults, and how it is
//! delivered.
use vstd::prelude::*;
use crate::text::{decimal, push_char, push_decimal, push_str};

verus! {

/// Title of a notification that sets none.
pub const DEFAULT_TITLE: &'static str = "CLIN:";

/// Message of a notification that sets none.
pub const DEFAULT_MESSAGE: &'static str = "clin!";

/// Icon of a notification shown on this machine.
pub const DEFAULT_ICON: &'static str = "terminal";

/// Host of the listener that notifications are sent to by default.
pub const DEFAULT_HOST: &'static str = "127.0.0.1";

/// Port of the listener, sending and listening, by default.
pub const DEFAULT_PORT: u32 = 6445;

/// How long a notification stays, in milliseconds, by default.
pub const DEFAULT_TIMEOUT: u32 = 10000;

/// The part of a notification that travels to a listener: the host and port
/// are those of the connection and are not sent.
#[derive(Debug)]
pub struct ApiNote {
    pub title: String,
    pub msg: String,
    pub timeout: u32,
}

impl ApiNote {
    /// A note with this message and the default title and timeout.
    pub fn with_msg(msg: &str) -> (r: ApiNote)
        ensures
            r.title@ == DEFAULT_TITLE@,
            r.msg@ == msg@,
            r.timeout == DEFAULT_TIMEOUT,
    {
        ApiNote { title: DEFAULT_TITLE.to_owned(), msg: msg.to_owned(), timeout: DEFAULT_TIMEOUT }
    }

    /// The same note with this title.
    pub fn title(self, title: &str) -> (r: ApiNote)
        ensures
            r.title@ == title@,
            r.msg@ == self.msg@,
            r.timeout == self.timeout,
    {
        ApiNote { title: title.to_owned(), ..self }
    }

    /// The same note with this timeout, in milliseconds.
    pub fn timeout(self, millis: u32) -> (r: ApiNote)
        ensures
            r.title@ == self.title@,
            r.msg@ == self.msg@,
            r.timeout == millis,
    {
        ApiNote { timeout: millis, ..self }
    }
}

/// A notification: shown on this machine, or, when `send` is set, sent to
/// the listener at `host`:`port`.
#[derive(Debug)]
pub struct Note {
    pub title: String,
    pub msg: String,
    pub timeout: u32,
    pub send: bool,
    pub host: String,
    pub port: u32,
}

/// How a notification reaches its reader.
#[derive(Debug)]
pub enum Delivery {
    /// Shown by this machine's notification service.
    Show { icon: String, summary: String, body: String, timeout: u32 },
    /// Sent to the listener at `address`: `note`, written as JSON, is the
    /// whole payload of one connection.
    Send { address: String, note: ApiNote },
}

/// `host:port`, the address of a listener.
pub open spec fn address_text(host: Seq<char>, port: u32) -> Seq<char> {
    host + seq![':'] + decimal(port as nat)
}

/// The address `host:port`.
pub fn address(host: &str, port: u32) -> (r: String)
    ensures
        r@ == address_text(host@, port),
{
    let mut s = String::new();
    push_str(&mut s, host);
    push_char(&mut s, ':');
    push_decimal(&mut s, port);
    proof {
        assert(s@ =~= address_text(host@, port));
    }
    s
}

impl Note {
    /// A notification with this message and the defaults: default title and
    /// timeout, shown on this machine, default host and port.
    pub fn with_msg(msg: &str) -> (r: Note)
        ensures
            r.title@ == DEFAULT_TITLE@,
            r.msg@ == msg@,
            r.timeout == DEFAULT_TIMEOUT,
            !r.send,
            r.host@ == DEFAULT_HOST@,
            r.port == DEFAULT_PORT,
    {
        Note {
            title: DEFAULT_TITLE.to_owned(),
            msg: msg.to_owned(),
            timeout: DEFAULT_TIMEOUT,
            send: false,
            host: DEFAULT_HOST.to_owned(),
            port: DEFAULT_PORT,
        }
    }

    /// The same notification with this message.
    pub fn msg(self, msg: &str) -> (r: Note)
        ensures
            r.title@ == self.title@,
            r.msg@ == msg@,
            r.timeout == self.timeout,
            r.send == self.send,
            r.host@ == self.host@,
            r.port == self.port,
    {
        Note { msg: msg.to_owned(), ..self }
    }

    /// The same notification with this title.
    pub fn title(self, title: &str) -> (r: Note)
        ensures
            r.title@ == title@,
            r.msg@ == self.msg@,
            r.timeout == self.timeout,
            r.send == self.send,
            r.host@ == self.host@,
            r.port == self.port,
    {
        Note { title: title.to_owned(), ..self }
    }

    /// The same notification with this timeout, in milliseconds.
    pub fn timeout(self, millis: u32) -> (r: Note)
        ensures
            r.title@ == self.title@,
            r.msg@ == self.msg@,
            r.timeout == millis,
            r.send == self.send,
            r.host@ == self.host@,
            r.port == self.port,
    {
        Note { timeout: millis, ..self }
    }

    /// The same notification, sent to a listener or not.
    pub fn send(self, send: bool) -> (r: Note)
        ensures
            r.title@ == self.title@,
            r.msg@ == self.msg@,
            r.timeout == self.timeout,
            r.send == send,
            r.host@ == self.host@,
            r.port == self.port,
    {
        Note { send, ..self }
    }

    /// The same notification with this listener host.
    pub fn host(self, host: &str) -> (r: Note)
        ensures
            r.title@ == self.title@,
            r.msg@ == self.msg@,
            r.timeout == self.timeout,
            r.send == self.send,
            r.host@ == host@,
            r.port == self.port,
    {
        Note { host: host.to_owned(), ..self }
    }

    /// The same notification with this listener port.
    pub fn port(self, port: u32) -> (r: Note)
        ensures
            r.title@ == self.title@,
            r.msg@ == self.msg@,
            r.timeout == self.timeout,
            r.send == self.send,
            r.host@ == self.host@,
            r.port == port,
    {
        Note { port, ..self }
    }

    /// The part of this notification that is sent to a listener.
    pub fn api_note(&self) -> (r: ApiNote)
        ensures
            r.title@ == self.title@,
            r.msg@ == self.msg@,
            r.timeout == self.timeout,
    {
        ApiNote::with_msg(self.msg.as_str()).title(self.title.as_str()).timeout(self.timeout)
    }

    /// How this notification is delivered: exactly one of shown here, with
    /// the default icon, or sent to its listener.
    pub fn delivery(&self) -> (r: Delivery)
        ensures
            !self.send ==> (r matches Delivery::Show { icon, summary, body, timeout }
                && icon@ == DEFAULT_ICON@ && summary@ == self.title@ && body@ == self.msg@
                && timeout == self.timeout),
            self.send ==> (r matches Delivery::Send { address, note }
                && address@ == address_text(self.host@, self.port)
                && note.title@ == self.title@ && note.msg@ == self.msg@
                && note.timeout == self.timeout),
    {
        if self.send {
            Delivery::Send { address: address(self.host.as_str(), self.port), note: self.api_note() }
        } else {
            Delivery::Show {
                icon: DEFAULT_ICON.to_owned(),
                summary: self.title.clone(),
                body: self.msg.clone(),
                timeout: self.timeout,
            }
        }
    }
}

/// A notification shown on this machine for a note that a listener received.
pub fn note_from_api(api: &ApiNote) -> (r: Note)
    ensures
        r.title@ == api.title@,
        r.msg@ == api.msg@,
        r.timeout == api.timeout,
        !r.send,
        r.host@ == DEFAULT_HOST@,
        r.port == DEFAULT_PORT,
{
    Note::with_msg(api.msg.as_str()).title(api.title.as_str()).timeout(api.timeout)
}

} // verus!
