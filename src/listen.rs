//! The listener's decisions: the address it binds, and what each received
//! payload leads to.
use vstd::prelude::*;
use crate::dispatch::{picked, pick_setting, DEFAULT_PORT_STR, PING};
use crate::error::Error;
use crate::note::{address, address_text, note_from_api, ApiNote, Note};
use crate::text::{parse_u32, same_text, u32_value};

verus! {

/// The host a public listener binds: every interface.
pub const PUBLIC_HOST: &'static str = "0.0.0.0";

/// The host a private listener binds: this machine only.
pub const LOCAL_HOST: &'static str = "127.0.0.1";

/// The host a listener binds.
pub open spec fn listen_host(public: bool) -> Seq<char> {
    if public {
        PUBLIC_HOST@
    } else {
        LOCAL_HOST@
    }
}

/// The address a listener binds: every interface when `public`, else this
/// machine only; the port is the flag's, else the environment's, else the
/// default, and must be a number.
pub fn listen_address(public: bool, port_flag: &Option<String>, port_env: &Option<String>) -> (r:
    Result<String, Error>)
    ensures
        match u32_value(picked(*port_flag, *port_env, DEFAULT_PORT_STR@)) {
            Some(p) => r matches Ok(a) && a@ == address_text(listen_host(public), p),
            None => r matches Err(Error::ParseInt(t)) && t@ == picked(
                *port_flag,
                *port_env,
                DEFAULT_PORT_STR@,
            ),
        },
{
    let host = if public {
        PUBLIC_HOST
    } else {
        LOCAL_HOST
    };
    let text = pick_setting(port_flag, port_env, DEFAULT_PORT_STR);
    match parse_u32(text.as_str()) {
        Some(p) => Ok(address(host, p)),
        None => Err(Error::ParseInt(text)),
    }
}

/// What a listener does with the whole payload of one connection, given
/// what decoding it as the JSON of an `ApiNote` gave: nothing for a liveness
/// probe (`Ok(None)`), whatever the decoding gave; else the notification
/// that was decoded, shown on this machine (`Ok(Some(..))`), or the decoding
/// error (`Err`). Either way the listener goes on to the next connection.
pub fn handle_payload(payload: &str, decoded: Result<ApiNote, String>) -> (r: Result<
    Option<Note>,
    Error,
>)
    ensures
        payload@ == PING@ ==> r matches Ok(None),
        payload@ != PING@ ==> match decoded {
            Ok(api) => r matches Ok(Some(note)) && note.title@ == api.title@ && note.msg@
                == api.msg@ && note.timeout == api.timeout && !note.send,
            Err(m) => r matches Err(Error::Json(e)) && e@ == m@,
        },
{
    if same_text(payload, PING) {
        return Ok(None);
    }
    match decoded {
        Ok(api) => Ok(Some(note_from_api(&api))),
        Err(m) => Err(Error::Json(m)),
    }
}

} // verus!
