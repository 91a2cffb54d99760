//! Per-connection logic: how one connection task reacts to each transport or
//! parser event, and how results are encoded into response payloads. The
//! surrounding task owns the socket and the framing; everything it decides is
//! here.

use vstd::prelude::*;

use crate::commands::Command;
use crate::db::{spec_exec_err, spec_exec_ok, spec_exec_state, DB};
use crate::errors::Error;
use vstd::utf8::encode_utf8;

verus! {

/// Leading byte of a successful response: '+'.
pub const SUCCESS_MARKER: u8 = 43;

/// Leading byte of a failed response: '!'.
pub const FAILURE_MARKER: u8 = 33;

/// A success response: the success marker, then the payload bytes verbatim.
pub fn encode_success(payload: &Vec<u8>) -> (r: Vec<u8>)
    ensures
        r@ == seq![SUCCESS_MARKER] + payload@,
{
    let mut out: Vec<u8> = Vec::new();
    out.push(SUCCESS_MARKER);
    let mut i: usize = 0;
    while i < payload.len()
        invariant
            i <= payload@.len(),
            out@ == seq![SUCCESS_MARKER] + payload@.subrange(0, i as int),
        decreases payload@.len() - i,
    {
        out.push(payload[i]);
        proof {
            assert(out@ =~= seq![SUCCESS_MARKER] + payload@.subrange(0, i + 1));
        }
        i += 1;
    }
    proof {
        assert(payload@.subrange(0, payload@.len() as int) =~= payload@);
    }
    out
}

/// A failure response: the failure marker, then the UTF-8 text of `msg`.
pub fn encode_error(msg: &str) -> (r: Vec<u8>)
    ensures
        r@ == seq![FAILURE_MARKER] + encode_utf8(msg@),
{
    let bytes = msg.as_bytes();
    let mut out: Vec<u8> = Vec::new();
    out.push(FAILURE_MARKER);
    let mut i: usize = 0;
    while i < bytes.len()
        invariant
            i <= bytes@.len(),
            bytes@ == encode_utf8(msg@),
            out@ == seq![FAILURE_MARKER] + bytes@.subrange(0, i as int),
        decreases bytes@.len() - i,
    {
        out.push(bytes[i]);
        proof {
            assert(out@ =~= seq![FAILURE_MARKER] + bytes@.subrange(0, i + 1));
        }
        i += 1;
    }
    proof {
        assert(bytes@.subrange(0, bytes@.len() as int) =~= bytes@);
    }
    out
}

/// Encode a command's outcome: success marker plus payload, or failure
/// marker plus the error's text. Parser errors and execution errors share
/// this encoding; the client tells them apart only by content.
pub fn format_response(res: Result<Vec<u8>, Error>) -> (r: Vec<u8>)
    ensures
        match res {
            Ok(payload) => r@ == seq![SUCCESS_MARKER] + payload@,
            Err(e) => r@ == seq![FAILURE_MARKER] + encode_utf8(e.spec_message()),
        },
{
    match res {
        Ok(payload) => encode_success(&payload),
        Err(e) => encode_error(e.message()),
    }
}

/// Per-connection lifecycle: reading frames, or done.
pub enum ConnState {
    Open,
    Closed,
}

/// One event observed by a connection task.
pub enum ConnEvent {
    /// A full frame arrived and was handed to the parser; this carries the
    /// parser's outcome: a typed command, or the parse error's text.
    Received(Result<Command, String>),
    /// The transport failed while reading a frame.
    ReadError,
    /// The peer ended the stream.
    EndOfStream,
    /// The transport failed while sending a response.
    WriteError,
}

/// What the connection task must do next.
pub enum ConnAction {
    Respond(Vec<u8>),
    Nothing,
}

/// Advance one connection by one event.
///
/// A read failure or the end of the stream closes the connection; a write
/// failure does not (the peer is likely just going away), and this asymmetry
/// is deliberate. A frame the parser rejected is answered with a failure
/// response without touching the database. A parsed command is executed and
/// its outcome encoded; either way the connection stays open.
pub fn conn_step(db: &mut DB, event: ConnEvent) -> (r: (ConnState, ConnAction))
    requires
        old(db).wf(),
    ensures
        final(db).wf(),
        match event {
            ConnEvent::Received(outcome) => {
                &&& r.0 is Open
                &&& match outcome {
                    Ok(cmd) => {
                        &&& exists|t: usize| final(db)@ == spec_exec_state(old(db)@, cmd@, t)
                        &&& (!spec_exec_ok(old(db)@, cmd@) ==> final(db)@ == old(db)@)
                        &&& (r.1 matches ConnAction::Respond(out) && out@ == (
                            if spec_exec_ok(old(db)@, cmd@) {
                                seq![SUCCESS_MARKER]
                            } else {
                                seq![FAILURE_MARKER] + encode_utf8(
                                    spec_exec_err(cmd@).spec_message(),
                                )
                            }
                        ))
                    },
                    Err(msg) => {
                        &&& final(db)@ == old(db)@
                        &&& (r.1 matches ConnAction::Respond(out) && out@ == seq![FAILURE_MARKER]
                            + encode_utf8(msg@))
                    },
                }
            },
            ConnEvent::ReadError => r.0 is Closed && r.1 is Nothing && final(db)@ == old(db)@,
            ConnEvent::EndOfStream => r.0 is Closed && r.1 is Nothing && final(db)@ == old(db)@,
            ConnEvent::WriteError => r.0 is Open && r.1 is Nothing && final(db)@ == old(db)@,
        },
{
    match event {
        ConnEvent::Received(outcome) => {
            match outcome {
                Ok(cmd) => {
                    let res = db.exec(cmd);
                    let out = format_response(res);
                    proof {
                        if res is Ok {
                            assert(out@ =~= seq![SUCCESS_MARKER]);
                        }
                    }
                    (ConnState::Open, ConnAction::Respond(out))
                },
                Err(msg) => {
                    let out = encode_error(msg.as_str());
                    (ConnState::Open, ConnAction::Respond(out))
                },
            }
        },
        ConnEvent::ReadError => (ConnState::Closed, ConnAction::Nothing),
        ConnEvent::EndOfStream => (ConnState::Closed, ConnAction::Nothing),
        ConnEvent::WriteError => (ConnState::Open, ConnAction::Nothing),
    }
}

} // verus!
