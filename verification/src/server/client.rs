//! How a client reads the server's responses.
//!
//! Each client call sends one request and expects one kind of response; an
//! `Error` response hands back its message, and any other response is
//! reported as unexpected.

use vstd::prelude::*;
use vstd::string::*;

use super::{
    dispatch_spec, reply_spec, AppCommand, AppReply, Dispatch, Request, Response, ResponseView,
};
use crate::screenshot::{encode_screenshot_spec, unit_or_text, SCREENSHOT_JPEG_QUALITY};

verus! {

/// The message for a response of the wrong kind.
pub open spec fn unexpected() -> Seq<char> {
    "Unexpected response"@
}

/// The text of a `dump` or `dump_json` call.
pub open spec fn layout_reply_spec(r: ResponseView) -> Result<Seq<char>, Seq<char>> {
    match r {
        ResponseView::Layout(s) => Ok(s),
        ResponseView::Error(e) => Err(e),
        _ => Err(unexpected()),
    }
}

/// The outcome of an `input`, `click`, `submit` or `key_press` call.
pub open spec fn ack_reply_spec(r: ResponseView) -> Result<(), Seq<char>> {
    match r {
        ResponseView::Success => Ok(()),
        ResponseView::Error(e) => Err(e),
        _ => Err(unexpected()),
    }
}

/// The outcome of a `ping` call: only `Pong` counts, and an `Error`
/// response is reported as unexpected too.
pub open spec fn pong_reply_spec(r: ResponseView) -> Result<(), Seq<char>> {
    match r {
        ResponseView::Pong => Ok(()),
        _ => Err(unexpected()),
    }
}

/// The base64 JPEG text of a `screenshot` call.
pub open spec fn screenshot_reply_spec(r: ResponseView) -> Result<Seq<char>, Seq<char>> {
    match r {
        ResponseView::Screenshot(s) => Ok(s),
        ResponseView::Error(e) => Err(e),
        _ => Err(unexpected()),
    }
}

pub open spec fn text_or_error(r: Result<String, String>) -> Result<Seq<char>, Seq<char>> {
    match r {
        Ok(s) => Ok(s@),
        Err(e) => Err(e@),
    }
}

/// Read the answer to a layout dump (text or JSON).
pub fn layout_reply(resp: Response) -> (r: Result<String, String>)
    ensures
        text_or_error(r) == layout_reply_spec(resp@),
{
    match resp {
        Response::Layout(s) => Ok(s),
        Response::Error(e) => Err(e),
        _ => Err(String::from_str("Unexpected response")),
    }
}

/// Read the answer to an input, click, submit or key press.
pub fn ack_reply(resp: Response) -> (r: Result<(), String>)
    ensures
        unit_or_text(r) == ack_reply_spec(resp@),
{
    match resp {
        Response::Success => Ok(()),
        Response::Error(e) => Err(e),
        _ => Err(String::from_str("Unexpected response")),
    }
}

/// Read the answer to a ping.
pub fn pong_reply(resp: Response) -> (r: Result<(), String>)
    ensures
        unit_or_text(r) == pong_reply_spec(resp@),
{
    match resp {
        Response::Pong => Ok(()),
        _ => Err(String::from_str("Unexpected response")),
    }
}

/// Read the answer to a screenshot request.
pub fn screenshot_reply(resp: Response) -> (r: Result<String, String>)
    ensures
        text_or_error(r) == screenshot_reply_spec(resp@),
{
    match resp {
        Response::Screenshot(s) => Ok(s),
        Response::Error(e) => Err(e),
        _ => Err(String::from_str("Unexpected response")),
    }
}

/// What a client reads is what the application answered: the layout text
/// of a dump, the outcome of an action, the encoded screenshot; a closed
/// application reads as "App closed" and a missing answer as "Timeout".
pub proof fn lemma_client_reads_application_answer(reply: AppReply)
    ensures
        reply matches AppReply::Layout(s) ==> layout_reply_spec(reply_spec(reply)) == Ok::<
            Seq<char>,
            Seq<char>,
        >(s@),
        reply matches AppReply::Outcome(o) ==> ack_reply_spec(reply_spec(reply)) == unit_or_text(o),
        reply matches AppReply::Screenshot(Ok(d)) ==> screenshot_reply_spec(reply_spec(reply))
            == encode_screenshot_spec(d.width, d.height, d.pixels@, SCREENSHOT_JPEG_QUALITY),
        reply matches AppReply::Screenshot(Err(e)) ==> screenshot_reply_spec(reply_spec(reply))
            == Err::<Seq<char>, Seq<char>>(e@),
        reply is Undelivered ==> layout_reply_spec(reply_spec(reply)) == Err::<Seq<char>, Seq<char>>(
            "App closed"@,
        ) && ack_reply_spec(reply_spec(reply)) == Err::<(), Seq<char>>("App closed"@)
            && screenshot_reply_spec(reply_spec(reply)) == Err::<Seq<char>, Seq<char>>("App closed"@),
        reply is NoAnswer ==> layout_reply_spec(reply_spec(reply)) == Err::<Seq<char>, Seq<char>>(
            "Timeout"@,
        ) && ack_reply_spec(reply_spec(reply)) == Err::<(), Seq<char>>("Timeout"@)
            && screenshot_reply_spec(reply_spec(reply)) == Err::<Seq<char>, Seq<char>>("Timeout"@),
{
}

/// A ping is answered by the server itself, and the client reads the answer
/// as success.
pub proof fn lemma_ping_answered_by_server()
    ensures
        dispatch_spec(Request::Ping) == Dispatch::Reply(Response::Pong),
        pong_reply_spec(Response::Pong@) == Ok::<(), Seq<char>>(()),
{
}

/// Every other request reaches the application as the command of the same
/// kind, carrying the request's fields.
pub proof fn lemma_requests_forwarded(req: Request)
    requires
        req !is Ping,
    ensures
        dispatch_spec(req) matches Dispatch::Forward(cmd, _) && match req {
            Request::Dump => cmd == AppCommand::Dump,
            Request::DumpJson => cmd == AppCommand::DumpJson,
            Request::Screenshot => cmd == AppCommand::Screenshot,
            Request::Submit => cmd == AppCommand::Submit,
            Request::Input { field, value } => cmd == AppCommand::Input { field, value },
            Request::Click { label } => cmd == AppCommand::Click { label },
            Request::KeyPress { key } => cmd == AppCommand::KeyPress { key },
            Request::Ping => false,
        },
{
}

} // verus!
