//! The long-polling echo loop: which updates to ask for next, and the echo
//! of a text message.

use vstd::prelude::*;
use crate::methods::get_updates::GetUpdates;
use crate::model::{text_message, MessageView, OutgoingMessage};

verus! {

/// The `getUpdates` request of one round: ten updates at most, waiting ten
/// seconds at most, from `offset` on.
pub fn poll_request(offset: Option<u32>) -> (r: GetUpdates)
    ensures
        r.offset == offset,
        r.limit == Some(10u32),
        r.timeout == Some(10u32),
{
    GetUpdates { offset, limit: Some(10), timeout: Some(10) }
}

/// The offset after handling the update `update_id`: the next update.
pub fn offset_after(update_id: u32) -> (offset: Option<u32>)
    requires
        update_id < u32::MAX,
    ensures
        offset == Some((update_id + 1) as u32),
{
    Some(update_id + 1)
}

/// The echo of the text `text` received in `chat_id`.
pub open spec fn echo(chat_id: i64, text: Seq<char>) -> MessageView {
    text_message(chat_id, "Echo: "@ + text)
}

/// The reply that echoes `text` back to `chat_id`.
pub fn echo_reply(chat_id: i64, text: &str) -> (m: OutgoingMessage)
    ensures
        m.deep_view() == echo(chat_id, text@),
{
    let mut t = String::from_str("Echo: ");
    t.append(text);
    OutgoingMessage { chat_id, text: t, html: false, keyboard: None }
}

} // verus!
