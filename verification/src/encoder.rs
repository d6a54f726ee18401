//! Command encoder: the text of each outbound frame.
//!
//! Every outbound frame is a JSON object whose members are strings. The
//! `*_frame_text` functions say which members each frame has; the executable
//! functions build exactly that object and render it.

use vstd::prelude::*;
use crate::json::{insert_text, new_object, object_to_text, rendered, text_value};

verus! {

/// Seconds between two keepalive frames.
pub const KEEPALIVE_SECONDS: u64 = 60;

/// The object without members.
pub open spec fn no_fields() -> Map<Seq<char>, serde_json::Value> {
    Map::empty()
}

/// `{cmd: "join", channel, nick}`.
pub open spec fn join_frame_text(channel: Seq<char>, nick: Seq<char>) -> Seq<char> {
    rendered(
        no_fields().insert("cmd"@, text_value("join"@)).insert(
            "channel"@,
            text_value(channel),
        ).insert("nick"@, text_value(nick)),
    )
}

/// `{cmd: "chat", text}`.
pub open spec fn chat_frame_text(text: Seq<char>) -> Seq<char> {
    rendered(no_fields().insert("cmd"@, text_value("chat"@)).insert("text"@, text_value(text)))
}

/// `{cmd: "whisper", nick: target, text}`.
pub open spec fn whisper_frame_text(target: Seq<char>, text: Seq<char>) -> Seq<char> {
    rendered(
        no_fields().insert("cmd"@, text_value("whisper"@)).insert(
            "nick"@,
            text_value(target),
        ).insert("text"@, text_value(text)),
    )
}

/// `{cmd: "move", channel}`.
pub open spec fn move_frame_text(channel: Seq<char>) -> Seq<char> {
    rendered(
        no_fields().insert("cmd"@, text_value("move"@)).insert("channel"@, text_value(channel)),
    )
}

/// `{cmd: "changenick", nick}`.
pub open spec fn changenick_frame_text(nick: Seq<char>) -> Seq<char> {
    rendered(
        no_fields().insert("cmd"@, text_value("changenick"@)).insert("nick"@, text_value(nick)),
    )
}

/// `{cmd: "ping"}`.
pub open spec fn ping_frame_text() -> Seq<char> {
    rendered(no_fields().insert("cmd"@, text_value("ping"@)))
}

/// The handshake frame that announces `nick` in `channel`.
pub fn join_frame(channel: &str, nick: &str) -> (frame: String)
    ensures
        frame@ == join_frame_text(channel@, nick@),
{
    let mut object = new_object();
    insert_text(&mut object, "cmd", "join");
    insert_text(&mut object, "channel", channel);
    insert_text(&mut object, "nick", nick);
    object_to_text(object)
}

/// The frame that says `text` to the channel.
pub fn chat_frame(text: &str) -> (frame: String)
    ensures
        frame@ == chat_frame_text(text@),
{
    let mut object = new_object();
    insert_text(&mut object, "cmd", "chat");
    insert_text(&mut object, "text", text);
    object_to_text(object)
}

/// The frame that says `text` to `target` alone.
pub fn whisper_frame(target: &str, text: &str) -> (frame: String)
    ensures
        frame@ == whisper_frame_text(target@, text@),
{
    let mut object = new_object();
    insert_text(&mut object, "cmd", "whisper");
    insert_text(&mut object, "nick", target);
    insert_text(&mut object, "text", text);
    object_to_text(object)
}

/// The frame that moves the client to `channel`.
pub fn move_frame(channel: &str) -> (frame: String)
    ensures
        frame@ == move_frame_text(channel@),
{
    let mut object = new_object();
    insert_text(&mut object, "cmd", "move");
    insert_text(&mut object, "channel", channel);
    object_to_text(object)
}

/// The frame that renames the client to `nick`.
pub fn changenick_frame(nick: &str) -> (frame: String)
    ensures
        frame@ == changenick_frame_text(nick@),
{
    let mut object = new_object();
    insert_text(&mut object, "cmd", "changenick");
    insert_text(&mut object, "nick", nick);
    object_to_text(object)
}

/// The keepalive frame.
pub fn ping_frame() -> (frame: String)
    ensures
        frame@ == ping_frame_text(),
{
    let mut object = new_object();
    insert_text(&mut object, "cmd", "ping");
    object_to_text(object)
}

} // verus!
