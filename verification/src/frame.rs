//! Inbound frames: what the dispatcher reads of one received JSON object.

use vstd::prelude::*;
use crate::json::{
    object_fields,
    object_get,
    parse_object,
    parsed_object,
    value_as_list,
    value_as_text,
    value_items,
    value_text,
};
use crate::roster::strings;

verus! {

/// Why an inbound frame could not be dispatched.
#[derive(Clone, Copy, Debug, PartialEq, Eq, Structural)]
pub enum FrameError {
    /// The text could not be read as one JSON object.
    InvalidJson,
    /// The frame's command was recognised, but a member that the command
    /// requires is absent or has the wrong type.
    MissingField,
}

/// One inbound frame. A member that is absent, or that is not a string, is
/// `None`; `nicks` is `Some` only for an array whose elements are all
/// strings. `raw` is the frame's text as it was received.
#[derive(Debug, PartialEq, Eq)]
pub struct Frame {
    /// The member `cmd`: the command tag.
    pub cmd: Option<String>,
    /// The member `nick`: who spoke, arrived or left.
    pub nick: Option<String>,
    /// The member `text`: what was said.
    pub text: Option<String>,
    /// The member `from`: who whispered.
    pub from: Option<String>,
    /// The member `type`: what an `info` frame is about.
    pub kind: Option<String>,
    /// The member `nicks`: everybody who is present.
    pub nicks: Option<Vec<String>>,
    /// The whole frame, as received.
    pub raw: String,
}

/// The mathematical value of a `Frame`.
pub struct FrameView {
    pub cmd: Option<Seq<char>>,
    pub nick: Option<Seq<char>>,
    pub text: Option<Seq<char>>,
    pub from: Option<Seq<char>>,
    pub kind: Option<Seq<char>>,
    pub nicks: Option<Seq<Seq<char>>>,
    pub raw: Seq<char>,
}

/// The characters of an optional string.
pub open spec fn text_of(member: Option<String>) -> Option<Seq<char>> {
    match member {
        Some(s) => Some(s@),
        None => None,
    }
}

/// The names of an optional list of strings.
pub open spec fn names_of(member: Option<Vec<String>>) -> Option<Seq<Seq<char>>> {
    match member {
        Some(list) => Some(strings(list@)),
        None => None,
    }
}

impl View for Frame {
    type V = FrameView;

    open spec fn view(&self) -> FrameView {
        FrameView {
            cmd: text_of(self.cmd),
            nick: text_of(self.nick),
            text: text_of(self.text),
            from: text_of(self.from),
            kind: text_of(self.kind),
            nicks: names_of(self.nicks),
            raw: self.raw@,
        }
    }
}

/// The string under `key`, where the object has a string there.
pub open spec fn field_text(fields: Map<Seq<char>, serde_json::Value>, key: Seq<char>) -> Option<
    Seq<char>,
> {
    if fields.contains_key(key) {
        value_text(fields[key])
    } else {
        None
    }
}

/// Every element is a JSON string.
pub open spec fn all_text(items: Seq<serde_json::Value>) -> bool {
    forall|i: int| 0 <= i < items.len() ==> value_text(#[trigger] items[i]).is_some()
}

/// The strings of a list of JSON strings, in order.
pub open spec fn item_texts(items: Seq<serde_json::Value>) -> Seq<Seq<char>> {
    Seq::new(items.len(), |i: int| value_text(items[i]).unwrap())
}

/// The list of strings under `key`, where the object has an array of strings
/// there.
pub open spec fn field_names(fields: Map<Seq<char>, serde_json::Value>, key: Seq<char>) -> Option<
    Seq<Seq<char>>,
> {
    if fields.contains_key(key) {
        match value_items(fields[key]) {
            Some(items) => if all_text(items) {
                Some(item_texts(items))
            } else {
                None
            },
            None => None,
        }
    } else {
        None
    }
}

/// The frame that an object with the given members is read as.
pub open spec fn frame_of(fields: Map<Seq<char>, serde_json::Value>, raw: Seq<char>) -> FrameView {
    FrameView {
        cmd: field_text(fields, "cmd"@),
        nick: field_text(fields, "nick"@),
        text: field_text(fields, "text"@),
        from: field_text(fields, "from"@),
        kind: field_text(fields, "type"@),
        nicks: field_names(fields, "nicks"@),
        raw,
    }
}

/// What reading a received text gives: the frame of the object it denotes,
/// or `InvalidJson` where it denotes none.
pub open spec fn read_frame_spec(text: Seq<char>) -> Result<FrameView, FrameError> {
    match parsed_object(text) {
        Some(fields) => Ok(frame_of(fields, text)),
        None => Err(FrameError::InvalidJson),
    }
}

fn read_text(object: &serde_json::Map<String, serde_json::Value>, key: &str) -> (member: Option<
    String,
>)
    ensures
        text_of(member) == field_text(object_fields(*object), key@),
{
    match object_get(object, key) {
        Some(value) => match value_as_text(value) {
            Some(s) => Some(s.to_owned()),
            None => None,
        },
        None => None,
    }
}

fn read_names(object: &serde_json::Map<String, serde_json::Value>, key: &str) -> (member: Option<
    Vec<String>,
>)
    ensures
        names_of(member) == field_names(object_fields(*object), key@),
{
    match object_get(object, key) {
        Some(value) => match value_as_list(value) {
            Some(list) => {
                let mut found: Vec<String> = Vec::new();
                let mut at: usize = 0;
                while at < list.len()
                    invariant
                        object_fields(*object).contains_key(key@),
                        value_items(object_fields(*object)[key@]) == Some(list@),
                        at <= list.len(),
                        found.len() == at,
                        forall|i: int| 0 <= i < at ==> value_text(#[trigger] list@[i]) == Some(found@[i]@),
                    decreases list.len() - at,
                {
                    match value_as_text(&list[at]) {
                        Some(s) => {
                            found.push(s.to_owned());
                        },
                        None => {
                            assert(value_text(list@[at as int]).is_none());
                            return None;
                        },
                    }
                    at += 1;
                }
                assert(all_text(list@));
                assert(strings(found@) =~= item_texts(list@));
                Some(found)
            },
            None => None,
        },
        None => None,
    }
}

/// Reads a received text as a frame.
pub fn read_frame(text: &str) -> (read: Result<Frame, FrameError>)
    ensures
        match read {
            Ok(frame) => read_frame_spec(text@) == Ok::<FrameView, FrameError>(frame@),
            Err(error) => read_frame_spec(text@) == Err::<FrameView, FrameError>(error),
        },
{
    match parse_object(text) {
        Ok(object) => {
            let frame = Frame {
                cmd: read_text(&object, "cmd"),
                nick: read_text(&object, "nick"),
                text: read_text(&object, "text"),
                from: read_text(&object, "from"),
                kind: read_text(&object, "type"),
                nicks: read_names(&object, "nicks"),
                raw: text.to_owned(),
            };
            Ok(frame)
        },
        Err(_) => Err(FrameError::InvalidJson),
    }
}

} // verus!
