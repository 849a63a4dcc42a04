//! The wire form of an envelope, member by member, and the codec between
//! the two.
//!
//! A frame is an object with the members `op` (the payload's tag), `data`
//! (what the payload carries), `user`, `colour` and `reflected`. This module
//! works on the members as plain values; turning text into members and back
//! is left to the caller.

use vstd::prelude::*;
use vstd::string::StringExecFns;
use crate::events::{EnvelopeModel, PayloadModel, WatchEvent, WatchEventData, text_model};

verus! {

/// A member that should hold text.
#[derive(Debug, PartialEq, Eq)]
pub enum WireText {
    /// The member is missing.
    Absent,
    Text(String),
    /// The member holds something that is no text.
    Other,
}

/// A member that should hold a flag.
#[derive(Debug, PartialEq, Eq)]
pub enum WireFlag {
    /// The member is missing.
    Absent,
    Flag(bool),
    /// The member holds something that is no flag.
    Other,
}

/// The `data` member.
#[derive(Debug, PartialEq, Eq)]
pub enum WireData {
    /// The member is missing.
    Absent,
    /// The member is there and empty.
    Null,
    /// One unsigned 64-bit integer.
    Unsigned(u64),
    Text(String),
    /// An object with the members `playing` and `time`.
    Playback { playing: bool, time: u64 },
    /// Anything else.
    Other,
}

/// One frame, member by member.
#[derive(Debug, PartialEq, Eq)]
pub struct WireFrame {
    pub op: WireText,
    pub data: WireData,
    pub user: WireText,
    pub colour: WireText,
    pub reflected: WireFlag,
}

pub ghost enum TextModel {
    Absent,
    Text(Seq<char>),
    Other,
}

pub ghost enum DataModel {
    Absent,
    Null,
    Unsigned(u64),
    Text(Seq<char>),
    Playback { playing: bool, time: u64 },
    Other,
}

pub ghost struct FrameModel {
    pub op: TextModel,
    pub data: DataModel,
    pub user: TextModel,
    pub colour: TextModel,
    pub reflected: WireFlag,
}

impl View for WireText {
    type V = TextModel;

    open spec fn view(&self) -> TextModel {
        match *self {
            WireText::Absent => TextModel::Absent,
            WireText::Text(s) => TextModel::Text(s@),
            WireText::Other => TextModel::Other,
        }
    }
}

impl View for WireData {
    type V = DataModel;

    open spec fn view(&self) -> DataModel {
        match *self {
            WireData::Absent => DataModel::Absent,
            WireData::Null => DataModel::Null,
            WireData::Unsigned(n) => DataModel::Unsigned(n),
            WireData::Text(s) => DataModel::Text(s@),
            WireData::Playback { playing, time } => DataModel::Playback { playing, time },
            WireData::Other => DataModel::Other,
        }
    }
}

impl View for WireFrame {
    type V = FrameModel;

    open spec fn view(&self) -> FrameModel {
        FrameModel {
            op: self.op@,
            data: self.data@,
            user: self.user@,
            colour: self.colour@,
            reflected: self.reflected,
        }
    }
}

/// The tag under which a payload travels.
pub open spec fn spec_tag(payload: PayloadModel) -> Seq<char> {
    match payload {
        PayloadModel::SetPlaying { .. } => "SetPlaying"@,
        PayloadModel::SetTime(_) => "SetTime"@,
        PayloadModel::UserJoin => "UserJoin"@,
        PayloadModel::UserLeave => "UserLeave"@,
        PayloadModel::ChatMessage(_) => "ChatMessage"@,
    }
}

/// The `data` member of a payload: nothing for the two that carry nothing.
pub open spec fn spec_content(payload: PayloadModel) -> DataModel {
    match payload {
        PayloadModel::SetPlaying { playing, time } => DataModel::Playback { playing, time },
        PayloadModel::SetTime(time) => DataModel::Unsigned(time),
        PayloadModel::UserJoin => DataModel::Absent,
        PayloadModel::UserLeave => DataModel::Absent,
        PayloadModel::ChatMessage(text) => DataModel::Text(text),
    }
}

/// An optional text as a member: left out when there is none.
pub open spec fn spec_member(text: Option<Seq<char>>) -> TextModel {
    match text {
        Some(s) => TextModel::Text(s),
        None => TextModel::Absent,
    }
}

/// The frame of an envelope. `reflected` is always written.
pub open spec fn spec_encode(event: EnvelopeModel) -> FrameModel {
    FrameModel {
        op: TextModel::Text(spec_tag(event.data)),
        data: spec_content(event.data),
        user: spec_member(event.user),
        colour: spec_member(event.colour),
        reflected: WireFlag::Flag(event.reflected),
    }
}

/// The payload that a tag and a `data` member stand for, if the tag is one
/// of the five and the member has the shape that the tag asks for.
pub open spec fn spec_payload(op: TextModel, data: DataModel) -> Option<PayloadModel> {
    match op {
        TextModel::Text(tag) => {
            if tag == "SetPlaying"@ {
                match data {
                    DataModel::Playback { playing, time } => Some(
                        PayloadModel::SetPlaying { playing, time },
                    ),
                    _ => None,
                }
            } else if tag == "SetTime"@ {
                match data {
                    DataModel::Unsigned(time) => Some(PayloadModel::SetTime(time)),
                    _ => None,
                }
            } else if tag == "UserJoin"@ {
                match data {
                    DataModel::Absent | DataModel::Null => Some(PayloadModel::UserJoin),
                    _ => None,
                }
            } else if tag == "UserLeave"@ {
                match data {
                    DataModel::Absent | DataModel::Null => Some(PayloadModel::UserLeave),
                    _ => None,
                }
            } else if tag == "ChatMessage"@ {
                match data {
                    DataModel::Text(text) => Some(PayloadModel::ChatMessage(text)),
                    _ => None,
                }
            } else {
                None
            }
        },
        _ => None,
    }
}

/// The envelope that a frame stands for, or `None` where the frame is
/// malformed: an unknown or missing tag, a `data` member of the wrong shape,
/// or a `user`, `colour` or `reflected` member of the wrong type. A missing
/// `reflected` reads as false.
pub open spec fn spec_decode(frame: FrameModel) -> Option<EnvelopeModel> {
    match spec_payload(frame.op, frame.data) {
        Some(data) => {
            if frame.user is Other || frame.colour is Other || frame.reflected is Other {
                None
            } else {
                Some(
                    EnvelopeModel {
                        user: match frame.user {
                            TextModel::Text(s) => Some(s),
                            _ => None,
                        },
                        colour: match frame.colour {
                            TextModel::Text(s) => Some(s),
                            _ => None,
                        },
                        data,
                        reflected: match frame.reflected {
                            WireFlag::Flag(b) => b,
                            _ => false,
                        },
                    },
                )
            }
        },
        None => None,
    }
}

/// The view of an optional envelope.
pub open spec fn event_model(event: Option<WatchEvent>) -> Option<EnvelopeModel> {
    match event {
        Some(e) => Some(e@),
        None => None,
    }
}

/// The five tags differ from one another.
pub proof fn tags_differ()
    ensures
        forall|a: PayloadModel, b: PayloadModel|
            #![trigger spec_tag(a), spec_tag(b)]
            spec_tag(a) == spec_tag(b) ==> (a is SetPlaying <==> b is SetPlaying) && (a is SetTime
                <==> b is SetTime) && (a is UserJoin <==> b is UserJoin) && (a is UserLeave <==> b
                is UserLeave) && (a is ChatMessage <==> b is ChatMessage),
{
    reveal_strlit("SetPlaying");
    reveal_strlit("SetTime");
    reveal_strlit("UserJoin");
    reveal_strlit("UserLeave");
    reveal_strlit("ChatMessage");
    assert("SetPlaying"@.len() == 10);
    assert("SetTime"@.len() == 7);
    assert("UserJoin"@.len() == 8);
    assert("UserLeave"@.len() == 9);
    assert("ChatMessage"@.len() == 11);
}

/// Decoding undoes encoding: the frame of any envelope decodes, and to that
/// envelope.
pub proof fn decode_inverts_encode(event: EnvelopeModel)
    ensures
        spec_decode(spec_encode(event)) == Some(event),
{
    tags_differ();
    let frame = spec_encode(event);
    assert(spec_tag(event.data) == spec_tag(PayloadModel::SetPlaying { playing: true, time: 0 })
        ==> event.data is SetPlaying);
    assert(spec_tag(event.data) == spec_tag(PayloadModel::SetTime(0)) ==> event.data is SetTime);
    assert(spec_tag(event.data) == spec_tag(PayloadModel::UserJoin) ==> event.data is UserJoin);
    assert(spec_tag(event.data) == spec_tag(PayloadModel::UserLeave) ==> event.data is UserLeave);
    assert(spec_tag(event.data) == spec_tag(PayloadModel::ChatMessage(Seq::empty()))
        ==> event.data is ChatMessage);
    assert(spec_payload(frame.op, frame.data) == Some(event.data));
}

fn text_is(text: &String, word: &str) -> (same: bool)
    ensures
        same == (text@ == word@),
{
    *text == String::from_str(word)
}

fn member_of(text: &Option<String>) -> (member: WireText)
    ensures
        member@ == spec_member(text_model(*text)),
{
    match text {
        Some(s) => WireText::Text(s.clone()),
        None => WireText::Absent,
    }
}

fn text_of(member: &WireText) -> (text: Option<String>)
    ensures
        text_model(text) == match member@ {
            TextModel::Text(s) => Some(s),
            _ => None,
        },
{
    match member {
        WireText::Text(s) => Some(s.clone()),
        _ => None,
    }
}

/// Writes an envelope as a frame.
pub fn encode(event: &WatchEvent) -> (frame: WireFrame)
    ensures
        frame@ == spec_encode(event@),
        spec_decode(frame@) == Some(event@),
{
    proof {
        decode_inverts_encode(event@);
    }
    let (op, data) = match &event.data {
        WatchEventData::SetPlaying { playing, time } => (
            "SetPlaying",
            WireData::Playback { playing: *playing, time: *time },
        ),
        WatchEventData::SetTime(time) => ("SetTime", WireData::Unsigned(*time)),
        WatchEventData::UserJoin => ("UserJoin", WireData::Absent),
        WatchEventData::UserLeave => ("UserLeave", WireData::Absent),
        WatchEventData::ChatMessage(text) => ("ChatMessage", WireData::Text(text.clone())),
    };
    WireFrame {
        op: WireText::Text(String::from_str(op)),
        data,
        user: member_of(&event.user),
        colour: member_of(&event.colour),
        reflected: WireFlag::Flag(event.reflected),
    }
}

/// Reads the payload of a frame from its tag and its `data` member.
pub fn decode_payload(op: &WireText, data: &WireData) -> (payload: Option<WatchEventData>)
    ensures
        match payload {
            Some(p) => spec_payload(op@, data@) == Some(p@),
            None => spec_payload(op@, data@) is None,
        },
{
    match op {
        WireText::Text(tag) => {
            if text_is(tag, "SetPlaying") {
                match data {
                    WireData::Playback { playing, time } => Some(
                        WatchEventData::SetPlaying { playing: *playing, time: *time },
                    ),
                    _ => None,
                }
            } else if text_is(tag, "SetTime") {
                match data {
                    WireData::Unsigned(time) => Some(WatchEventData::SetTime(*time)),
                    _ => None,
                }
            } else if text_is(tag, "UserJoin") {
                match data {
                    WireData::Absent | WireData::Null => Some(WatchEventData::UserJoin),
                    _ => None,
                }
            } else if text_is(tag, "UserLeave") {
                match data {
                    WireData::Absent | WireData::Null => Some(WatchEventData::UserLeave),
                    _ => None,
                }
            } else if text_is(tag, "ChatMessage") {
                match data {
                    WireData::Text(text) => Some(WatchEventData::ChatMessage(text.clone())),
                    _ => None,
                }
            } else {
                None
            }
        },
        _ => None,
    }
}

/// Reads a frame. Every frame gets an answer: the envelope it stands for,
/// or `None` where it is malformed.
pub fn decode(frame: &WireFrame) -> (event: Option<WatchEvent>)
    ensures
        event_model(event) == spec_decode(frame@),
{
    let data = match decode_payload(&frame.op, &frame.data) {
        Some(data) => data,
        None => {
            return None;
        },
    };
    let reflected = match frame.reflected {
        WireFlag::Flag(b) => b,
        WireFlag::Absent => false,
        WireFlag::Other => {
            return None;
        },
    };
    match (&frame.user, &frame.colour) {
        (WireText::Other, _) => None,
        (_, WireText::Other) => None,
        (user, colour) => Some(
            WatchEvent { user: text_of(user), colour: text_of(colour), data, reflected },
        ),
    }
}

} // verus!
