//! The events that viewers exchange, and the envelope that carries them.

use vstd::prelude::*;

verus! {

/// What happened: the closed set of event payloads.
#[derive(Debug, PartialEq, Eq)]
pub enum WatchEventData {
    SetPlaying { playing: bool, time: u64 },
    SetTime(u64),
    UserJoin,
    UserLeave,
    ChatMessage(String),
}

/// Mathematical value of a payload: text is a sequence of characters.
pub ghost enum PayloadModel {
    SetPlaying { playing: bool, time: u64 },
    SetTime(u64),
    UserJoin,
    UserLeave,
    ChatMessage(Seq<char>),
}

impl View for WatchEventData {
    type V = PayloadModel;

    open spec fn view(&self) -> PayloadModel {
        match *self {
            WatchEventData::SetPlaying { playing, time } => PayloadModel::SetPlaying {
                playing,
                time,
            },
            WatchEventData::SetTime(time) => PayloadModel::SetTime(time),
            WatchEventData::UserJoin => PayloadModel::UserJoin,
            WatchEventData::UserLeave => PayloadModel::UserLeave,
            WatchEventData::ChatMessage(text) => PayloadModel::ChatMessage(text@),
        }
    }
}

impl Clone for WatchEventData {
    fn clone(&self) -> (copy: Self)
        ensures
            copy@ == self@,
    {
        match self {
            WatchEventData::SetPlaying { playing, time } => WatchEventData::SetPlaying {
                playing: *playing,
                time: *time,
            },
            WatchEventData::SetTime(time) => WatchEventData::SetTime(*time),
            WatchEventData::UserJoin => WatchEventData::UserJoin,
            WatchEventData::UserLeave => WatchEventData::UserLeave,
            WatchEventData::ChatMessage(text) => WatchEventData::ChatMessage(text.clone()),
        }
    }
}

impl WatchEventData {
    /// Whether the payload is a chat message.
    pub fn is_chat(&self) -> (chat: bool)
        ensures
            chat == (self@ is ChatMessage),
    {
        match self {
            WatchEventData::ChatMessage(_) => true,
            _ => false,
        }
    }
}

/// The envelope around a payload: who sent it, in which colour, and the
/// echo flag, which is carried along and never interpreted here.
#[derive(Debug, PartialEq, Eq)]
pub struct WatchEvent {
    pub user: Option<String>,
    pub colour: Option<String>,
    pub data: WatchEventData,
    pub reflected: bool,
}

/// Mathematical value of an envelope.
pub ghost struct EnvelopeModel {
    pub user: Option<Seq<char>>,
    pub colour: Option<Seq<char>>,
    pub data: PayloadModel,
    pub reflected: bool,
}

/// Mathematical value of an optional text.
pub open spec fn text_model(text: Option<String>) -> Option<Seq<char>> {
    match text {
        Some(s) => Some(s@),
        None => None,
    }
}

impl View for WatchEvent {
    type V = EnvelopeModel;

    open spec fn view(&self) -> EnvelopeModel {
        EnvelopeModel {
            user: text_model(self.user),
            colour: text_model(self.colour),
            data: self.data@,
            reflected: self.reflected,
        }
    }
}

/// Copies an optional text.
fn copy_text(text: &Option<String>) -> (copy: Option<String>)
    ensures
        text_model(copy) == text_model(*text),
{
    match text {
        Some(s) => Some(s.clone()),
        None => None,
    }
}

impl Clone for WatchEvent {
    fn clone(&self) -> (copy: Self)
        ensures
            copy@ == self@,
    {
        WatchEvent {
            user: copy_text(&self.user),
            colour: copy_text(&self.colour),
            data: self.data.clone(),
            reflected: self.reflected,
        }
    }
}

impl WatchEvent {
    /// An envelope signed with a display name and a colour, not reflected.
    pub fn new(user: String, colour: String, data: WatchEventData) -> (event: Self)
        ensures
            event@ == (EnvelopeModel {
                user: Some(user@),
                colour: Some(colour@),
                data: data@,
                reflected: false,
            }),
    {
        WatchEvent { user: Some(user), colour: Some(colour), data, reflected: false }
    }

    /// An announcement in a viewer's name, without a colour: the form in
    /// which joins and departures are broadcast.
    pub fn announced(user: String, data: WatchEventData) -> (event: Self)
        ensures
            event@ == (EnvelopeModel {
                user: Some(user@),
                colour: None,
                data: data@,
                reflected: false,
            }),
    {
        WatchEvent { user: Some(user), colour: None, data, reflected: false }
    }
}

} // verus!
