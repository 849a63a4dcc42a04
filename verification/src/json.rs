//! The textual wire form: one JSON object per frame.
//!
//! Reading goes through `serde_json`: the text is parsed into a value, the
//! members are taken out of it one by one, and the frame they make is
//! decoded. Writing puts the members of an envelope down in a fixed order;
//! `serde_json` renders the texts and the numbers among them.

use vstd::prelude::*;
use vstd::string::StringExecFns;
use crate::events::{EnvelopeModel, PayloadModel, WatchEvent, WatchEventData, text_model};
use crate::wire::{
    DataModel, FrameModel, TextModel, WireData, WireFlag, WireFrame, WireText, decode,
    event_model, spec_decode,
};

verus! {

/// A parsed JSON value of `serde_json`. Nothing inside it is visible here;
/// it is read through the functions below.
#[verifier::external_type_specification]
#[verifier::external_body]
pub struct ExJsonValue(serde_json::Value);

/// The value that `serde_json::from_str` makes of a text, if it parses.
pub uninterp spec fn json_parsed(text: Seq<char>) -> Option<serde_json::Value>;

/// The member that `Value::get` finds under a key.
pub uninterp spec fn json_member(value: serde_json::Value, key: Seq<char>) -> Option<
    serde_json::Value,
>;

/// The text that `Value::as_str` finds in a value.
pub uninterp spec fn json_text(value: serde_json::Value) -> Option<Seq<char>>;

/// The number that `Value::as_u64` finds in a value.
pub uninterp spec fn json_unsigned(value: serde_json::Value) -> Option<u64>;

/// The flag that `Value::as_bool` finds in a value.
pub uninterp spec fn json_flag(value: serde_json::Value) -> Option<bool>;

/// Whether `Value::is_null` holds of a value.
pub uninterp spec fn json_null(value: serde_json::Value) -> bool;

/// A text as `serde_json::to_string` renders it: quoted and escaped.
pub uninterp spec fn json_quoted(text: Seq<char>) -> Seq<char>;

/// One decimal digit.
pub open spec fn spec_digit(digit: nat) -> char {
    if digit == 0 {
        '0'
    } else if digit == 1 {
        '1'
    } else if digit == 2 {
        '2'
    } else if digit == 3 {
        '3'
    } else if digit == 4 {
        '4'
    } else if digit == 5 {
        '5'
    } else if digit == 6 {
        '6'
    } else if digit == 7 {
        '7'
    } else if digit == 8 {
        '8'
    } else {
        '9'
    }
}

/// A number in decimal digits, without leading zeros.
pub open spec fn spec_decimal(number: nat) -> Seq<char>
    decreases number,
{
    if number < 10 {
        seq![spec_digit(number)]
    } else {
        spec_decimal(number / 10).push(spec_digit(number % 10))
    }
}

/// Calls `serde_json::from_str` for a `Value`. Trusted: the result is a
/// function of the text alone; `None` stands for every parse error.
#[verifier::external_body]
fn json_parse(text: &str) -> (value: Option<serde_json::Value>)
    ensures
        value == json_parsed(text@),
{
    serde_json::from_str::<serde_json::Value>(text).ok()
}

/// Calls `Value::get` with a key. Trusted: the result is a function of the
/// value and the key alone.
#[verifier::external_body]
fn json_get<'a>(value: &'a serde_json::Value, key: &str) -> (member: Option<
    &'a serde_json::Value,
>)
    ensures
        match member {
            Some(m) => json_member(*value, key@) == Some(*m),
            None => json_member(*value, key@) is None,
        },
{
    value.get(key)
}

/// Calls `Value::as_str`. Trusted: the result is a function of the value
/// alone.
#[verifier::external_body]
fn json_as_str<'a>(value: &'a serde_json::Value) -> (text: Option<&'a str>)
    ensures
        match text {
            Some(s) => json_text(*value) == Some(s@),
            None => json_text(*value) is None,
        },
{
    value.as_str()
}

/// Calls `Value::as_u64`. Trusted: the result is a function of the value
/// alone.
#[verifier::external_body]
fn json_as_u64(value: &serde_json::Value) -> (number: Option<u64>)
    ensures
        number == json_unsigned(*value),
{
    value.as_u64()
}

/// Calls `Value::as_bool`. Trusted: the result is a function of the value
/// alone.
#[verifier::external_body]
fn json_as_bool(value: &serde_json::Value) -> (flag: Option<bool>)
    ensures
        flag == json_flag(*value),
{
    value.as_bool()
}

/// Calls `Value::is_null`. Trusted: the result is a function of the value
/// alone.
#[verifier::external_body]
fn json_is_null(value: &serde_json::Value) -> (null: bool)
    ensures
        null == json_null(*value),
{
    value.is_null()
}

/// Calls `serde_json::to_string` on a text. Trusted: the result is a
/// function of the text alone. Rendering a text does not fail.
#[verifier::external_body]
fn json_quote(text: &str) -> (quoted: String)
    ensures
        quoted@ == json_quoted(text@),
{
    serde_json::to_string(text).unwrap_or_default()
}

/// Calls `serde_json::to_string` on a number. Trusted: the result is the
/// number in decimal digits, without leading zeros. Rendering a number does
/// not fail.
#[verifier::external_body]
fn json_digits(number: u64) -> (digits: String)
    ensures
        digits@ == spec_decimal(number as nat),
{
    serde_json::to_string(&number).unwrap_or_default()
}

/// A member that should hold text: missing or null reads as absent.
pub open spec fn spec_text_member(value: serde_json::Value, key: Seq<char>) -> TextModel {
    match json_member(value, key) {
        None => TextModel::Absent,
        Some(member) => {
            if json_null(member) {
                TextModel::Absent
            } else {
                match json_text(member) {
                    Some(text) => TextModel::Text(text),
                    None => TextModel::Other,
                }
            }
        },
    }
}

/// A member that should hold a flag.
pub open spec fn spec_flag_member(value: serde_json::Value, key: Seq<char>) -> WireFlag {
    match json_member(value, key) {
        None => WireFlag::Absent,
        Some(member) => match json_flag(member) {
            Some(flag) => WireFlag::Flag(flag),
            None => WireFlag::Other,
        },
    }
}

/// What an object holds under `playing` and `time`, if it holds a flag and
/// a number there.
pub open spec fn spec_playback(member: serde_json::Value) -> DataModel {
    match (json_member(member, "playing"@), json_member(member, "time"@)) {
        (Some(playing), Some(time)) => match (json_flag(playing), json_unsigned(time)) {
            (Some(playing), Some(time)) => DataModel::Playback { playing, time },
            _ => DataModel::Other,
        },
        _ => DataModel::Other,
    }
}

/// The `data` member.
pub open spec fn spec_data_member(value: serde_json::Value) -> DataModel {
    match json_member(value, "data"@) {
        None => DataModel::Absent,
        Some(member) => {
            if json_null(member) {
                DataModel::Null
            } else if json_unsigned(member) is Some {
                DataModel::Unsigned(json_unsigned(member)->0)
            } else if json_text(member) is Some {
                DataModel::Text(json_text(member)->0)
            } else {
                spec_playback(member)
            }
        },
    }
}

/// The frame that a parsed value stands for.
pub open spec fn spec_frame(value: serde_json::Value) -> FrameModel {
    FrameModel {
        op: spec_text_member(value, "op"@),
        data: spec_data_member(value),
        user: spec_text_member(value, "user"@),
        colour: spec_text_member(value, "colour"@),
        reflected: spec_flag_member(value, "reflected"@),
    }
}

/// The envelope that a text stands for: the text parses, and the frame
/// that it holds decodes.
pub open spec fn spec_decode_text(text: Seq<char>) -> Option<EnvelopeModel> {
    match json_parsed(text) {
        Some(value) => spec_decode(spec_frame(value)),
        None => None,
    }
}

fn text_member(value: &serde_json::Value, key: &str) -> (member: WireText)
    ensures
        member@ == spec_text_member(*value, key@),
{
    match json_get(value, key) {
        None => WireText::Absent,
        Some(member) => {
            if json_is_null(member) {
                WireText::Absent
            } else {
                match json_as_str(member) {
                    Some(text) => WireText::Text(text.to_owned()),
                    None => WireText::Other,
                }
            }
        },
    }
}

fn flag_member(value: &serde_json::Value, key: &str) -> (member: WireFlag)
    ensures
        member == spec_flag_member(*value, key@),
{
    match json_get(value, key) {
        None => WireFlag::Absent,
        Some(member) => match json_as_bool(member) {
            Some(flag) => WireFlag::Flag(flag),
            None => WireFlag::Other,
        },
    }
}

fn playback(member: &serde_json::Value) -> (data: WireData)
    ensures
        data@ == spec_playback(*member),
{
    match (json_get(member, "playing"), json_get(member, "time")) {
        (Some(playing), Some(time)) => match (json_as_bool(playing), json_as_u64(time)) {
            (Some(playing), Some(time)) => WireData::Playback { playing, time },
            _ => WireData::Other,
        },
        _ => WireData::Other,
    }
}

fn data_member(value: &serde_json::Value) -> (data: WireData)
    ensures
        data@ == spec_data_member(*value),
{
    match json_get(value, "data") {
        None => WireData::Absent,
        Some(member) => {
            if json_is_null(member) {
                return WireData::Null;
            }
            if let Some(number) = json_as_u64(member) {
                return WireData::Unsigned(number);
            }
            match json_as_str(member) {
                Some(text) => WireData::Text(text.to_owned()),
                None => playback(member),
            }
        },
    }
}

/// Takes the members of a frame out of a parsed value. A value that is no
/// object has none.
fn frame_of_value(value: &serde_json::Value) -> (frame: WireFrame)
    ensures
        frame@ == spec_frame(*value),
{
    WireFrame {
        op: text_member(value, "op"),
        data: data_member(value),
        user: text_member(value, "user"),
        colour: text_member(value, "colour"),
        reflected: flag_member(value, "reflected"),
    }
}

/// Reads one textual frame. Every text gets an answer: the envelope it
/// stands for, or `None` where it is no JSON or the frame is malformed.
pub fn decode_text(text: &str) -> (event: Option<WatchEvent>)
    ensures
        event_model(event) == spec_decode_text(text@),
{
    match json_parse(text) {
        Some(value) => {
            let frame = frame_of_value(&value);
            decode(&frame)
        },
        None => None,
    }
}

/// A text behind `out`, under `name`; nothing where there is no text.
/// `name` is the member's key as it is written, with what parts it from the
/// member before it.
pub open spec fn spec_put_text(out: Seq<char>, name: Seq<char>, text: Option<Seq<char>>) -> Seq<
    char,
> {
    match text {
        Some(t) => out + name + json_quoted(t) + ","@,
        None => out,
    }
}

/// The tag and the `data` member of a payload behind `out`.
pub open spec fn spec_put_payload(out: Seq<char>, payload: PayloadModel) -> Seq<char> {
    match payload {
        PayloadModel::SetPlaying { playing, time } => out
            + "\"op\":\"SetPlaying\",\"data\":{\"playing\":"@ + spec_flag_text(playing)
            + ",\"time\":"@ + spec_decimal(time as nat) + "}"@,
        PayloadModel::SetTime(time) => out + "\"op\":\"SetTime\",\"data\":"@ + spec_decimal(
            time as nat,
        ),
        PayloadModel::UserJoin => out + "\"op\":\"UserJoin\""@,
        PayloadModel::UserLeave => out + "\"op\":\"UserLeave\""@,
        PayloadModel::ChatMessage(text) => out + "\"op\":\"ChatMessage\",\"data\":"@
            + json_quoted(text),
    }
}

/// A flag as it is written.
pub open spec fn spec_flag_text(flag: bool) -> Seq<char> {
    if flag {
        "true"@
    } else {
        "false"@
    }
}

/// The text of an envelope: one object with `user` and `colour` where the
/// envelope has them, then `op`, `data` where the payload carries
/// something, and `reflected`, which is always written.
pub open spec fn spec_encode_text(event: EnvelopeModel) -> Seq<char> {
    spec_put_payload(
        spec_put_text(
            spec_put_text("{"@, "\"user\":"@, event.user),
            "\"colour\":"@,
            event.colour,
        ),
        event.data,
    ) + ",\"reflected\":"@ + spec_flag_text(event.reflected) + "}"@
}

fn flag_text(flag: bool) -> (text: &'static str)
    ensures
        text@ == spec_flag_text(flag),
{
    if flag {
        "true"
    } else {
        "false"
    }
}

fn put_text(out: &mut String, name: &str, text: &Option<String>)
    ensures
        final(out)@ == spec_put_text(old(out)@, name@, text_model(*text)),
{
    match text {
        Some(t) => {
            out.append(name);
            let quoted = json_quote(t.as_str());
            out.append(quoted.as_str());
            out.append(",");
        },
        None => {},
    }
}

fn put_payload(out: &mut String, payload: &WatchEventData)
    ensures
        final(out)@ == spec_put_payload(old(out)@, payload@),
{
    match payload {
        WatchEventData::SetPlaying { playing, time } => {
            out.append("\"op\":\"SetPlaying\",\"data\":{\"playing\":");
            out.append(flag_text(*playing));
            out.append(",\"time\":");
            let digits = json_digits(*time);
            out.append(digits.as_str());
            out.append("}");
        },
        WatchEventData::SetTime(time) => {
            out.append("\"op\":\"SetTime\",\"data\":");
            let digits = json_digits(*time);
            out.append(digits.as_str());
        },
        WatchEventData::UserJoin => {
            out.append("\"op\":\"UserJoin\"");
        },
        WatchEventData::UserLeave => {
            out.append("\"op\":\"UserLeave\"");
        },
        WatchEventData::ChatMessage(text) => {
            out.append("\"op\":\"ChatMessage\",\"data\":");
            let quoted = json_quote(text.as_str());
            out.append(quoted.as_str());
        },
    }
}

/// Writes an envelope as one textual frame.
pub fn encode_text(event: &WatchEvent) -> (text: String)
    ensures
        text@ == spec_encode_text(event@),
{
    let mut out = String::from_str("{");
    put_text(&mut out, "\"user\":", &event.user);
    put_text(&mut out, "\"colour\":", &event.colour);
    put_payload(&mut out, &event.data);
    out.append(",\"reflected\":");
    out.append(flag_text(event.reflected));
    out.append("}");
    out
}

} // verus!
