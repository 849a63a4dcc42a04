use viewer_hub::events::{WatchEvent, WatchEventData};
use viewer_hub::json::{decode_text, encode_text};
use viewer_hub::registry::{ConnectedViewer, Registry};
use viewer_hub::viewer_connection::{
    ws_judge, ws_publish, ws_read, ws_settle, ws_subscribe, ws_unsubscribe, Verdict,
};
use viewer_hub::wire::{decode, decode_payload, encode, WireData, WireFlag, WireFrame, WireText};

const S1: u128 = 0x1111_2222_3333_4444_5555_6666_7777_8888;
const S2: u128 = 0x9999_aaaa_bbbb_cccc_dddd_eeee_ffff_0000;

fn text(s: &str) -> WireText {
    WireText::Text(s.to_string())
}

fn client_frame(op: &str, data: WireData) -> WireFrame {
    WireFrame {
        op: text(op),
        data,
        user: WireText::Absent,
        colour: WireText::Absent,
        reflected: WireFlag::Absent,
    }
}

fn plain(data: WatchEventData) -> WatchEvent {
    WatchEvent { user: None, colour: None, data, reflected: false }
}

fn notice(name: &str, data: WatchEventData) -> WatchEvent {
    WatchEvent { user: Some(name.to_string()), colour: None, data, reflected: false }
}

fn receive(registry: &mut Registry, session: u128, id: usize, name: &str, frame: &WireFrame) {
    let verdict = ws_judge(decode(frame), name);
    ws_settle(registry, session, id, &verdict, true);
}

#[test]
fn new_signs_the_envelope() {
    let e = WatchEvent::new("alice".to_string(), "red".to_string(), WatchEventData::SetTime(7));
    assert_eq!(e.user, Some("alice".to_string()));
    assert_eq!(e.colour, Some("red".to_string()));
    assert_eq!(e.data, WatchEventData::SetTime(7));
    assert!(!e.reflected);
}

#[test]
fn announced_has_a_name_and_no_colour() {
    let e = WatchEvent::announced("bob".to_string(), WatchEventData::UserJoin);
    assert_eq!(e, notice("bob", WatchEventData::UserJoin));
}

#[test]
fn clone_keeps_every_field() {
    let e = WatchEvent {
        user: Some("u".to_string()),
        colour: None,
        data: WatchEventData::ChatMessage("hello".to_string()),
        reflected: true,
    };
    assert_eq!(e.clone(), e);
    let p = WatchEventData::SetPlaying { playing: false, time: u64::MAX };
    assert_eq!(p.clone(), p);
}

#[test]
fn is_chat_tells_chat_from_the_rest() {
    assert!(WatchEventData::ChatMessage(String::new()).is_chat());
    assert!(!WatchEventData::SetTime(0).is_chat());
    assert!(!WatchEventData::SetPlaying { playing: true, time: 1 }.is_chat());
    assert!(!WatchEventData::UserJoin.is_chat());
    assert!(!WatchEventData::UserLeave.is_chat());
}

#[test]
fn encode_writes_each_member() {
    let e = WatchEvent::new(
        "alice".to_string(),
        "red".to_string(),
        WatchEventData::SetPlaying { playing: true, time: 42 },
    );
    assert_eq!(
        encode(&e),
        WireFrame {
            op: text("SetPlaying"),
            data: WireData::Playback { playing: true, time: 42 },
            user: text("alice"),
            colour: text("red"),
            reflected: WireFlag::Flag(false),
        }
    );
}

#[test]
fn encode_leaves_out_absent_user_and_colour() {
    let f = encode(&plain(WatchEventData::SetTime(9)));
    assert_eq!(f.op, text("SetTime"));
    assert_eq!(f.data, WireData::Unsigned(9));
    assert_eq!(f.user, WireText::Absent);
    assert_eq!(f.colour, WireText::Absent);
    assert_eq!(f.reflected, WireFlag::Flag(false));
}

#[test]
fn encode_tags_the_other_payloads() {
    let join = encode(&plain(WatchEventData::UserJoin));
    assert_eq!((join.op, join.data), (text("UserJoin"), WireData::Absent));
    let leave = encode(&plain(WatchEventData::UserLeave));
    assert_eq!((leave.op, leave.data), (text("UserLeave"), WireData::Absent));
    let chat = encode(&plain(WatchEventData::ChatMessage("hi".to_string())));
    assert_eq!((chat.op, chat.data), (text("ChatMessage"), WireData::Text("hi".to_string())));
}

#[test]
fn decode_inverts_encode_for_all_five_payloads() {
    let payloads = vec![
        WatchEventData::SetPlaying { playing: true, time: 42 },
        WatchEventData::SetPlaying { playing: false, time: 0 },
        WatchEventData::SetTime(u64::MAX),
        WatchEventData::UserJoin,
        WatchEventData::UserLeave,
        WatchEventData::ChatMessage("hello, \"world\"".to_string()),
        WatchEventData::ChatMessage(String::new()),
    ];
    for p in payloads {
        let bare = plain(p.clone());
        assert_eq!(decode(&encode(&bare)), Some(bare));
        let signed = WatchEvent::new("alice".to_string(), "red".to_string(), p.clone());
        assert_eq!(decode(&encode(&signed)), Some(signed));
        let reflected = WatchEvent { user: None, colour: Some("c".to_string()), data: p, reflected: true };
        assert_eq!(decode(&encode(&reflected)), Some(reflected));
    }
}

#[test]
fn decode_rejects_unknown_and_missing_tags() {
    assert_eq!(decode(&client_frame("Explode", WireData::Absent)), None);
    assert_eq!(decode(&client_frame("settime", WireData::Unsigned(1))), None);
    assert_eq!(decode(&client_frame("", WireData::Absent)), None);
    let mut f = client_frame("SetTime", WireData::Unsigned(1));
    f.op = WireText::Absent;
    assert_eq!(decode(&f), None);
    f.op = WireText::Other;
    assert_eq!(decode(&f), None);
}

#[test]
fn decode_rejects_data_of_the_wrong_shape() {
    assert_eq!(decode(&client_frame("SetTime", WireData::Text("1".to_string()))), None);
    assert_eq!(decode(&client_frame("SetTime", WireData::Absent)), None);
    assert_eq!(decode(&client_frame("SetTime", WireData::Other)), None);
    assert_eq!(decode(&client_frame("SetPlaying", WireData::Unsigned(1))), None);
    assert_eq!(decode(&client_frame("SetPlaying", WireData::Null)), None);
    assert_eq!(decode(&client_frame("ChatMessage", WireData::Unsigned(1))), None);
    assert_eq!(decode(&client_frame("ChatMessage", WireData::Absent)), None);
    assert_eq!(decode(&client_frame("UserJoin", WireData::Unsigned(1))), None);
    assert_eq!(
        decode(&client_frame("UserLeave", WireData::Playback { playing: true, time: 1 })),
        None
    );
}

#[test]
fn decode_accepts_empty_data_for_join_and_leave() {
    assert_eq!(
        decode(&client_frame("UserJoin", WireData::Null)),
        Some(plain(WatchEventData::UserJoin))
    );
    assert_eq!(
        decode(&client_frame("UserLeave", WireData::Absent)),
        Some(plain(WatchEventData::UserLeave))
    );
}

#[test]
fn decode_reads_the_envelope_members() {
    let mut f = client_frame("SetTime", WireData::Unsigned(5));
    assert_eq!(decode(&f), Some(plain(WatchEventData::SetTime(5))));
    f.user = text("mallory");
    f.colour = text("green");
    f.reflected = WireFlag::Flag(true);
    assert_eq!(
        decode(&f),
        Some(WatchEvent {
            user: Some("mallory".to_string()),
            colour: Some("green".to_string()),
            data: WatchEventData::SetTime(5),
            reflected: true,
        })
    );
}

#[test]
fn decode_rejects_members_of_the_wrong_type() {
    let mut f = client_frame("SetTime", WireData::Unsigned(5));
    f.user = WireText::Other;
    assert_eq!(decode(&f), None);
    let mut f = client_frame("SetTime", WireData::Unsigned(5));
    f.colour = WireText::Other;
    assert_eq!(decode(&f), None);
    let mut f = client_frame("SetTime", WireData::Unsigned(5));
    f.reflected = WireFlag::Other;
    assert_eq!(decode(&f), None);
}

#[test]
fn decode_payload_reads_tag_and_data() {
    assert_eq!(
        decode_payload(&text("SetPlaying"), &WireData::Playback { playing: false, time: 3 }),
        Some(WatchEventData::SetPlaying { playing: false, time: 3 })
    );
    assert_eq!(
        decode_payload(&text("ChatMessage"), &WireData::Text("x".to_string())),
        Some(WatchEventData::ChatMessage("x".to_string()))
    );
    assert_eq!(decode_payload(&WireText::Absent, &WireData::Unsigned(1)), None);
}

#[test]
fn identifiers_count_up_from_one() {
    let mut r = Registry::new();
    assert_eq!(r.len(), 0);
    assert!(r.has_room());
    assert_eq!(r.register(S1), 1);
    assert_eq!(r.register(S2), 2);
    assert_eq!(r.register(S1), 3);
    assert_eq!(r.len(), 3);
    assert!(r.contains(1) && r.contains(2) && r.contains(3));
    assert!(!r.contains(0) && !r.contains(4));
    r.deregister(2);
    assert_eq!(r.register(S2), 4);
    assert!(!r.contains(2));
}

#[test]
fn broadcast_keeps_to_the_session_and_skips_the_excluded() {
    let mut r = Registry::new();
    let a = r.register(S1);
    let b = r.register(S1);
    let c = r.register(S2);
    let e = plain(WatchEventData::SetTime(10));
    r.broadcast(S1, Some(a), &e);
    assert_eq!(r.take_outbound(a), vec![]);
    assert_eq!(r.take_outbound(b), vec![e.clone()]);
    assert_eq!(r.take_outbound(c), vec![]);
    r.broadcast(S1, None, &e);
    assert_eq!(r.take_outbound(a), vec![e.clone()]);
    assert_eq!(r.take_outbound(b), vec![e.clone()]);
    assert_eq!(r.take_outbound(c), vec![]);
    r.broadcast(S1, Some(c), &e);
    assert_eq!(r.take_outbound(a), vec![e.clone()]);
    assert_eq!(r.take_outbound(b), vec![e]);
}

#[test]
fn queues_are_first_in_first_out() {
    let mut r = Registry::new();
    let a = r.register(S1);
    let first = plain(WatchEventData::SetTime(1));
    let second = plain(WatchEventData::SetPlaying { playing: true, time: 2 });
    let third = plain(WatchEventData::ChatMessage("3".to_string()));
    ws_publish(&mut r, S1, None, &first);
    ws_publish(&mut r, S1, None, &second);
    ws_publish(&mut r, S1, None, &third);
    assert_eq!(r.take_outbound(a), vec![first, second, third]);
    assert_eq!(r.take_outbound(a), vec![]);
}

#[test]
fn take_outbound_of_a_stranger_is_empty() {
    let mut r = Registry::new();
    let a = r.register(S1);
    r.broadcast(S1, None, &plain(WatchEventData::UserJoin));
    assert_eq!(r.take_outbound(a + 1), vec![]);
    assert_eq!(r.len(), 1);
    assert_eq!(r.take_outbound(a).len(), 1);
}

#[test]
fn set_time_reaches_the_other_and_not_the_sender() {
    let mut r = Registry::new();
    let a = ws_subscribe(&mut r, S1, "alice");
    let b = ws_subscribe(&mut r, S1, "bob");
    r.take_outbound(a);
    r.take_outbound(b);
    receive(&mut r, S1, a, "alice", &client_frame("SetTime", WireData::Unsigned(99)));
    assert_eq!(r.take_outbound(b), vec![plain(WatchEventData::SetTime(99))]);
    assert_eq!(r.take_outbound(a), vec![]);
}

#[test]
fn chat_reaches_all_three_under_the_bound_name() {
    let mut r = Registry::new();
    let a = ws_subscribe(&mut r, S1, "alice");
    let b = ws_subscribe(&mut r, S1, "bob");
    let c = ws_subscribe(&mut r, S1, "carol");
    for id in [a, b, c] {
        r.take_outbound(id);
    }
    let mut f = client_frame("ChatMessage", WireData::Text("hello".to_string()));
    f.user = text("carol");
    receive(&mut r, S1, a, "alice", &f);
    let expected = notice("alice", WatchEventData::ChatMessage("hello".to_string()));
    for id in [a, b, c] {
        assert_eq!(r.take_outbound(id), vec![expected.clone()]);
    }
    let unsigned = client_frame("ChatMessage", WireData::Text("hello".to_string()));
    receive(&mut r, S1, a, "alice", &unsigned);
    for id in [a, b, c] {
        assert_eq!(r.take_outbound(id), vec![expected.clone()]);
    }
}

#[test]
fn chat_keeps_colour_and_flag_and_needs_no_session_state() {
    let mut f = client_frame("ChatMessage", WireData::Text("x".to_string()));
    f.user = text("someone");
    f.colour = text("teal");
    f.reflected = WireFlag::Flag(true);
    let verdict = ws_judge(decode(&f), "dave");
    let expected = WatchEvent {
        user: Some("dave".to_string()),
        colour: Some("teal".to_string()),
        data: WatchEventData::ChatMessage("x".to_string()),
        reflected: true,
    };
    assert_eq!(verdict, Verdict::Chat(expected.clone()));
    let mut r = Registry::new();
    let d = r.register(S1);
    ws_settle(&mut r, S1, d, &verdict, false);
    assert_eq!(r.take_outbound(d), vec![expected]);
}

#[test]
fn judge_relays_other_events_as_they_came() {
    let mut f = client_frame("SetTime", WireData::Unsigned(3));
    f.user = text("claimed");
    let verdict = ws_judge(decode(&f), "dave");
    assert_eq!(
        verdict,
        Verdict::Relay(WatchEvent {
            user: Some("claimed".to_string()),
            colour: None,
            data: WatchEventData::SetTime(3),
            reflected: false,
        })
    );
}

#[test]
fn event_of_an_unknown_session_is_dropped() {
    let mut r = Registry::new();
    let a = r.register(S1);
    let b = r.register(S1);
    let verdict = ws_judge(decode(&client_frame("SetTime", WireData::Unsigned(3))), "alice");
    ws_settle(&mut r, S1, a, &verdict, false);
    assert_eq!(r.take_outbound(a), vec![]);
    assert_eq!(r.take_outbound(b), vec![]);
    assert!(r.contains(a) && r.contains(b));
}

#[test]
fn malformed_frames_are_discarded_and_the_connection_stays() {
    let mut r = Registry::new();
    let a = r.register(S1);
    let b = r.register(S1);
    let bad = vec![
        client_frame("Nonsense", WireData::Absent),
        client_frame("SetTime", WireData::Text("soon".to_string())),
        WireFrame {
            op: WireText::Absent,
            data: WireData::Absent,
            user: WireText::Absent,
            colour: WireText::Absent,
            reflected: WireFlag::Absent,
        },
    ];
    for f in &bad {
        let verdict = ws_judge(decode(f), "alice");
        assert_eq!(verdict, Verdict::Discard);
        ws_settle(&mut r, S1, a, &verdict, true);
    }
    assert_eq!(r.len(), 2);
    assert!(r.contains(a));
    assert_eq!(r.take_outbound(a), vec![]);
    assert_eq!(r.take_outbound(b), vec![]);
    receive(&mut r, S1, a, "alice", &client_frame("SetTime", WireData::Unsigned(1)));
    assert_eq!(r.take_outbound(b), vec![plain(WatchEventData::SetTime(1))]);
}

#[test]
fn deregistered_connection_gets_nothing_more() {
    let mut r = Registry::new();
    let a = r.register(S1);
    let b = r.register(S1);
    let early = plain(WatchEventData::SetTime(1));
    r.broadcast(S1, None, &early);
    let removed = r.deregister(a);
    assert_eq!(
        removed,
        Some(ConnectedViewer { session: S1, viewer_id: a, outbound: vec![early.clone()] })
    );
    assert!(!r.contains(a));
    let late = plain(WatchEventData::SetTime(2));
    r.broadcast(S1, None, &late);
    r.broadcast(S1, Some(b), &late);
    assert_eq!(r.take_outbound(a), vec![]);
    assert_eq!(r.take_outbound(b), vec![early, late]);
    assert_eq!(r.deregister(a), None);
    assert_eq!(r.len(), 1);
}

#[test]
fn join_comes_before_leave() {
    let mut r = Registry::new();
    let b = ws_subscribe(&mut r, S1, "bob");
    let other = ws_subscribe(&mut r, S2, "zed");
    r.take_outbound(b);
    r.take_outbound(other);
    let a = ws_subscribe(&mut r, S1, "alice");
    let removed = ws_unsubscribe(&mut r, S1, a, "alice");
    assert_eq!(
        r.take_outbound(b),
        vec![notice("alice", WatchEventData::UserJoin), notice("alice", WatchEventData::UserLeave)]
    );
    assert_eq!(r.take_outbound(other), vec![]);
    assert!(!r.contains(a));
    let removed = removed.unwrap();
    assert_eq!(removed.viewer_id, a);
    assert_eq!(removed.session, S1);
    assert_eq!(
        removed.outbound,
        vec![notice("alice", WatchEventData::UserJoin), notice("alice", WatchEventData::UserLeave)]
    );
}

#[test]
fn subscriber_sees_its_own_arrival() {
    let mut r = Registry::new();
    let a = ws_subscribe(&mut r, S1, "alice");
    assert_eq!(a, 1);
    assert_eq!(r.take_outbound(a), vec![notice("alice", WatchEventData::UserJoin)]);
}

#[test]
fn alice_plays_and_bob_chats() {
    let mut r = Registry::new();
    let a = ws_subscribe(&mut r, S1, "alice");
    let b = ws_subscribe(&mut r, S1, "bob");
    r.take_outbound(a);
    r.take_outbound(b);

    let play = client_frame("SetPlaying", WireData::Playback { playing: true, time: 42 });
    receive(&mut r, S1, a, "alice", &play);
    let at_b = r.take_outbound(b);
    assert_eq!(at_b.len(), 1);
    assert_eq!(at_b[0].data, WatchEventData::SetPlaying { playing: true, time: 42 });
    assert_eq!(r.take_outbound(a), vec![]);

    let mut chat = client_frame("ChatMessage", WireData::Text("hi".to_string()));
    chat.user = text("alice");
    receive(&mut r, S1, b, "bob", &chat);
    for id in [a, b] {
        let got = r.take_outbound(id);
        assert_eq!(got.len(), 1);
        assert_eq!(got[0].user, Some("bob".to_string()));
        assert_eq!(got[0].data, WatchEventData::ChatMessage("hi".to_string()));
    }
}

#[test]
fn judge_of_nothing_is_discard() {
    assert_eq!(ws_judge(None, "alice"), Verdict::Discard);
    assert_eq!(
        ws_judge(Some(plain(WatchEventData::UserJoin)), "alice"),
        Verdict::Relay(plain(WatchEventData::UserJoin))
    );
}

#[test]
fn malformed_text_is_discarded() {
    let mut r = Registry::new();
    let a = r.register(S1);
    let b = r.register(S1);
    let bad = [
        "",
        "not json",
        "{",
        "[]",
        "42",
        "null",
        "{}",
        "{\"op\":\"Explode\"}",
        "{\"op\":\"SetTime\"}",
        "{\"op\":\"SetTime\",\"data\":-1}",
        "{\"op\":\"SetTime\",\"data\":1.5}",
        "{\"op\":\"SetTime\",\"data\":\"1\"}",
        "{\"op\":\"SetTime\",\"data\":18446744073709551616}",
        "{\"op\":\"SetPlaying\",\"data\":{\"playing\":true}}",
        "{\"op\":\"SetPlaying\",\"data\":{\"playing\":1,\"time\":2}}",
        "{\"op\":\"ChatMessage\",\"data\":5}",
        "{\"op\":\"ChatMessage\",\"data\":\"x\",\"user\":7}",
        "{\"op\":\"ChatMessage\",\"data\":\"x\",\"reflected\":\"no\"}",
        "{\"op\":null,\"data\":1}",
        "{\"data\":1}",
    ];
    for text in bad {
        assert_eq!(decode_text(text), None, "{}", text);
        let verdict = ws_read(text, "alice");
        assert_eq!(verdict, Verdict::Discard, "{}", text);
        ws_settle(&mut r, S1, a, &verdict, true);
    }
    assert_eq!(r.len(), 2);
    assert_eq!(r.take_outbound(a), vec![]);
    assert_eq!(r.take_outbound(b), vec![]);
}

#[test]
fn decode_text_reads_each_payload() {
    assert_eq!(
        decode_text("{\"op\":\"SetPlaying\",\"data\":{\"playing\":true,\"time\":42}}"),
        Some(plain(WatchEventData::SetPlaying { playing: true, time: 42 }))
    );
    assert_eq!(
        decode_text("{\"op\":\"SetTime\",\"data\":18446744073709551615}"),
        Some(plain(WatchEventData::SetTime(u64::MAX)))
    );
    assert_eq!(decode_text("{\"op\":\"UserJoin\"}"), Some(plain(WatchEventData::UserJoin)));
    assert_eq!(
        decode_text("{\"op\":\"UserLeave\",\"data\":null}"),
        Some(plain(WatchEventData::UserLeave))
    );
    assert_eq!(
        decode_text("{\"op\":\"ChatMessage\",\"data\":\"hi \\\"you\\\"\"}"),
        Some(plain(WatchEventData::ChatMessage("hi \"you\"".to_string())))
    );
}

#[test]
fn decode_text_reads_the_envelope_members() {
    assert_eq!(
        decode_text(
            "{\"user\":\"alice\",\"colour\":\"red\",\"op\":\"SetTime\",\"data\":3,\"reflected\":true}"
        ),
        Some(WatchEvent {
            user: Some("alice".to_string()),
            colour: Some("red".to_string()),
            data: WatchEventData::SetTime(3),
            reflected: true,
        })
    );
    assert_eq!(
        decode_text("{\"user\":null,\"op\":\"SetTime\",\"data\":3,\"extra\":[1,2]}"),
        Some(plain(WatchEventData::SetTime(3)))
    );
}

#[test]
fn encode_text_writes_the_members_in_order() {
    assert_eq!(
        encode_text(&plain(WatchEventData::SetTime(42))),
        "{\"op\":\"SetTime\",\"data\":42,\"reflected\":false}"
    );
    assert_eq!(
        encode_text(&plain(WatchEventData::SetPlaying { playing: true, time: 0 })),
        "{\"op\":\"SetPlaying\",\"data\":{\"playing\":true,\"time\":0},\"reflected\":false}"
    );
    assert_eq!(
        encode_text(&notice("alice", WatchEventData::UserJoin)),
        "{\"user\":\"alice\",\"op\":\"UserJoin\",\"reflected\":false}"
    );
    assert_eq!(
        encode_text(&WatchEvent {
            user: None,
            colour: Some("blue".to_string()),
            data: WatchEventData::UserLeave,
            reflected: true,
        }),
        "{\"colour\":\"blue\",\"op\":\"UserLeave\",\"reflected\":true}"
    );
    assert_eq!(
        encode_text(&WatchEvent::new(
            "bob".to_string(),
            "blue".to_string(),
            WatchEventData::ChatMessage("hi".to_string())
        )),
        "{\"user\":\"bob\",\"colour\":\"blue\",\"op\":\"ChatMessage\",\"data\":\"hi\",\"reflected\":false}"
    );
}

#[test]
fn encode_text_escapes_what_json_escapes() {
    assert_eq!(
        encode_text(&plain(WatchEventData::ChatMessage("a\"b\\c\nd".to_string()))),
        "{\"op\":\"ChatMessage\",\"data\":\"a\\\"b\\\\c\\nd\",\"reflected\":false}"
    );
}

#[test]
fn encode_text_is_json_that_serde_json_reads() {
    let e = WatchEvent::new(
        "al\"ice".to_string(),
        "red".to_string(),
        WatchEventData::SetPlaying { playing: false, time: 7 },
    );
    let v: serde_json::Value = serde_json::from_str(&encode_text(&e)).unwrap();
    assert_eq!(v.get("user").and_then(|u| u.as_str()), Some("al\"ice"));
    assert_eq!(v.get("colour").and_then(|u| u.as_str()), Some("red"));
    assert_eq!(v.get("op").and_then(|u| u.as_str()), Some("SetPlaying"));
    assert_eq!(v.get("reflected").and_then(|u| u.as_bool()), Some(false));
    let data = v.get("data").unwrap();
    assert_eq!(data.get("playing").and_then(|u| u.as_bool()), Some(false));
    assert_eq!(data.get("time").and_then(|u| u.as_u64()), Some(7));
}

#[test]
fn decode_text_inverts_encode_text() {
    let payloads = vec![
        WatchEventData::SetPlaying { playing: true, time: 42 },
        WatchEventData::SetPlaying { playing: false, time: u64::MAX },
        WatchEventData::SetTime(0),
        WatchEventData::UserJoin,
        WatchEventData::UserLeave,
        WatchEventData::ChatMessage("tab\there, \"quotes\", \u{e9}\u{4e16}".to_string()),
        WatchEventData::ChatMessage(String::new()),
    ];
    for p in payloads {
        let bare = plain(p.clone());
        assert_eq!(decode_text(&encode_text(&bare)), Some(bare));
        let signed = WatchEvent::new("alice".to_string(), "red".to_string(), p.clone());
        assert_eq!(decode_text(&encode_text(&signed)), Some(signed));
        let reflected = WatchEvent { user: Some(String::new()), colour: None, data: p, reflected: true };
        assert_eq!(decode_text(&encode_text(&reflected)), Some(reflected));
    }
}

#[test]
fn text_frames_drive_the_hub() {
    let mut r = Registry::new();
    let a = ws_subscribe(&mut r, S1, "alice");
    let b = ws_subscribe(&mut r, S1, "bob");
    r.take_outbound(a);
    r.take_outbound(b);
    let verdict = ws_read("{\"op\":\"ChatMessage\",\"data\":\"hi\",\"user\":\"alice\"}", "bob");
    ws_settle(&mut r, S1, b, &verdict, false);
    for id in [a, b] {
        let got = r.take_outbound(id);
        assert_eq!(got.len(), 1);
        assert_eq!(
            encode_text(&got[0]),
            "{\"user\":\"bob\",\"op\":\"ChatMessage\",\"data\":\"hi\",\"reflected\":false}"
        );
    }
}
