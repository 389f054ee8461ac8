use wideboi::bridge::{
    editor_url, init_script, init_script_with_polling, packet_script, poll_reply, INIT_SCRIPT_HEAD,
    POLL_SCRIPT_HEAD, POLL_SCRIPT_TAIL,
};
use wideboi::geometry::{EditorGeometry, EDITOR_HEIGHT, EDITOR_WIDTH, MAX_HEIGHT, MAX_WIDTH, MIN_HEIGHT, MIN_WIDTH};
use wideboi::ipc::{decide, decide_raw, IpcAction, IpcMessage, JsonValue, ParamInput};
use wideboi::param_id::{choice_index, ParamId};
use wideboi::token::token_from_contents;
use wideboi::typed::{number_text, UnitKind};

fn msg(kind: &str) -> IpcMessage<f64> {
    IpcMessage {
        kind: Some(kind.to_string()),
        id: None,
        value: None,
        width: None,
        height: None,
        token: None,
    }
}

const ALL: [ParamId; 10] = [
    ParamId::Width,
    ParamId::WidthLow,
    ParamId::WidthMid,
    ParamId::WidthHigh,
    ParamId::XoverLoHz,
    ParamId::XoverHiHz,
    ParamId::MonoBassOn,
    ParamId::MonoBassHz,
    ParamId::OutputGainDb,
    ParamId::Bypass,
];

#[test]
fn param_ids_round_trip() {
    for p in ALL {
        assert_eq!(ParamId::from_text_id(p.text_id()), Some(p));
    }
    assert_eq!(ParamId::Width.text_id(), "width");
    assert_eq!(ParamId::OutputGainDb.text_id(), "output_gain_db");
    assert_eq!(ParamId::from_text_id("xover_hi_hz"), Some(ParamId::XoverHiHz));
    assert_eq!(ParamId::from_text_id("Width"), None);
    assert_eq!(ParamId::from_text_id("rev_type"), None);
    assert_eq!(ParamId::from_text_id(""), None);
}

#[test]
fn choice_texts_map_to_indices() {
    assert_eq!(choice_index("rev_type", "hall"), Some(1));
    assert_eq!(choice_index("lfo_shape", "s&h"), Some(4));
    assert_eq!(choice_index("routing", "dly_to_rev"), Some(2));
    assert_eq!(choice_index("sc_source", "internal"), Some(0));
    assert_eq!(choice_index("lfo_target", "filter"), Some(3));
    assert_eq!(choice_index("rev_type", "sine"), None);
    assert_eq!(choice_index("width", "hall"), None);
}

#[test]
fn typed_numbers_are_read_for_every_control() {
    let read = |k, s| number_text(k, s);
    assert_eq!(read(UnitKind::Percent, "150% x"), Some("150".to_string()));
    assert_eq!(read(UnitKind::Percent, "150%"), Some("150".to_string()));
    assert_eq!(read(UnitKind::Percent, " 150 "), Some("150".to_string()));
    assert_eq!(read(UnitKind::Percent, "150%%"), Some("150".to_string()));
    assert_eq!(read(UnitKind::Hertz, "200 Hz"), Some("200".to_string()));
    assert_eq!(read(UnitKind::Hertz, "200Hz"), Some("200".to_string()));
    assert_eq!(read(UnitKind::Hertz, "200"), Some("200".to_string()));
    assert_eq!(read(UnitKind::Decibel, "+1.5 dB"), Some("+1.5".to_string()));
    assert_eq!(read(UnitKind::Decibel, "-24.0"), Some("-24.0".to_string()));
    // Not a number: handed on for the caller's parse to refuse.
    assert_eq!(read(UnitKind::Hertz, "loud"), Some("loud".to_string()));
    assert_eq!(read(UnitKind::Decibel, "   "), Some(String::new()));
}

#[test]
fn width_with_unit_but_no_percent_is_refused() {
    assert_eq!(number_text(UnitKind::Percent, "1.5 x"), None);
    assert_eq!(number_text(UnitKind::Percent, "1.5x"), None);
    assert_eq!(number_text(UnitKind::Percent, "x"), None);
    assert_eq!(number_text(UnitKind::Percent, "150 % x"), Some("150".to_string()));
}

#[test]
fn displayed_values_read_back() {
    for (k, number) in [
        (UnitKind::Percent, "250"),
        (UnitKind::Hertz, "3000"),
        (UnitKind::Decibel, "-6.5"),
    ] {
        let shown = format!("{}{}{}", number, k.format_suffix(), k.unit_text());
        assert_eq!(number_text(k, &shown), Some(number.to_string()));
        let unitless = format!("{}{}", number, k.format_suffix());
        assert_eq!(number_text(k, &unitless), Some(number.to_string()));
        assert_eq!(number_text(k, number), Some(number.to_string()));
    }
}

#[test]
fn unit_kinds_of_params() {
    assert_eq!(ParamId::WidthMid.unit_kind(), Some(UnitKind::Percent));
    assert_eq!(ParamId::XoverLoHz.unit_kind(), Some(UnitKind::Hertz));
    assert_eq!(ParamId::MonoBassHz.unit_kind(), Some(UnitKind::Hertz));
    assert_eq!(ParamId::OutputGainDb.unit_kind(), Some(UnitKind::Decibel));
    assert_eq!(ParamId::Bypass.unit_kind(), None);
    assert!(UnitKind::Percent.in_percent());
    assert!(!UnitKind::Hertz.in_percent());
}

#[test]
fn token_file_contents() {
    assert_eq!(token_from_contents("  abc.def \n"), Some("abc.def".to_string()));
    assert_eq!(token_from_contents("tok"), Some("tok".to_string()));
    assert_eq!(token_from_contents("\u{a0}tok\u{3000}"), Some("tok".to_string()));
    assert_eq!(token_from_contents(" \n\t "), None);
    assert_eq!(token_from_contents(""), None);
}

#[test]
fn editor_address() {
    assert_eq!(
        editor_url(Some("T0K"), "0.4.2"),
        "https://wideboi.hardwavestudios.com/vst/wideboi?token=T0K&v=0.4.2"
    );
    assert_eq!(
        editor_url(None, "0.4.2"),
        "https://wideboi.hardwavestudios.com/vst/wideboi?v=0.4.2"
    );
}

#[test]
fn scripts_are_assembled() {
    let js = init_script("1.2.3", "abcd", "{\"bpm\":150}");
    assert!(js.starts_with(INIT_SCRIPT_HEAD));
    assert!(js.contains("window.__HARDWAVE_VST_VERSION = '1.2.3';"));
    assert!(js.contains("window.__HARDWAVE_MACHINE_ID = 'abcd';"));
    assert!(js.contains("var _init = {\"bpm\":150};"));
    let polled = init_script_with_polling("base", 8080);
    assert_eq!(polled, format!("base\n{}8080{}", POLL_SCRIPT_HEAD, POLL_SCRIPT_TAIL));
    let zero = init_script_with_polling("", 0);
    assert_eq!(zero, format!("\n{}0{}", POLL_SCRIPT_HEAD, POLL_SCRIPT_TAIL));
    assert_eq!(
        packet_script("{\"a\":1}"),
        "window.__onWbPacket && window.__onWbPacket({\"a\":1})"
    );
}

#[test]
fn poll_reply_states_body_length_in_bytes() {
    assert_eq!(
        poll_reply("{}"),
        "HTTP/1.1 200 OK\r\nAccess-Control-Allow-Origin: *\r\nContent-Type: application/json\r\nContent-Length: 2\r\n\r\n{}"
    );
    let r = poll_reply("\"é\"");
    assert!(r.contains("Content-Length: 4\r\n\r\n\"é\""));
    let big = "x".repeat(12345);
    assert!(poll_reply(&big).contains("Content-Length: 12345\r\n"));
}

#[test]
fn geometry_bounds() {
    let mut g = EditorGeometry::new();
    assert_eq!(g.size(), (EDITOR_WIDTH, EDITOR_HEIGHT));
    assert!(g.try_resize(800, 600));
    assert_eq!(g.size(), (800, 600));
    assert!(!g.try_resize(599, 600));
    assert!(!g.try_resize(800, MAX_HEIGHT + 1));
    assert_eq!(g.size(), (800, 600));
    assert!(g.try_resize(MIN_WIDTH, MAX_HEIGHT));
    assert_eq!(g.set_clamped(10, 100_000), (MIN_WIDTH, MAX_HEIGHT));
    assert_eq!(g.set_clamped(100_000, 10), (MAX_WIDTH, MIN_HEIGHT));
    assert_eq!(g.size(), (MAX_WIDTH, MIN_HEIGHT));
    assert_eq!(g.set_clamped(1000, 500), (1000, 500));
}

#[test]
fn set_param_with_number_bool_and_text() {
    let mut m = msg("set_param");
    m.id = Some("width_high".to_string());
    m.value = Some(JsonValue::Number(2.5));
    assert!(matches!(
        decide(m),
        IpcAction::SetParam { param: ParamId::WidthHigh, value: ParamInput::Number(v) } if v == 2.5
    ));

    let mut m = msg("set_param");
    m.id = Some("bypass".to_string());
    m.value = Some(JsonValue::Bool(true));
    assert!(matches!(
        decide(m),
        IpcAction::SetParam { param: ParamId::Bypass, value: ParamInput::Whole(1) }
    ));

    let mut m = msg("set_param");
    m.id = Some("mono_bass_on".to_string());
    m.value = Some(JsonValue::Bool(false));
    assert!(matches!(
        decide(m),
        IpcAction::SetParam { param: ParamId::MonoBassOn, value: ParamInput::Whole(0) }
    ));
}

#[test]
fn set_param_failures() {
    // A choice text for a choice this plug-in does not have: read, then unknown.
    let mut m = msg("set_param");
    m.id = Some("rev_type".to_string());
    m.value = Some(JsonValue::Text("plate".to_string()));
    assert!(matches!(decide(m), IpcAction::UnknownParam { id: Some(ref s) } if s == "rev_type"));

    // A text that is no choice: unreadable.
    let mut m = msg("set_param");
    m.id = Some("width".to_string());
    m.value = Some(JsonValue::Text("wide".to_string()));
    assert!(matches!(decide(m), IpcAction::UnreadableValue { id: Some(ref s) } if s == "width"));

    // No value, or a null one: unreadable.
    let mut m = msg("set_param");
    m.id = Some("width".to_string());
    assert!(matches!(decide(m), IpcAction::UnreadableValue { .. }));
    let mut m = msg("set_param");
    m.id = Some("width".to_string());
    m.value = Some(JsonValue::Other);
    assert!(matches!(decide(m), IpcAction::UnreadableValue { .. }));

    // A number for no parameter.
    let mut m = msg("set_param");
    m.value = Some(JsonValue::Number(1.0));
    assert!(matches!(decide(m), IpcAction::UnknownParam { id: None }));
}

#[test]
fn other_message_kinds() {
    assert!(matches!(decide(msg("release_focus")), IpcAction::ReleaseFocus));
    assert!(matches!(decide(msg("clear_token")), IpcAction::ClearToken));

    let mut m = msg("save_token");
    m.token = Some("abc".to_string());
    assert!(matches!(decide(m), IpcAction::SaveToken { token: Some(ref t) } if t == "abc"));
    assert!(matches!(decide(msg("save_token")), IpcAction::SaveToken { token: None }));

    assert!(matches!(decide(msg("launch")), IpcAction::UnknownKind { kind: Some(ref k) } if k == "launch"));
    let mut m = msg("x");
    m.kind = None;
    assert!(matches!(decide(m), IpcAction::UnknownKind { kind: None }));
}

#[test]
fn resize_reads_sizes_as_the_editor_does() {
    let mut m = msg("resize");
    m.width = Some(1024);
    m.height = Some(768);
    assert!(matches!(decide(m), IpcAction::Resize { width: 1024, height: 768 }));

    // Missing sizes read as 0; sizes are cut to 32 bits.
    let mut m = msg("resize");
    m.width = Some((1u64 << 32) + 1280);
    assert!(matches!(decide(m), IpcAction::Resize { width: 1280, height: 0 }));
}

#[test]
fn raw_messages_are_read_then_decided() {
    let a = decide_raw(r#"{"type":"set_param","id":"width_low","value":0.5}"#);
    assert!(matches!(
        a,
        Some(IpcAction::SetParam { param: ParamId::WidthLow, value: ParamInput::Number(ref n) }) if n == "0.5"
    ));
    let a = decide_raw(r#"{"type":"set_param","id":"xover_lo_hz","value":250}"#);
    assert!(matches!(
        a,
        Some(IpcAction::SetParam { param: ParamId::XoverLoHz, value: ParamInput::Number(ref n) }) if n == "250"
    ));
    let a = decide_raw(r#"{"id":"bypass","type":"set_param","value":true}"#);
    assert!(matches!(
        a,
        Some(IpcAction::SetParam { param: ParamId::Bypass, value: ParamInput::Whole(1) })
    ));
    let a = decide_raw(r#"{"type":"set_param","id":"width","value":null}"#);
    assert!(matches!(a, Some(IpcAction::UnreadableValue { id: Some(ref s) }) if s == "width"));
    let a = decide_raw(r#"{"type":"resize","width":1024,"height":768}"#);
    assert!(matches!(a, Some(IpcAction::Resize { width: 1024, height: 768 })));
    // A negative or fractional size is not an unsigned integer: read as 0.
    let a = decide_raw(r#"{"type":"resize","width":-5,"height":1.5}"#);
    assert!(matches!(a, Some(IpcAction::Resize { width: 0, height: 0 })));
    let a = decide_raw(r#"{"type":"save_token","token":"abc"}"#);
    assert!(matches!(a, Some(IpcAction::SaveToken { token: Some(ref t) }) if t == "abc"));
    let a = decide_raw(r#"{"type":"save_token","token":7}"#);
    assert!(matches!(a, Some(IpcAction::SaveToken { token: None })));
    let a = decide_raw(r#"{"type":"release_focus"}"#);
    assert!(matches!(a, Some(IpcAction::ReleaseFocus)));
    // Valid JSON that is not an object has no type.
    let a = decide_raw("[1, 2]");
    assert!(matches!(a, Some(IpcAction::UnknownKind { kind: None })));
    // Not JSON at all.
    assert!(decide_raw("set_param width 1").is_none());
    assert!(decide_raw("").is_none());
}
