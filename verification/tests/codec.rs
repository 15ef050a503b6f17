use nostr_relay::error::Error;
use nostr_relay::event::{Event, EventCmd};
use nostr_relay::message::{
    apply_limit, classify, convert_to_msg, decode_message, find_member, read_event, read_filter,
    read_number_list, read_tag_list, read_text_list, tag_letter, CloseCmd, CommandKind,
    NostrMessage,
};
use nostr_relay::subscription::{ReqFilter, Subscription, TagFilter};

const EVENT_JSON: &str = r#"{"id":"aa","pubkey":"bb","created_at":100,"kind":1,"tags":[["e","x"],["p","y","z"]],"content":"hi","sig":"cc"}"#;

fn sample_event() -> Event {
    Event {
        id: "aa".to_string(),
        pubkey: "bb".to_string(),
        created_at: 100,
        kind: 1,
        tags: vec![
            vec!["e".to_string(), "x".to_string()],
            vec!["p".to_string(), "y".to_string(), "z".to_string()],
        ],
        content: "hi".to_string(),
        sig: "cc".to_string(),
    }
}

fn kinds_filter(kinds: Vec<u64>) -> ReqFilter {
    let mut f = ReqFilter::new();
    f.kinds = Some(kinds);
    f
}

#[test]
fn event_frame_is_decoded() {
    let frame = format!("[\"EVENT\",{}]", EVENT_JSON);
    let msg = convert_to_msg(&frame, None);
    assert_eq!(msg, Ok(NostrMessage::EventMsg(EventCmd { event: sample_event() })));
}

#[test]
fn req_frame_is_decoded() {
    let msg = convert_to_msg(r#"["REQ","x",{"kinds":[1]}]"#, None);
    assert_eq!(
        msg,
        Ok(NostrMessage::SubMsg(Subscription {
            id: "x".to_string(),
            filters: vec![kinds_filter(vec![1])],
        }))
    );
}

#[test]
fn req_frame_with_several_filters() {
    let msg = convert_to_msg(
        r#"["REQ","sub",{"kinds":[1,7]},{"authors":["bb"],"since":5,"until":9,"limit":3}]"#,
        None,
    );
    let mut second = ReqFilter::new();
    second.authors = Some(vec!["bb".to_string()]);
    second.since = Some(5);
    second.until = Some(9);
    second.limit = Some(3);
    assert_eq!(
        msg,
        Ok(NostrMessage::SubMsg(Subscription {
            id: "sub".to_string(),
            filters: vec![kinds_filter(vec![1, 7]), second],
        }))
    );
}

#[test]
fn close_frame_is_decoded() {
    let msg = convert_to_msg(r#"["CLOSE","x"]"#, None);
    assert_eq!(msg, Ok(NostrMessage::CloseMsg(CloseCmd { id: "x".to_string() })));
}

#[test]
fn text_that_is_no_json_is_a_parse_error() {
    assert_eq!(convert_to_msg("hello", None), Err(Error::ProtoParseError));
    assert_eq!(convert_to_msg("", None), Err(Error::ProtoParseError));
    assert_eq!(convert_to_msg("[", None), Err(Error::ProtoParseError));
}

#[test]
fn json_that_is_no_command_is_a_parse_error() {
    assert_eq!(convert_to_msg("[]", None), Err(Error::ProtoParseError));
    assert_eq!(convert_to_msg("{}", None), Err(Error::ProtoParseError));
    assert_eq!(convert_to_msg(r#"["NOPE","x"]"#, None), Err(Error::ProtoParseError));
    assert_eq!(convert_to_msg(r#"[1,"x"]"#, None), Err(Error::ProtoParseError));
    assert_eq!(convert_to_msg(r#"["close","x"]"#, None), Err(Error::ProtoParseError));
}

#[test]
fn req_without_a_filter_is_a_parse_error() {
    assert_eq!(convert_to_msg(r#"["REQ","x"]"#, None), Err(Error::ProtoParseError));
    assert_eq!(convert_to_msg(r#"["REQ"]"#, None), Err(Error::ProtoParseError));
}

#[test]
fn req_with_a_name_that_is_no_string_is_a_parse_error() {
    assert_eq!(convert_to_msg(r#"["REQ",7,{}]"#, None), Err(Error::ProtoParseError));
}

#[test]
fn req_with_a_malformed_filter_is_a_parse_error() {
    assert_eq!(convert_to_msg(r#"["REQ","x",{"kinds":"1"}]"#, None), Err(Error::ProtoParseError));
    assert_eq!(convert_to_msg(r#"["REQ","x",{"since":-1}]"#, None), Err(Error::ProtoParseError));
    assert_eq!(convert_to_msg(r#"["REQ","x",[1]]"#, None), Err(Error::ProtoParseError));
    assert_eq!(
        convert_to_msg(r#"["REQ","x",{"kinds":[1]},{"ids":[1]}]"#, None),
        Err(Error::ProtoParseError)
    );
    assert_eq!(convert_to_msg(r##"["REQ","x",{"#e":"a"}]"##, None), Err(Error::ProtoParseError));
}

#[test]
fn close_with_extra_items_is_a_parse_error() {
    assert_eq!(convert_to_msg(r#"["CLOSE","x","y"]"#, None), Err(Error::ProtoParseError));
    assert_eq!(convert_to_msg(r#"["CLOSE",1]"#, None), Err(Error::ProtoParseError));
}

#[test]
fn event_with_a_missing_field_is_a_parse_error() {
    let frame = r#"["EVENT",{"id":"aa","pubkey":"bb","created_at":100,"kind":1,"tags":[],"content":"hi"}]"#;
    assert_eq!(convert_to_msg(frame, None), Err(Error::ProtoParseError));
}

#[test]
fn event_with_a_field_of_the_wrong_type_is_a_parse_error() {
    let frame = r#"["EVENT",{"id":"aa","pubkey":"bb","created_at":"now","kind":1,"tags":[],"content":"hi","sig":"cc"}]"#;
    assert_eq!(convert_to_msg(frame, None), Err(Error::ProtoParseError));
    let frame = r#"["EVENT",{"id":"aa","pubkey":"bb","created_at":1,"kind":1,"tags":[["e",2]],"content":"hi","sig":"cc"}]"#;
    assert_eq!(convert_to_msg(frame, None), Err(Error::ProtoParseError));
}

#[test]
fn event_over_the_limit_is_too_long() {
    let frame = format!("[\"EVENT\",{}]", EVENT_JSON);
    let len = frame.len();
    assert_eq!(convert_to_msg(&frame, Some(len - 1)), Err(Error::EventMaxLengthError(len)));
    assert_eq!(convert_to_msg(&frame, Some(10)), Err(Error::EventMaxLengthError(len)));
}

#[test]
fn event_at_the_limit_is_accepted() {
    let frame = format!("[\"EVENT\",{}]", EVENT_JSON);
    let len = frame.len();
    assert!(convert_to_msg(&frame, Some(len)).is_ok());
    assert!(convert_to_msg(&frame, Some(len + 1)).is_ok());
}

#[test]
fn a_limit_of_zero_is_no_limit() {
    let frame = format!("[\"EVENT\",{}]", EVENT_JSON);
    assert!(convert_to_msg(&frame, Some(0)).is_ok());
    assert!(convert_to_msg(&frame, None).is_ok());
}

#[test]
fn the_length_is_counted_in_bytes() {
    let json = r#"{"id":"aa","pubkey":"bb","created_at":100,"kind":1,"tags":[],"content":"äöü","sig":"cc"}"#;
    let frame = format!("[\"EVENT\",{}]", json);
    let bytes = frame.len();
    let chars = frame.chars().count();
    assert_eq!(bytes, chars + 3);
    assert!(convert_to_msg(&frame, Some(bytes)).is_ok());
    assert_eq!(convert_to_msg(&frame, Some(chars)), Err(Error::EventMaxLengthError(bytes)));
}

#[test]
fn the_limit_holds_for_event_frames_only() {
    assert!(convert_to_msg(r#"["REQ","x",{"kinds":[1]}]"#, Some(5)).is_ok());
    assert!(convert_to_msg(r#"["CLOSE","x"]"#, Some(5)).is_ok());
}

#[test]
fn an_oversized_frame_that_is_no_command_is_a_parse_error() {
    assert_eq!(convert_to_msg(r#"["EVENT",{"id":1}]"#, Some(5)), Err(Error::ProtoParseError));
}

#[test]
fn apply_limit_on_given_values() {
    let event = NostrMessage::EventMsg(EventCmd { event: sample_event() });
    let close = NostrMessage::CloseMsg(CloseCmd { id: "x".to_string() });
    assert_eq!(apply_limit(None, 10, None), Err(Error::ProtoParseError));
    assert_eq!(apply_limit(None, 10, Some(5)), Err(Error::ProtoParseError));
    assert_eq!(apply_limit(Some(event.clone()), 10, Some(9)), Err(Error::EventMaxLengthError(10)));
    assert_eq!(apply_limit(Some(event.clone()), 10, Some(10)), Ok(event.clone()));
    assert_eq!(apply_limit(Some(event.clone()), 10, Some(0)), Ok(event.clone()));
    assert_eq!(apply_limit(Some(event.clone()), 10, None), Ok(event));
    assert_eq!(apply_limit(Some(close.clone()), 10, Some(9)), Ok(close));
}

#[test]
fn classify_by_tag_and_length() {
    assert_eq!(classify("EVENT", 2), Some(CommandKind::Event));
    assert_eq!(classify("EVENT", 1), None);
    assert_eq!(classify("EVENT", 3), None);
    assert_eq!(classify("REQ", 3), Some(CommandKind::Req));
    assert_eq!(classify("REQ", 9), Some(CommandKind::Req));
    assert_eq!(classify("REQ", 2), None);
    assert_eq!(classify("CLOSE", 2), Some(CommandKind::Close));
    assert_eq!(classify("CLOSE", 3), None);
    assert_eq!(classify("OTHER", 2), None);
    assert_eq!(classify("", 2), None);
}

#[test]
fn decode_message_gives_nothing_for_what_is_no_command() {
    assert_eq!(decode_message("nonsense"), None);
    assert_eq!(
        decode_message(r#"["CLOSE","abc"]"#),
        Some(NostrMessage::CloseMsg(CloseCmd { id: "abc".to_string() }))
    );
}

#[test]
fn strings_are_unescaped() {
    let msg = convert_to_msg(r#"["CLOSE","a\"b\nc"]"#, None);
    assert_eq!(msg, Ok(NostrMessage::CloseMsg(CloseCmd { id: "a\"b\nc".to_string() })));
}

#[test]
fn white_space_between_items_is_passed_over() {
    let msg = convert_to_msg(" [ \"CLOSE\" ,\n \"x\" ] ", None);
    assert_eq!(msg, Ok(NostrMessage::CloseMsg(CloseCmd { id: "x".to_string() })));
}

#[test]
fn filter_with_tag_conditions() {
    let f = read_filter(r##"{"#e":["a","b"],"#p":["c"],"kinds":[4]}"##).unwrap();
    assert_eq!(f.kinds, Some(vec![4]));
    assert_eq!(
        f.tags,
        vec![
            TagFilter { name: 'e', values: vec!["a".to_string(), "b".to_string()] },
            TagFilter { name: 'p', values: vec!["c".to_string()] },
        ]
    );
}

#[test]
fn filter_passes_over_unknown_members() {
    let f = read_filter(r##"{"search":"x","#long":["a"],"#":["b"],"until":7}"##).unwrap();
    let mut expected = ReqFilter::new();
    expected.until = Some(7);
    assert_eq!(f, expected);
}

#[test]
fn empty_filter_has_no_conditions() {
    assert_eq!(read_filter("{}"), Some(ReqFilter::new()));
    assert_eq!(read_filter("[]"), None);
    assert_eq!(read_filter("7"), None);
}

#[test]
fn filter_with_empty_lists() {
    let f = read_filter(r#"{"ids":[],"kinds":[]}"#).unwrap();
    assert_eq!(f.ids, Some(vec![]));
    assert_eq!(f.kinds, Some(vec![]));
    assert_eq!(f.authors, None);
}

#[test]
fn read_event_reads_all_fields() {
    assert_eq!(read_event(EVENT_JSON), Some(sample_event()));
    assert_eq!(read_event("{}"), None);
    assert_eq!(read_event("[]"), None);
}

#[test]
fn read_lists() {
    assert_eq!(read_text_list(r#"["a","b"]"#), Some(vec!["a".to_string(), "b".to_string()]));
    assert_eq!(read_text_list("[]"), Some(vec![]));
    assert_eq!(read_text_list(r#"["a",1]"#), None);
    assert_eq!(read_text_list(r#""a""#), None);
    assert_eq!(read_number_list("[1,2,18446744073709551615]"), Some(vec![1, 2, u64::MAX]));
    assert_eq!(read_number_list("[0, 7 ,10]"), Some(vec![0, 7, 10]));
    assert_eq!(read_number_list("[1,-2]"), None);
    assert_eq!(read_number_list("[1.0]"), None);
    assert_eq!(read_number_list("[1e2]"), None);
    assert_eq!(read_number_list("[\"1\"]"), None);
    assert_eq!(read_number_list("[null]"), None);
    assert_eq!(read_number_list("[true]"), None);
    assert_eq!(read_number_list("[1.5]"), None);
    assert_eq!(read_number_list("[18446744073709551616]"), None);
    assert_eq!(
        read_tag_list(r#"[["e","x"],[]]"#),
        Some(vec![vec!["e".to_string(), "x".to_string()], vec![]])
    );
    assert_eq!(read_tag_list(r#"[["e"],"x"]"#), None);
}

#[test]
fn find_member_takes_the_first_of_a_name() {
    let members = vec![
        ("a".to_string(), "1".to_string()),
        ("b".to_string(), "2".to_string()),
        ("a".to_string(), "3".to_string()),
    ];
    assert_eq!(find_member(&members, "a"), Some(&"1".to_string()));
    assert_eq!(find_member(&members, "b"), Some(&"2".to_string()));
    assert_eq!(find_member(&members, "c"), None);
    assert_eq!(find_member(&vec![], "a"), None);
}

#[test]
fn tag_letter_of_keys() {
    assert_eq!(tag_letter("#e"), Some('e'));
    assert_eq!(tag_letter("#ß"), Some('ß'));
    assert_eq!(tag_letter("#"), None);
    assert_eq!(tag_letter("#ee"), None);
    assert_eq!(tag_letter("ee"), None);
    assert_eq!(tag_letter(""), None);
}
