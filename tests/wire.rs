use stream_gifting::codec::{
    decode_event, decode_gift, decode_request, decode_stream, decode_user, encode_event,
    encode_gift, encode_request, encode_user,
};
use stream_gifting::model::{DecodeError, Event, Gift, Request, RequestType, User};
use stream_gifting::scalars::{Elapsed, Url, UtcTime, Uuid};
use stream_gifting::tagged::{decode_date, encode_date};
use stream_gifting::tree::{get_entry, Tree};

fn from_json(v: &serde_json::Value) -> Tree {
    match v {
        serde_json::Value::Null => Tree::Null,
        serde_json::Value::Bool(b) => Tree::Bool(*b),
        serde_json::Value::Number(n) => match (n.as_u64(), n.as_i64()) {
            (Some(u), _) => Tree::Int(u as i128),
            (None, Some(i)) => Tree::Int(i as i128),
            _ => Tree::Real(n.to_string()),
        },
        serde_json::Value::String(s) => Tree::Str(s.clone()),
        serde_json::Value::Array(items) => Tree::Array(items.iter().map(from_json).collect()),
        serde_json::Value::Object(map) => Tree::Object(
            map.iter().map(|(k, v)| (k.clone(), from_json(v))).collect(),
        ),
    }
}

fn to_json(t: &Tree) -> serde_json::Value {
    match t {
        Tree::Null => serde_json::Value::Null,
        Tree::Bool(b) => serde_json::Value::Bool(*b),
        Tree::Int(n) => serde_json::Value::Number(serde_json::Number::from(*n as i64)),
        Tree::Real(s) => serde_json::from_str(s).unwrap(),
        Tree::Str(s) => serde_json::Value::String(s.clone()),
        Tree::Array(items) => serde_json::Value::Array(items.iter().map(to_json).collect()),
        Tree::Object(fields) => serde_json::Value::Object(
            fields.iter().map(|(k, v)| (k.clone(), to_json(v))).collect(),
        ),
    }
}

fn parse(text: &str) -> Tree {
    from_json(&serde_json::from_str::<serde_json::Value>(text).unwrap())
}

const REQUEST: &str = r#"{
  "type": "success",
  "stream": {
    "user_id": "8d3e3a5c-5f4b-4a8e-9c36-9f4f1f0d2b7a",
    "is_private": false,
    "settings": 3,
    "shard_url": "https://shard-1.example.com/streams",
    "public_tariff": {"id": 1, "price": 100, "duration": "1h", "description": "test public tariff"},
    "private_tariff": {"client_price": 250, "duration": "15m", "description": "test private tariff"}
  },
  "gifts": [
    {"id": 1, "price": 2, "description": "flower"},
    {"id": 2, "price": 3, "description": "heart"}
  ],
  "debug": {"duration": "1234ms", "at": "2024-11-29T10:00:00+02:00"}
}"#;

fn request_with(edit: impl Fn(&mut serde_json::Value)) -> Tree {
    let mut v: serde_json::Value = serde_json::from_str(REQUEST).unwrap();
    edit(&mut v);
    from_json(&v)
}

fn str_value(s: &str) -> serde_json::Value {
    serde_json::Value::String(s.to_string())
}

fn sample_request() -> Request {
    decode_request(&parse(REQUEST)).unwrap()
}

fn keys(t: &Tree) -> Vec<String> {
    match t {
        Tree::Object(fields) => fields.iter().map(|(k, _)| k.clone()).collect(),
        _ => Vec::new(),
    }
}

#[test]
fn test() {
    let request = decode_request(&parse(REQUEST)).unwrap();
    assert_eq!(request.stream.is_private, false);
    assert_eq!(request.stream.public_tariff.id, 1);
    assert_eq!(request.stream.private_tariff.description, "test private tariff");
    assert_eq!(request.gifts.len(), 2);
    assert_eq!(request.gifts[0].price, 2);
}

#[test]
fn scenario_reads_every_field() {
    let r = sample_request();
    assert_eq!(r.request_type, RequestType::Success);
    assert_eq!(r.stream.user_id.value, 0x8d3e3a5c_5f4b_4a8e_9c36_9f4f1f0d2b7a);
    assert_eq!(r.stream.settings, 3);
    assert_eq!(r.stream.shard_url.text, "https://shard-1.example.com/streams");
    assert_eq!(r.stream.public_tariff.duration, Elapsed { secs: 3600, nanos: 0 });
    assert_eq!(r.stream.private_tariff.client_price, 250);
    assert_eq!(r.stream.private_tariff.duration, Elapsed { secs: 900, nanos: 0 });
    assert_eq!(r.gifts[1].description, "heart");
    assert_eq!(r.debug.duration, Elapsed { secs: 1, nanos: 234_000_000 });
    assert_eq!(r.debug.at.text, "2024-11-29T08:00:00Z");
}

#[test]
fn request_round_trips_through_json_text() {
    let r = sample_request();
    let text = serde_json::to_string(&to_json(&encode_request(&r))).unwrap();
    let back = decode_request(&parse(&text)).unwrap();
    assert_eq!(back.request_type, r.request_type);
    assert_eq!(back.stream.user_id, r.stream.user_id);
    assert_eq!(back.stream.is_private, r.stream.is_private);
    assert_eq!(back.stream.settings, r.stream.settings);
    assert_eq!(back.stream.shard_url.text, r.stream.shard_url.text);
    assert_eq!(back.stream.public_tariff.duration, r.stream.public_tariff.duration);
    assert_eq!(back.stream.private_tariff.description, r.stream.private_tariff.description);
    assert_eq!(back.gifts.len(), 2);
    assert_eq!(back.gifts[0].description, "flower");
    assert_eq!(back.gifts[1].id, 2);
    assert_eq!(back.debug.duration, r.debug.duration);
    assert_eq!(back.debug.at.text, r.debug.at.text);
}

#[test]
fn request_encodes_wire_values() {
    let t = encode_request(&sample_request());
    let stream = match &t {
        Tree::Object(fields) => get_entry(fields, "stream").unwrap(),
        _ => panic!("not an object"),
    };
    let v = to_json(stream);
    assert_eq!(v["user_id"], "8d3e3a5c-5f4b-4a8e-9c36-9f4f1f0d2b7a");
    assert_eq!(v["public_tariff"]["duration"], "1h");
    assert_eq!(v["private_tariff"]["duration"], "15m");
    let all = to_json(&t);
    assert_eq!(all["debug"]["duration"], "1s 234ms");
    assert_eq!(all["debug"]["at"], "2024-11-29T08:00:00Z");
}

#[test]
fn request_type_goes_out_as_type() {
    let t = encode_request(&sample_request());
    assert_eq!(keys(&t), vec!["type", "stream", "gifts", "debug"]);
    assert!(!keys(&t).contains(&"request_type".to_string()));
    assert_eq!(to_json(&t)["type"], "success");
}

#[test]
fn stream_fields_keep_declaration_order() {
    let t = encode_request(&sample_request());
    let stream = match &t {
        Tree::Object(fields) => get_entry(fields, "stream").unwrap(),
        _ => panic!("not an object"),
    };
    assert_eq!(
        keys(stream),
        vec!["user_id", "is_private", "settings", "shard_url", "public_tariff", "private_tariff"]
    );
}

#[test]
fn request_type_tags_are_closed() {
    assert_eq!(RequestType::from_tag("success"), Ok(RequestType::Success));
    assert_eq!(RequestType::from_tag("Success"), Err(DecodeError::TypeMismatch));
    assert_eq!(RequestType::from_tag("failure"), Err(DecodeError::TypeMismatch));
    assert_eq!(RequestType::from_tag(""), Err(DecodeError::TypeMismatch));
    assert_eq!(RequestType::Success.tag(), "success");
    let t = request_with(|v| v["type"] = str_value("failure"));
    assert_eq!(decode_request(&t).err(), Some(DecodeError::TypeMismatch));
}

#[test]
fn malformed_user_id_is_a_type_mismatch() {
    let t = request_with(|v| v["stream"]["user_id"] = str_value("not-a-uuid"));
    assert_eq!(decode_request(&t).err(), Some(DecodeError::TypeMismatch));
}

#[test]
fn malformed_shard_url_is_a_type_mismatch() {
    let t = request_with(|v| v["stream"]["shard_url"] = str_value("no scheme here"));
    assert_eq!(decode_request(&t).err(), Some(DecodeError::TypeMismatch));
}

#[test]
fn malformed_duration_is_a_type_mismatch() {
    let t = request_with(|v| v["stream"]["public_tariff"]["duration"] = str_value("fifteen"));
    assert_eq!(decode_request(&t).err(), Some(DecodeError::TypeMismatch));
    let t = request_with(|v| v["debug"]["duration"] = str_value("15 parsecs"));
    assert_eq!(decode_request(&t).err(), Some(DecodeError::TypeMismatch));
}

#[test]
fn malformed_timestamp_is_a_type_mismatch() {
    let t = request_with(|v| v["debug"]["at"] = str_value("yesterday"));
    assert_eq!(decode_request(&t).err(), Some(DecodeError::TypeMismatch));
}

#[test]
fn malformed_stream_gives_no_stream() {
    let v: serde_json::Value = serde_json::from_str(REQUEST).unwrap();
    let mut stream = v["stream"].clone();
    stream["user_id"] = str_value("1234");
    assert_eq!(decode_stream(&from_json(&stream)).err(), Some(DecodeError::TypeMismatch));
}

#[test]
fn missing_shard_url_is_a_missing_field() {
    let t = request_with(|v| {
        v["stream"].as_object_mut().unwrap().remove("shard_url");
    });
    assert_eq!(decode_request(&t).err(), Some(DecodeError::MissingField));
}

#[test]
fn missing_gifts_is_a_missing_field() {
    let t = request_with(|v| {
        v.as_object_mut().unwrap().remove("gifts");
    });
    assert_eq!(decode_request(&t).err(), Some(DecodeError::MissingField));
}

#[test]
fn gifts_that_are_not_a_list_are_a_type_mismatch() {
    let t = request_with(|v| v["gifts"] = str_value("none"));
    assert_eq!(decode_request(&t).err(), Some(DecodeError::TypeMismatch));
}

#[test]
fn empty_gift_list_is_accepted() {
    let t = request_with(|v| v["gifts"] = serde_json::Value::Array(Vec::new()));
    let r = decode_request(&t).unwrap();
    assert_eq!(r.gifts.len(), 0);
    let back = decode_request(&encode_request(&r)).unwrap();
    assert_eq!(back.gifts.len(), 0);
}

#[test]
fn bad_gift_in_list_fails_the_request() {
    let t = request_with(|v| v["gifts"][1]["price"] = str_value("3"));
    assert_eq!(decode_request(&t).err(), Some(DecodeError::TypeMismatch));
}

#[test]
fn price_out_of_range_is_a_type_mismatch() {
    let t = parse(r#"{"id": 1, "price": 4294967296, "description": "big"}"#);
    assert_eq!(decode_gift(&t).err(), Some(DecodeError::TypeMismatch));
    let t = parse(r#"{"id": -1, "price": 1, "description": "neg"}"#);
    assert_eq!(decode_gift(&t).err(), Some(DecodeError::TypeMismatch));
    let t = parse(r#"{"id": 1.5, "price": 1, "description": "half"}"#);
    assert_eq!(decode_gift(&t).err(), Some(DecodeError::TypeMismatch));
    let t = parse(r#"{"id": 4294967295, "price": 0, "description": "max"}"#);
    assert_eq!(decode_gift(&t).unwrap().id, 4294967295);
}

#[test]
fn unknown_fields_are_ignored() {
    let t = parse(r#"{"extra": [1, 2], "id": 7, "price": 9, "description": "rose", "x": null}"#);
    let g = decode_gift(&t).unwrap();
    assert_eq!((g.id, g.price, g.description.as_str()), (7, 9, "rose"));
}

#[test]
fn non_object_is_a_type_mismatch() {
    assert_eq!(decode_gift(&Tree::Int(3)).err(), Some(DecodeError::TypeMismatch));
    assert_eq!(decode_request(&Tree::Null).err(), Some(DecodeError::TypeMismatch));
}

#[test]
fn gift_round_trip() {
    let g = Gift { id: 5, price: 12, description: "balloon".to_string() };
    let back = decode_gift(&encode_gift(&g)).unwrap();
    assert_eq!((back.id, back.price, back.description), (5, 12, "balloon".to_string()));
}

#[test]
fn user_round_trip() {
    let u = User {
        name: "Augusto".to_string(),
        email: "augusto19@example.com".to_string(),
        birthdate: "1999-04-09".to_string(),
    };
    let t = encode_user(&u);
    assert_eq!(keys(&t), vec!["name", "email", "birthdate"]);
    let back = decode_user(&t).unwrap();
    assert_eq!(back.name, "Augusto");
    assert_eq!(back.email, "augusto19@example.com");
    assert_eq!(back.birthdate, "1999-04-09");
}

#[test]
fn missing_user_email_is_a_missing_field() {
    let t = parse(r#"{"name": "A", "birthdate": "2000-01-01"}"#);
    assert_eq!(decode_user(&t).err(), Some(DecodeError::MissingField));
}

#[test]
fn date_codec_adds_and_strips_the_marker() {
    assert_eq!(encode_date("2024-11-29"), "Date: 2024-11-29");
    assert_eq!(decode_date("Date: 2024-11-29"), Ok("2024-11-29".to_string()));
    assert_eq!(decode_date("Date: "), Ok(String::new()));
    assert_eq!(encode_date(""), "Date: ");
}

#[test]
fn date_codec_refuses_text_without_leading_marker() {
    assert_eq!(decode_date("2024-11-29"), Err(DecodeError::CustomCodec));
    assert_eq!(decode_date("x Date: y"), Err(DecodeError::CustomCodec));
    assert_eq!(decode_date("Date:2024"), Err(DecodeError::CustomCodec));
    assert_eq!(decode_date(""), Err(DecodeError::CustomCodec));
}

#[test]
fn event_round_trips_through_json_text() {
    let e = Event { name: "Schmalgauzen concert".to_string(), date: "2024-11-29".to_string() };
    let text = serde_json::to_string(&to_json(&encode_event(&e))).unwrap();
    assert_eq!(text, r#"{"name":"Schmalgauzen concert","date":"Date: 2024-11-29"}"#);
    let back = decode_event(&parse(&text)).unwrap();
    assert_eq!(back.name, "Schmalgauzen concert");
    assert_eq!(back.date, "2024-11-29");
}

#[test]
fn event_with_untagged_date_is_refused() {
    let t = parse(r#"{"name": "gig", "date": "2024-11-29"}"#);
    assert_eq!(decode_event(&t).err(), Some(DecodeError::CustomCodec));
    let t = parse(r#"{"name": "gig"}"#);
    assert_eq!(decode_event(&t).err(), Some(DecodeError::MissingField));
}

#[test]
fn event_date_keeps_a_second_marker() {
    let e = Event { name: "n".to_string(), date: "Date: twice".to_string() };
    let back = decode_event(&encode_event(&e)).unwrap();
    assert_eq!(back.date, "Date: twice");
}

#[test]
fn uuid_text_is_hyphenated_lower_case() {
    let u = Uuid { value: 0x550e8400_e29b_41d4_a716_446655440000 };
    assert_eq!(u.to_text(), "550e8400-e29b-41d4-a716-446655440000");
    assert_eq!(Uuid::parse("550E8400-E29B-41D4-A716-446655440000"), Some(u));
    assert_eq!(Uuid::parse("550e8400e29b41d4a716446655440000"), Some(u));
    assert_eq!(Uuid::parse("550e8400-e29b-41d4-a716"), None);
    assert_eq!(Uuid { value: 0 }.to_text(), "00000000-0000-0000-0000-000000000000");
}

#[test]
fn durations_read_and_write_human_text() {
    assert_eq!(Elapsed::parse("15m"), Some(Elapsed { secs: 900, nanos: 0 }));
    assert_eq!(Elapsed::parse("1h30m"), Some(Elapsed { secs: 5400, nanos: 0 }));
    assert_eq!(Elapsed::parse("1h 30m"), Some(Elapsed { secs: 5400, nanos: 0 }));
    assert_eq!(Elapsed::parse("32ms"), Some(Elapsed { secs: 0, nanos: 32_000_000 }));
    assert_eq!(Elapsed::parse("soon"), None);
    assert_eq!(Elapsed { secs: 5400, nanos: 0 }.to_text(), "1h 30m");
    assert_eq!(Elapsed { secs: 900, nanos: 0 }.to_text(), "15m");
    let d = Elapsed { secs: 93784, nanos: 5 };
    assert_eq!(Elapsed::parse(&d.to_text()), Some(d));
}

#[test]
fn urls_keep_their_serialization() {
    let u = Url::parse("HTTPS://Example.COM").unwrap();
    assert_eq!(u.text, "https://example.com/");
    assert_eq!(Url::parse(&u.text).unwrap().text, u.text);
    assert!(Url::parse("/relative/path").is_none());
}

#[test]
fn timestamps_are_held_in_utc() {
    let t = UtcTime::parse("2024-11-29T10:00:00+02:00").unwrap();
    assert_eq!(t.text, "2024-11-29T08:00:00Z");
    let t = UtcTime::parse("2024-11-29T08:00:00.250Z").unwrap();
    assert_eq!(t.text, "2024-11-29T08:00:00.250Z");
    assert!(UtcTime::parse("2024-11-29").is_none());
}


#[test]
fn durations_out_of_reach_are_refused() {
    assert_eq!(Elapsed::parse("18446744073709551615s 1000000000ns"), None);
    assert_eq!(Elapsed::parse("18446744073709551615.5s 0.5s"), None);
    assert_eq!(Elapsed::parse("1 000 000 000 000s"), None);
    assert_eq!(Elapsed::parse("999999999s"), Some(Elapsed { secs: 999_999_999, nanos: 0 }));
    let t = request_with(|v| {
        v["stream"]["public_tariff"]["duration"] = str_value("18446744073709551615s 1000000000ns")
    });
    assert_eq!(decode_request(&t).err(), Some(DecodeError::TypeMismatch));
    let t = request_with(|v| v["debug"]["duration"] = str_value("18446744073709551615.5s 0.5s"));
    assert_eq!(decode_request(&t).err(), Some(DecodeError::TypeMismatch));
}

#[test]
fn formatted_durations_are_in_reach() {
    let d = Elapsed { secs: 31_557_600 + 2_630_016 * 2 + 86400 * 3 + 3600 * 4 + 65, nanos: 123_456_789 };
    let text = d.to_text();
    assert_eq!(text, "1year 2months 3days 4h 1m 5s 123ms 456us 789ns");
    assert_eq!(Elapsed::parse(&text), Some(d));
}
