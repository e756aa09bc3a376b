use haxum::health::{assess_round_trip, RoundTrip};
use haxum::reply::{
    get_string, hello_world, ping_root, set_string, Reply, ReplyBody, STATUS_INTERNAL_SERVER_ERROR,
    STATUS_NOT_FOUND, STATUS_OK, STATUS_UNPROCESSABLE_ENTITY,
};
use haxum::string_body::StringBody;

fn pair(key: &str, value: &str) -> StringBody {
    StringBody {
        key: key.to_string(),
        value: value.to_string(),
    }
}

fn assert_pair(reply: &Reply, key: &str, value: &str) {
    match &reply.body {
        ReplyBody::Pair(p) => {
            assert_eq!(p.key, key);
            assert_eq!(p.value, value);
        }
        _ => panic!("expected a key/value body"),
    }
}

fn assert_error(reply: &Reply, error: &str) {
    match &reply.body {
        ReplyBody::Error(e) => assert_eq!(e, error),
        _ => panic!("expected an error body"),
    }
}

#[test]
fn test_hello_world() {
    let response = hello_world();
    assert_eq!(response.status, STATUS_OK);
    assert_pair(&response, "hello", "world");
}

#[test]
fn test_get_string_cases() {
    let response = get_string("hello");
    assert_eq!(response.status, STATUS_OK, "Status mismatch for key: hello");
    assert_pair(&response, "hello", "world");

    let response = get_string("damn");
    assert_eq!(response.status, STATUS_INTERNAL_SERVER_ERROR, "Status mismatch for key: damn");
    assert_error(&response, "SERVER IS DOWN");

    let response = get_string("other");
    assert_eq!(response.status, STATUS_NOT_FOUND, "Status mismatch for key: other");
    assert_error(&response, "NOT FOUND");
}

#[test]
fn test_set_string() {
    let test_cases = vec![
        pair("k_0", "v_0"),
        pair("k-0", "v-0"),
        pair("k:0", "v:0"),
        pair("key", "value"),
        pair("test_set_string1", "value1"),
        pair("test_set_string:1", "value:1"),
        pair("set_string_test-1", "value-1"),
        pair("set_string_test_1", "value_1"),
        pair("set_string_test-value:aaa-bbb-000", "value-uuid"),
        pair("set_string_test:integer", "1000"),
        pair("set_string_test:integer:negative", "-1000"),
        pair("set_string_test:float", "1000.01"),
        pair("set_string_test:float-negative", "-1000.01"),
        pair("set_string_test:bool", "true"),
        pair("set_string_test:bool_false", "false"),
        pair("set_string_test:html", "<b>bold!</b>"),
        pair("123", "123"),
    ];

    for valid_input in test_cases {
        let response = set_string(valid_input.clone());
        assert_eq!(response.status, STATUS_OK);
        match response.body {
            ReplyBody::Pair(p) => assert_eq!(p, valid_input),
            _ => panic!("expected the pair back"),
        }
    }
}

#[test]
fn test_set_string_invalid_key() {
    let test_cases = vec![
        pair("_", "v_0"),
        pair("-", "v-0"),
        pair(":", "v:0"),
        pair("12", "v:12"),
    ];

    for invalid_input in test_cases {
        let response = set_string(invalid_input);
        assert_eq!(response.status, STATUS_UNPROCESSABLE_ENTITY);
        assert_error(&response, "Key or value is in invalid format");
    }
}

#[test]
fn test_ping_root() {
    let status = assess_round_trip(RoundTrip::Replied("PONG".to_string()));
    let response = ping_root(status);
    assert_eq!(response.status, STATUS_OK);
    match response.body {
        ReplyBody::Text(t) => assert_eq!(t, "HELLO THERE!"),
        _ => panic!("expected a text body"),
    }
}

#[test]
fn lookup_of_unknown_key_is_not_found() {
    let response = get_string("xyz");
    assert_eq!(response.status, STATUS_NOT_FOUND);
    assert_error(&response, "NOT FOUND");
}

#[test]
fn lookup_is_case_sensitive() {
    let response = get_string("Hello");
    assert_eq!(response.status, STATUS_NOT_FOUND);
    let response = get_string("");
    assert_eq!(response.status, STATUS_NOT_FOUND);
}

#[test]
fn set_with_two_character_key_is_unprocessable() {
    let response = set_string(pair("ab", "v"));
    assert_eq!(response.status, STATUS_UNPROCESSABLE_ENTITY);
    assert_error(&response, "Key or value is in invalid format");
}

#[test]
fn set_with_three_character_key_echoes_input() {
    let response = set_string(pair("abc", "v"));
    assert_eq!(response.status, STATUS_OK);
    assert_pair(&response, "abc", "v");
}

#[test]
fn set_with_empty_value_is_unprocessable() {
    let response = set_string(pair("abc", ""));
    assert_eq!(response.status, STATUS_UNPROCESSABLE_ENTITY);
    assert_error(&response, "Key or value is in invalid format");
}

#[test]
fn health_with_unreachable_dependency_is_structured_server_error() {
    let status = assess_round_trip(RoundTrip::AcquireFailed("Connection refused".to_string()));
    let response = ping_root(status);
    assert_eq!(response.status, STATUS_INTERNAL_SERVER_ERROR);
    assert_error(&response, "Failed to ping database");
}

#[test]
fn health_with_failed_command_is_server_error() {
    let status = assess_round_trip(RoundTrip::CommandFailed("timed out".to_string()));
    let response = ping_root(status);
    assert_eq!(response.status, STATUS_INTERNAL_SERVER_ERROR);
    assert_error(&response, "Failed to ping database");
}
