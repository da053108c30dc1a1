use game_core::messages::error_json;

#[test]
fn wraps_message_in_error_envelope() {
    assert_eq!(
        error_json("Request failed: timeout"),
        "{\"status\":\"error\",\"message\":\"Request failed: timeout\"}"
    );
}

#[test]
fn replaces_double_quotes_with_single_quotes() {
    assert_eq!(
        error_json("bad \"breed\" name"),
        "{\"status\":\"error\",\"message\":\"bad 'breed' name\"}"
    );
}

#[test]
fn empty_message_keeps_envelope() {
    assert_eq!(error_json(""), "{\"status\":\"error\",\"message\":\"\"}");
}
