use controller_core::query::extract_relay_param;

#[test]
fn relay_commands_are_read_from_the_query_string() {
    assert_eq!(extract_relay_param("/?relay=on"), Some("on"));
    assert_eq!(extract_relay_param("/?relay=off"), Some("off"));
    assert_eq!(extract_relay_param("/?a=b&relay=on"), Some("on"));
    assert_eq!(extract_relay_param("/?relay=on&a=b"), Some("on"));
    // The value may itself contain an equals sign.
    assert_eq!(extract_relay_param("/?relay=a=b"), Some("a=b"));
    // The first relay pair wins.
    assert_eq!(extract_relay_param("/?relay=on&relay=off"), Some("on"));
}

#[test]
fn uris_without_a_relay_command_give_none() {
    assert_eq!(extract_relay_param("/"), None);
    assert_eq!(extract_relay_param("/?"), None);
    assert_eq!(extract_relay_param("/?a=b"), None);
    // A bare key without a value is not a command.
    assert_eq!(extract_relay_param("/?relay"), None);
    // Key matching is exact.
    assert_eq!(extract_relay_param("/?relays=on"), None);
    assert_eq!(extract_relay_param("/?Relay=on"), None);
}
