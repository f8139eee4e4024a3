use edge_studio::models::ditto_app_config::DittoAppConfig;
use edge_studio::models::ditto_subscription::DittoSubscription;
use serde_json::{Number, Value};

fn text(value: &str) -> Value {
    Value::String(value.to_string())
}

fn object(members: Vec<(&str, Value)>) -> serde_json::Map<String, Value> {
    let mut map = serde_json::Map::new();
    for (key, value) in members {
        map.insert(key.to_string(), value);
    }
    map
}

fn looks_like_a_random_id(id: &str) -> bool {
    let chars: Vec<char> = id.chars().collect();
    chars.len() == 36
        && chars.iter().enumerate().all(|(i, c)| {
            if i == 8 || i == 13 || i == 18 || i == 23 {
                *c == '-'
            } else {
                c.is_ascii_digit() || ('a'..='f').contains(c)
            }
        })
        && chars[14] == '4'
}

#[test]
fn blank_config_is_online_with_a_random_id() {
    let config = DittoAppConfig::new();
    assert!(looks_like_a_random_id(&config.id));
    assert_eq!(config.name, "");
    assert_eq!(config.app_id, "");
    assert_eq!(config.auth_token, "");
    assert_eq!(config.auth_url, "");
    assert_eq!(config.websocket_url, "");
    assert_eq!(config.http_api_url, "");
    assert_eq!(config.http_api_key, "");
    assert_eq!(config.mode, "online");
    assert_ne!(DittoAppConfig::new().id, config.id);
    assert_eq!(config.clone(), config);
    let by_default = DittoAppConfig::default();
    assert!(looks_like_a_random_id(&by_default.id));
    assert_eq!(by_default.mode, "online");
}

#[test]
fn new_subscription_is_empty_with_a_random_id() {
    let subscription = DittoSubscription::new();
    assert!(looks_like_a_random_id(&subscription.id));
    assert_eq!(subscription.name, "");
    assert_eq!(subscription.query, "");
    assert_eq!(subscription.args, None);
    assert_eq!(subscription.sync_subscription, None);
    let by_default = DittoSubscription::default();
    assert!(looks_like_a_random_id(&by_default.id));
    assert_ne!(by_default.id, subscription.id);
}

#[test]
fn subscription_is_read_from_an_object() {
    let args = object(vec![("limit", Value::Number(Number::from(10))), ("kind", text("car"))]);
    let map = object(vec![
        ("_id", text("sub-1")),
        ("name", text("Cars")),
        ("query", text("SELECT * FROM cars WHERE kind = :kind")),
        ("args", Value::Object(args.clone())),
        ("extra", Value::Bool(true)),
    ]);
    let subscription = DittoSubscription::from_map(&map);
    assert_eq!(subscription.id, "sub-1");
    assert_eq!(subscription.name, "Cars");
    assert_eq!(subscription.query, "SELECT * FROM cars WHERE kind = :kind");
    assert_eq!(subscription.args, Some(args));
    assert_eq!(subscription.sync_subscription, None);
}

#[test]
fn members_of_another_kind_read_as_empty() {
    let map = object(vec![
        ("_id", Value::Number(Number::from(7))),
        ("name", Value::Null),
        ("query", Value::Array(vec![text("q")])),
        ("args", text("not an object")),
    ]);
    let subscription = DittoSubscription::from_map(&map);
    assert_eq!(subscription.id, "");
    assert_eq!(subscription.name, "");
    assert_eq!(subscription.query, "");
    assert_eq!(subscription.args, None);
}

#[test]
fn subscription_without_arguments() {
    let map = object(vec![("_id", text("a")), ("name", text("b")), ("query", text("c"))]);
    let subscription = DittoSubscription::try_from_map(&map).unwrap();
    assert_eq!(subscription.id, "a");
    assert_eq!(subscription.name, "b");
    assert_eq!(subscription.query, "c");
    assert_eq!(subscription.args, None);
}

#[test]
fn object_that_lacks_a_member_is_refused() {
    for missing in ["_id", "name", "query"] {
        let mut map = object(vec![("_id", text("a")), ("name", text("b")), ("query", text("c"))]);
        map.remove(missing);
        assert!(DittoSubscription::try_from_map(&map).is_none());
    }
    assert!(DittoSubscription::try_from_map(&serde_json::Map::new()).is_none());
}
