use edge_studio::app::{App, CurrentScreen};
use edge_studio::ditto_app_config::{
    DecodeError, DittoAppConfig, ALLOW_UNTRUSTED_CERTS_KEY, APP_ID_KEY, AUTH_TOKEN_KEY,
    AUTH_URL_KEY, HTTP_API_KEY_KEY, HTTP_API_URL_KEY, ID_KEY, MODE_KEY,
    MONGO_DB_CONNECTION_STRING_KEY, NAME_KEY, WEBSOCKET_URL_KEY,
};
use edge_studio::ditto_manager::try_init_ditto;
use edge_studio::document::{Field, FieldValue, Row};

fn sample(id: &str, name: &str) -> DittoAppConfig {
    DittoAppConfig {
        id: id.to_string(),
        name: name.to_string(),
        app_id: "app".to_string(),
        auth_token: "token".to_string(),
        auth_url: "https://auth".to_string(),
        websocket_url: "wss://ws".to_string(),
        http_api_url: "https://api".to_string(),
        http_api_key: "key".to_string(),
        mongo_db_connection_string: "mongodb://db".to_string(),
        mode: "online".to_string(),
        allow_untrusted_certs: true,
    }
}

#[test]
fn new_record_gets_a_random_identifier() {
    let make = || {
        DittoAppConfig::new(
            "n".to_string(),
            "a".to_string(),
            "t".to_string(),
            "u".to_string(),
            "w".to_string(),
            "h".to_string(),
            "k".to_string(),
            "m".to_string(),
            "online".to_string(),
            false,
        )
    };
    let first = make();
    let second = make();
    assert_ne!(first.id, second.id);
    let id: Vec<char> = first.id.chars().collect();
    assert_eq!(id.len(), 36);
    for (i, c) in id.iter().enumerate() {
        if i == 8 || i == 13 || i == 18 || i == 23 {
            assert_eq!(*c, '-');
        } else {
            assert!(c.is_ascii_digit() || ('a'..='f').contains(c));
        }
    }
    assert_eq!(id[14], '4');
    assert_eq!(first.name, "n");
    assert_eq!(first.app_id, "a");
    assert_eq!(first.auth_token, "t");
    assert_eq!(first.auth_url, "u");
    assert_eq!(first.websocket_url, "w");
    assert_eq!(first.http_api_url, "h");
    assert_eq!(first.http_api_key, "k");
    assert_eq!(first.mongo_db_connection_string, "m");
    assert_eq!(first.mode, "online");
    assert!(!first.allow_untrusted_certs);
}

#[test]
fn record_is_written_as_eleven_fields() {
    let row = sample("id-1", "Alpha").to_row();
    let expected = vec![
        Field::text("_id", "id-1"),
        Field::text("name", "Alpha"),
        Field::text("appId", "app"),
        Field::text("authToken", "token"),
        Field::text("authUrl", "https://auth"),
        Field::text("websocketUrl", "wss://ws"),
        Field::text("httpApiUrl", "https://api"),
        Field::text("httpApiKey", "key"),
        Field::text("mongoDbConnectionString", "mongodb://db"),
        Field::text("mode", "online"),
        Field::flag("allowUntrustedCerts", true),
    ];
    assert_eq!(row.fields, expected);
}

#[test]
fn key_constants_are_the_stored_names() {
    assert_eq!(ID_KEY, "_id");
    assert_eq!(NAME_KEY, "name");
    assert_eq!(APP_ID_KEY, "appId");
    assert_eq!(AUTH_TOKEN_KEY, "authToken");
    assert_eq!(AUTH_URL_KEY, "authUrl");
    assert_eq!(WEBSOCKET_URL_KEY, "websocketUrl");
    assert_eq!(HTTP_API_URL_KEY, "httpApiUrl");
    assert_eq!(HTTP_API_KEY_KEY, "httpApiKey");
    assert_eq!(MONGO_DB_CONNECTION_STRING_KEY, "mongoDbConnectionString");
    assert_eq!(MODE_KEY, "mode");
    assert_eq!(ALLOW_UNTRUSTED_CERTS_KEY, "allowUntrustedCerts");
}

#[test]
fn reading_back_a_written_record_gives_the_record() {
    let config = sample("id-1", "Alpha");
    assert_eq!(DittoAppConfig::from_row(&config.to_row()), Ok(config.clone()));
    let empty = DittoAppConfig {
        id: String::new(),
        name: String::new(),
        app_id: String::new(),
        auth_token: String::new(),
        auth_url: String::new(),
        websocket_url: String::new(),
        http_api_url: String::new(),
        http_api_key: String::new(),
        mongo_db_connection_string: String::new(),
        mode: String::new(),
        allow_untrusted_certs: false,
    };
    assert_eq!(DittoAppConfig::from_row(&empty.to_row()), Ok(empty.clone()));
}

#[test]
fn field_order_and_unknown_fields_do_not_matter() {
    let mut row = sample("id-1", "Alpha").to_row();
    row.fields.reverse();
    row.fields.insert(3, Field::other("extra"));
    row.fields.push(Field::text("another", "x"));
    assert_eq!(DittoAppConfig::from_row(&row), Ok(sample("id-1", "Alpha")));
}

#[test]
fn first_of_two_fields_with_one_name_counts() {
    let mut row = sample("id-1", "Alpha").to_row();
    row.fields.push(Field::text("name", "Beta"));
    assert_eq!(DittoAppConfig::from_row(&row).unwrap().name, "Alpha");
    row.fields.insert(0, Field::text("name", "Gamma"));
    assert_eq!(DittoAppConfig::from_row(&row).unwrap().name, "Gamma");
}

#[test]
fn missing_field_is_named() {
    for (at, key) in [
        "_id",
        "name",
        "appId",
        "authToken",
        "authUrl",
        "websocketUrl",
        "httpApiUrl",
        "httpApiKey",
        "mongoDbConnectionString",
        "mode",
        "allowUntrustedCerts",
    ]
    .iter()
    .enumerate()
    {
        let mut row = sample("id-1", "Alpha").to_row();
        row.fields.remove(at);
        assert_eq!(DittoAppConfig::from_row(&row), Err(DecodeError::Missing(key.to_string())));
    }
    let nothing = Row { fields: Vec::new() };
    assert_eq!(DittoAppConfig::from_row(&nothing), Err(DecodeError::Missing("_id".to_string())));
}

#[test]
fn field_of_the_wrong_kind_is_named() {
    let mut row = sample("id-1", "Alpha").to_row();
    row.fields[1].value = FieldValue::Flag(true);
    assert_eq!(DittoAppConfig::from_row(&row), Err(DecodeError::Mismatch("name".to_string())));
    let mut row = sample("id-1", "Alpha").to_row();
    row.fields[10].value = FieldValue::Text("yes".to_string());
    assert_eq!(
        DittoAppConfig::from_row(&row),
        Err(DecodeError::Mismatch("allowUntrustedCerts".to_string()))
    );
    let mut row = sample("id-1", "Alpha").to_row();
    row.fields[4].value = FieldValue::Other;
    assert_eq!(DittoAppConfig::from_row(&row), Err(DecodeError::Mismatch("authUrl".to_string())));
}

#[test]
fn earliest_fault_in_record_order_is_reported() {
    let mut row = sample("id-1", "Alpha").to_row();
    row.fields[9].value = FieldValue::Other;
    row.fields.remove(2);
    assert_eq!(DittoAppConfig::from_row(&row), Err(DecodeError::Missing("appId".to_string())));
}

#[test]
fn decode_error_messages() {
    assert_eq!(DecodeError::Missing("name".to_string()).message(), "missing field `name`");
    assert_eq!(
        DecodeError::Mismatch("mode".to_string()).message(),
        "invalid type for field `mode`"
    );
}

#[test]
fn row_lookup_finds_the_first_field_of_a_name() {
    let row = Row {
        fields: vec![Field::text("a", "1"), Field::flag("b", true), Field::text("a", "2")],
    };
    assert_eq!(row.get("a"), Some(&FieldValue::Text("1".to_string())));
    assert_eq!(row.get("b"), Some(&FieldValue::Flag(true)));
    assert_eq!(row.get("c"), None);
    assert_eq!(row.get(""), None);
    assert_eq!(row.clone(), row);
}

#[test]
fn setup_uses_the_default_address_for_an_empty_one() {
    let mut config = sample("id-1", "Alpha");
    let setup = try_init_ditto(&config);
    assert_eq!(setup.app_id, "app");
    assert_eq!(setup.auth_token, "token");
    assert!(!setup.enable_cloud_sync);
    assert_eq!(setup.custom_auth_url, Some("https://auth".to_string()));
    assert_eq!(setup.http_api_url, "https://api");
    assert_eq!(setup.http_api_key, "key");
    assert!(!setup.offline_only);
    assert!(!setup.encryption);
    config.auth_url = String::new();
    assert_eq!(try_init_ditto(&config).custom_auth_url, None);
}

#[test]
fn app_state_holds_the_selection() {
    let app = App { selected_app: Some(sample("id-1", "Alpha")), current_screen: CurrentScreen::AppEditor };
    assert_eq!(app.current_screen, CurrentScreen::AppEditor);
    assert_eq!(app.selected_app.unwrap().name, "Alpha");
    assert_ne!(CurrentScreen::Main, CurrentScreen::AppListing);
    assert_ne!(CurrentScreen::AppDeletion, CurrentScreen::AppEditor);
}
