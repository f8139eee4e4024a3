use edge_studio::ditto_config::{
    DittoConfig, APP_ID_VARIABLE, AUTH_URL_VARIABLE, PLAYGROUND_TOKEN_VARIABLE,
    WEBSOCKET_URL_VARIABLE,
};

fn some(text: &str) -> Option<String> {
    Some(text.to_string())
}

#[test]
fn test_env_loading_without_env_file() {
    let result = DittoConfig::from_env(None, None, None, None);
    assert!(result.is_err());
    let error_msg = result.unwrap_err();
    println!("Error message: {}", error_msg);
    assert!(error_msg.contains("is required"));
}

#[test]
fn test_env_loading_with_empty_values() {
    let result =
        DittoConfig::from_env(some(""), some("valid-token"), some("valid-url"), some("valid-ws-url"));
    assert!(result.is_err());
    let error_msg = result.unwrap_err();
    println!("Error message: {}", error_msg);
    assert!(error_msg.contains("cannot be empty"));
}

#[test]
fn test_env_loading_with_valid_values() {
    let result = DittoConfig::from_env(
        some("test-app-id"),
        some("test-token"),
        some("https://test.auth.url"),
        some("wss://test.websocket.url"),
    );
    if let Err(e) = &result {
        println!("Unexpected error: {}", e);
    }
    assert!(result.is_ok());

    let config = result.unwrap();
    assert_eq!(config.app_id, "test-app-id");
    assert_eq!(config.playground_token, "test-token");
    assert_eq!(config.auth_url, "https://test.auth.url");
    assert_eq!(config.websocket_url, "wss://test.websocket.url");
}

#[test]
fn variable_names() {
    assert_eq!(APP_ID_VARIABLE, "DITTO_APP_ID");
    assert_eq!(PLAYGROUND_TOKEN_VARIABLE, "DITTO_PLAYGROUND_TOKEN");
    assert_eq!(AUTH_URL_VARIABLE, "DITTO_AUTH_URL");
    assert_eq!(WEBSOCKET_URL_VARIABLE, "DITTO_WEBSOCKET_URL");
}

#[test]
fn first_unset_variable_is_named() {
    let all = [some("a"), some("b"), some("c"), some("d")];
    let names = ["DITTO_APP_ID", "DITTO_PLAYGROUND_TOKEN", "DITTO_AUTH_URL", "DITTO_WEBSOCKET_URL"];
    for missing in 0..4 {
        let mut values = all.clone();
        for v in values.iter_mut().skip(missing) {
            *v = None;
        }
        let [a, b, c, d] = values;
        assert_eq!(
            DittoConfig::from_env(a, b, c, d),
            Err(format!("{} is required. Please set it in your .env file", names[missing]))
        );
    }
}

#[test]
fn first_blank_variable_is_named() {
    let names = ["DITTO_APP_ID", "DITTO_PLAYGROUND_TOKEN", "DITTO_AUTH_URL", "DITTO_WEBSOCKET_URL"];
    for blank in 0..4 {
        let mut values = [some("a"), some("b"), some("c"), some("d")];
        for v in values.iter_mut().skip(blank) {
            *v = some(" \t ");
        }
        let [a, b, c, d] = values;
        assert_eq!(DittoConfig::from_env(a, b, c, d), Err(format!("{} cannot be empty", names[blank])));
    }
}

#[test]
fn unset_is_reported_before_blank() {
    assert_eq!(
        DittoConfig::from_env(some(""), some("b"), some("c"), None),
        Err("DITTO_WEBSOCKET_URL is required. Please set it in your .env file".to_string())
    );
}

#[test]
fn values_are_kept_untrimmed() {
    let config = DittoConfig::from_env(some(" a "), some("b\n"), some("\tc"), some("d")).unwrap();
    assert_eq!(config.app_id, " a ");
    assert_eq!(config.playground_token, "b\n");
    assert_eq!(config.auth_url, "\tc");
    assert_eq!(config.websocket_url, "d");
    assert_eq!(config.clone(), config);
}
