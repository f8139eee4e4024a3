//! The connection settings that the environment supplies.

use crate::text::{is_blank, text_is_blank};
use vstd::prelude::*;
use vstd::string::StringExecFns;

verus! {

pub const APP_ID_VARIABLE: &'static str = "DITTO_APP_ID";

pub const PLAYGROUND_TOKEN_VARIABLE: &'static str = "DITTO_PLAYGROUND_TOKEN";

pub const AUTH_URL_VARIABLE: &'static str = "DITTO_AUTH_URL";

pub const WEBSOCKET_URL_VARIABLE: &'static str = "DITTO_WEBSOCKET_URL";

/// The settings needed to connect: all four are required and none may be
/// blank.
#[derive(Debug, PartialEq, Eq)]
pub struct DittoConfig {
    pub app_id: String,
    pub playground_token: String,
    pub auth_url: String,
    pub websocket_url: String,
}

/// The mathematical value of a [`DittoConfig`].
pub ghost struct DittoConfigView {
    pub app_id: Seq<char>,
    pub playground_token: Seq<char>,
    pub auth_url: Seq<char>,
    pub websocket_url: Seq<char>,
}

impl View for DittoConfig {
    type V = DittoConfigView;

    open spec fn view(&self) -> DittoConfigView {
        DittoConfigView {
            app_id: self.app_id@,
            playground_token: self.playground_token@,
            auth_url: self.auth_url@,
            websocket_url: self.websocket_url@,
        }
    }
}

impl Clone for DittoConfig {
    fn clone(&self) -> (copy: Self)
        ensures
            copy@ == self@,
    {
        DittoConfig {
            app_id: self.app_id.clone(),
            playground_token: self.playground_token.clone(),
            auth_url: self.auth_url.clone(),
            websocket_url: self.websocket_url.clone(),
        }
    }
}

/// The value of a variable that may be unset.
pub open spec fn value_view(value: Option<String>) -> Option<Seq<char>> {
    match value {
        Some(text) => Some(text@),
        None => None,
    }
}

/// The complaint about values that are no usable settings: the first
/// variable that is unset, in the order of the record, or else the first
/// that is blank; `None` where all four are set and none is blank.
pub open spec fn environment_fault(
    app_id: Option<Seq<char>>,
    playground_token: Option<Seq<char>>,
    auth_url: Option<Seq<char>>,
    websocket_url: Option<Seq<char>>,
) -> Option<Seq<char>> {
    if app_id is None {
        Some("DITTO_APP_ID is required. Please set it in your .env file"@)
    } else if playground_token is None {
        Some("DITTO_PLAYGROUND_TOKEN is required. Please set it in your .env file"@)
    } else if auth_url is None {
        Some("DITTO_AUTH_URL is required. Please set it in your .env file"@)
    } else if websocket_url is None {
        Some("DITTO_WEBSOCKET_URL is required. Please set it in your .env file"@)
    } else if is_blank(app_id->0) {
        Some("DITTO_APP_ID cannot be empty"@)
    } else if is_blank(playground_token->0) {
        Some("DITTO_PLAYGROUND_TOKEN cannot be empty"@)
    } else if is_blank(auth_url->0) {
        Some("DITTO_AUTH_URL cannot be empty"@)
    } else if is_blank(websocket_url->0) {
        Some("DITTO_WEBSOCKET_URL cannot be empty"@)
    } else {
        None
    }
}

impl DittoConfig {
    /// Builds the settings from the values of the four environment
    /// variables, each `None` where the variable is unset. The values are
    /// kept as they are, white space included.
    pub fn from_env(
        app_id: Option<String>,
        playground_token: Option<String>,
        auth_url: Option<String>,
        websocket_url: Option<String>,
    ) -> (result: Result<DittoConfig, String>)
        ensures
            match result {
                Ok(config) => {
                    &&& environment_fault(
                        value_view(app_id),
                        value_view(playground_token),
                        value_view(auth_url),
                        value_view(websocket_url),
                    ) is None
                    &&& Some(config@.app_id) == value_view(app_id)
                    &&& Some(config@.playground_token) == value_view(playground_token)
                    &&& Some(config@.auth_url) == value_view(auth_url)
                    &&& Some(config@.websocket_url) == value_view(websocket_url)
                },
                Err(complaint) => environment_fault(
                    value_view(app_id),
                    value_view(playground_token),
                    value_view(auth_url),
                    value_view(websocket_url),
                ) == Some(complaint@),
            },
    {
        let app_id = match app_id {
            Some(text) => text,
            None => {
                return Err(
                    String::from_str("DITTO_APP_ID is required. Please set it in your .env file"),
                );
            },
        };
        let playground_token = match playground_token {
            Some(text) => text,
            None => {
                return Err(
                    String::from_str(
                        "DITTO_PLAYGROUND_TOKEN is required. Please set it in your .env file",
                    ),
                );
            },
        };
        let auth_url = match auth_url {
            Some(text) => text,
            None => {
                return Err(
                    String::from_str("DITTO_AUTH_URL is required. Please set it in your .env file"),
                );
            },
        };
        let websocket_url = match websocket_url {
            Some(text) => text,
            None => {
                return Err(
                    String::from_str(
                        "DITTO_WEBSOCKET_URL is required. Please set it in your .env file",
                    ),
                );
            },
        };
        if text_is_blank(app_id.as_str()) {
            return Err(String::from_str("DITTO_APP_ID cannot be empty"));
        }
        if text_is_blank(playground_token.as_str()) {
            return Err(String::from_str("DITTO_PLAYGROUND_TOKEN cannot be empty"));
        }
        if text_is_blank(auth_url.as_str()) {
            return Err(String::from_str("DITTO_AUTH_URL cannot be empty"));
        }
        if text_is_blank(websocket_url.as_str()) {
            return Err(String::from_str("DITTO_WEBSOCKET_URL cannot be empty"));
        }
        Ok(DittoConfig { app_id, playground_token, auth_url, websocket_url })
    }
}

} // verus!
