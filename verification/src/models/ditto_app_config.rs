//! The short form of the application configuration.

use crate::identifier::{is_random_id_text, random_id_text};
use vstd::prelude::*;
use vstd::string::StringExecFns;

verus! {

/// The configuration of one application, without the settings of the
/// desktop studio.
#[derive(Debug, PartialEq, Eq)]
pub struct DittoAppConfig {
    pub id: String,
    pub name: String,
    pub app_id: String,
    pub auth_token: String,
    pub auth_url: String,
    pub websocket_url: String,
    pub http_api_url: String,
    pub http_api_key: String,
    pub mode: String,
}

/// The mathematical value of a [`DittoAppConfig`].
pub ghost struct DittoAppConfigView {
    pub id: Seq<char>,
    pub name: Seq<char>,
    pub app_id: Seq<char>,
    pub auth_token: Seq<char>,
    pub auth_url: Seq<char>,
    pub websocket_url: Seq<char>,
    pub http_api_url: Seq<char>,
    pub http_api_key: Seq<char>,
    pub mode: Seq<char>,
}

impl View for DittoAppConfig {
    type V = DittoAppConfigView;

    open spec fn view(&self) -> DittoAppConfigView {
        DittoAppConfigView {
            id: self.id@,
            name: self.name@,
            app_id: self.app_id@,
            auth_token: self.auth_token@,
            auth_url: self.auth_url@,
            websocket_url: self.websocket_url@,
            http_api_url: self.http_api_url@,
            http_api_key: self.http_api_key@,
            mode: self.mode@,
        }
    }
}

/// The record that a new configuration starts from: every text empty but
/// the identifier `id` and the mode, which is `online`.
pub open spec fn blank_config(id: Seq<char>) -> DittoAppConfigView {
    DittoAppConfigView {
        id,
        name: Seq::empty(),
        app_id: Seq::empty(),
        auth_token: Seq::empty(),
        auth_url: Seq::empty(),
        websocket_url: Seq::empty(),
        http_api_url: Seq::empty(),
        http_api_key: Seq::empty(),
        mode: "online"@,
    }
}

impl Clone for DittoAppConfig {
    fn clone(&self) -> (copy: Self)
        ensures
            copy@ == self@,
    {
        DittoAppConfig {
            id: self.id.clone(),
            name: self.name.clone(),
            app_id: self.app_id.clone(),
            auth_token: self.auth_token.clone(),
            auth_url: self.auth_url.clone(),
            websocket_url: self.websocket_url.clone(),
            http_api_url: self.http_api_url.clone(),
            http_api_key: self.http_api_key.clone(),
            mode: self.mode.clone(),
        }
    }
}

impl DittoAppConfig {
    /// Makes a blank configuration with a fresh random identifier.
    pub fn new() -> (config: Self)
        ensures
            is_random_id_text(config.id@),
            config@ == blank_config(config.id@),
    {
        DittoAppConfig {
            id: random_id_text(),
            name: String::new(),
            app_id: String::new(),
            auth_token: String::new(),
            auth_url: String::new(),
            websocket_url: String::new(),
            http_api_url: String::new(),
            http_api_key: String::new(),
            mode: String::from_str("online"),
        }
    }
}

impl Default for DittoAppConfig {
    fn default() -> (config: Self)
        ensures
            is_random_id_text(config.id@),
            config@ == blank_config(config.id@),
    {
        DittoAppConfig::new()
    }
}

} // verus!
