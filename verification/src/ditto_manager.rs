//! How the sync engine is to be set up for one application.

use crate::ditto_app_config::{DittoAppConfig, DittoAppConfigView};
use vstd::prelude::*;

verus! {

/// The settings with which the sync engine is built and started.
#[derive(Debug, PartialEq, Eq)]
pub struct DittoSetup {
    pub app_id: String,
    pub auth_token: String,
    /// Whether the engine syncs with the cloud on its own.
    pub enable_cloud_sync: bool,
    /// The authentication address to use in place of the default one.
    pub custom_auth_url: Option<String>,
    pub http_api_url: String,
    pub http_api_key: String,
    pub offline_only: bool,
    pub encryption: bool,
}

/// The mathematical value of a [`DittoSetup`].
pub ghost struct DittoSetupView {
    pub app_id: Seq<char>,
    pub auth_token: Seq<char>,
    pub enable_cloud_sync: bool,
    pub custom_auth_url: Option<Seq<char>>,
    pub http_api_url: Seq<char>,
    pub http_api_key: Seq<char>,
    pub offline_only: bool,
    pub encryption: bool,
}

impl View for DittoSetup {
    type V = DittoSetupView;

    open spec fn view(&self) -> DittoSetupView {
        DittoSetupView {
            app_id: self.app_id@,
            auth_token: self.auth_token@,
            enable_cloud_sync: self.enable_cloud_sync,
            custom_auth_url: match self.custom_auth_url {
                Some(url) => Some(url@),
                None => None,
            },
            http_api_url: self.http_api_url@,
            http_api_key: self.http_api_key@,
            offline_only: self.offline_only,
            encryption: self.encryption,
        }
    }
}

/// The setup that a configuration asks for: sync with the cloud is switched
/// off so that the addresses of the configuration are used, an empty
/// authentication address means the default one, and the engine runs online
/// and without encryption.
pub open spec fn setup_of(config: DittoAppConfigView) -> DittoSetupView {
    DittoSetupView {
        app_id: config.app_id,
        auth_token: config.auth_token,
        enable_cloud_sync: false,
        custom_auth_url: if config.auth_url.len() == 0 {
            None
        } else {
            Some(config.auth_url)
        },
        http_api_url: config.http_api_url,
        http_api_key: config.http_api_key,
        offline_only: false,
        encryption: false,
    }
}

/// Works out how the sync engine is to be built and started for `config`.
pub fn try_init_ditto(config: &DittoAppConfig) -> (setup: DittoSetup)
    ensures
        setup@ == setup_of(config@),
{
    let custom_auth_url = if config.auth_url.as_str().is_empty() {
        None
    } else {
        Some(config.auth_url.clone())
    };
    DittoSetup {
        app_id: config.app_id.clone(),
        auth_token: config.auth_token.clone(),
        enable_cloud_sync: false,
        custom_auth_url,
        http_api_url: config.http_api_url.clone(),
        http_api_key: config.http_api_key.clone(),
        offline_only: false,
        encryption: false,
    }
}

} // verus!
