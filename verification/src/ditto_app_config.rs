//! The application configuration record and its stored form.
//!
//! A record is kept in the store as a document of eleven fields. Ten hold a
//! text and one holds a flag; the record's identifier is the field `_id`.

use crate::document::{lookup, lemma_lookup_finds, Field, FieldValue, FieldValueView, FieldView, Row};
use crate::identifier::{is_random_id_text, random_id_text};
use crate::text::join;
use vstd::prelude::*;
use vstd::string::StringExecFns;

verus! {

pub const ID_KEY: &'static str = "_id";

pub const NAME_KEY: &'static str = "name";

pub const APP_ID_KEY: &'static str = "appId";

pub const AUTH_TOKEN_KEY: &'static str = "authToken";

pub const AUTH_URL_KEY: &'static str = "authUrl";

pub const WEBSOCKET_URL_KEY: &'static str = "websocketUrl";

pub const HTTP_API_URL_KEY: &'static str = "httpApiUrl";

pub const HTTP_API_KEY_KEY: &'static str = "httpApiKey";

pub const MONGO_DB_CONNECTION_STRING_KEY: &'static str = "mongoDbConnectionString";

pub const MODE_KEY: &'static str = "mode";

pub const ALLOW_UNTRUSTED_CERTS_KEY: &'static str = "allowUntrustedCerts";

/// The configuration of one application that the studio can connect to.
#[derive(Debug, PartialEq, Eq)]
pub struct DittoAppConfig {
    pub id: String,
    pub name: String,
    pub app_id: String,
    pub auth_token: String,
    pub auth_url: String,
    pub websocket_url: String,
    pub http_api_url: String,
    pub http_api_key: String,
    pub mongo_db_connection_string: String,
    pub mode: String,
    pub allow_untrusted_certs: bool,
}

/// The mathematical value of a [`DittoAppConfig`].
pub ghost struct DittoAppConfigView {
    pub id: Seq<char>,
    pub name: Seq<char>,
    pub app_id: Seq<char>,
    pub auth_token: Seq<char>,
    pub auth_url: Seq<char>,
    pub websocket_url: Seq<char>,
    pub http_api_url: Seq<char>,
    pub http_api_key: Seq<char>,
    pub mongo_db_connection_string: Seq<char>,
    pub mode: Seq<char>,
    pub allow_untrusted_certs: bool,
}

impl View for DittoAppConfig {
    type V = DittoAppConfigView;

    open spec fn view(&self) -> DittoAppConfigView {
        DittoAppConfigView {
            id: self.id@,
            name: self.name@,
            app_id: self.app_id@,
            auth_token: self.auth_token@,
            auth_url: self.auth_url@,
            websocket_url: self.websocket_url@,
            http_api_url: self.http_api_url@,
            http_api_key: self.http_api_key@,
            mongo_db_connection_string: self.mongo_db_connection_string@,
            mode: self.mode@,
            allow_untrusted_certs: self.allow_untrusted_certs,
        }
    }
}

impl Clone for DittoAppConfig {
    fn clone(&self) -> (copy: Self)
        ensures
            copy@ == self@,
    {
        DittoAppConfig {
            id: self.id.clone(),
            name: self.name.clone(),
            app_id: self.app_id.clone(),
            auth_token: self.auth_token.clone(),
            auth_url: self.auth_url.clone(),
            websocket_url: self.websocket_url.clone(),
            http_api_url: self.http_api_url.clone(),
            http_api_key: self.http_api_key.clone(),
            mongo_db_connection_string: self.mongo_db_connection_string.clone(),
            mode: self.mode.clone(),
            allow_untrusted_certs: self.allow_untrusted_certs,
        }
    }
}

/// The values of a sequence of records, in the same order.
pub open spec fn config_views(configs: Seq<DittoAppConfig>) -> Seq<DittoAppConfigView> {
    configs.map_values(|c: DittoAppConfig| c@)
}

/// Why a document is no application configuration.
#[derive(Debug, PartialEq, Eq)]
pub enum DecodeError {
    /// The document has no field of this name.
    Missing(String),
    /// The field of this name holds a value of another kind than the record
    /// asks for.
    Mismatch(String),
}

/// The mathematical value of a [`DecodeError`].
pub ghost enum DecodeErrorView {
    Missing(Seq<char>),
    Mismatch(Seq<char>),
}

impl View for DecodeError {
    type V = DecodeErrorView;

    open spec fn view(&self) -> DecodeErrorView {
        match self {
            DecodeError::Missing(field) => DecodeErrorView::Missing(field@),
            DecodeError::Mismatch(field) => DecodeErrorView::Mismatch(field@),
        }
    }
}

impl DecodeErrorView {
    /// The sentence that names the fault.
    pub open spec fn message(self) -> Seq<char> {
        match self {
            DecodeErrorView::Missing(field) => "missing field `"@ + field + "`"@,
            DecodeErrorView::Mismatch(field) => "invalid type for field `"@ + field + "`"@,
        }
    }
}

impl DecodeError {
    /// Returns the sentence that names the fault.
    pub fn message(&self) -> (text: String)
        ensures
            text@ == self@.message(),
    {
        match self {
            DecodeError::Missing(field) => {
                let mut text = join("missing field `", field.as_str());
                text.append("`");
                text
            },
            DecodeError::Mismatch(field) => {
                let mut text = join("invalid type for field `", field.as_str());
                text.append("`");
                text
            },
        }
    }
}

/// What stands in the way of reading a text from the field `key`.
pub open spec fn text_fault(fields: Seq<FieldView>, key: Seq<char>) -> Option<DecodeErrorView> {
    match lookup(fields, key) {
        Some(FieldValueView::Text(_)) => None,
        Some(_) => Some(DecodeErrorView::Mismatch(key)),
        None => Some(DecodeErrorView::Missing(key)),
    }
}

/// What stands in the way of reading a flag from the field `key`.
pub open spec fn flag_fault(fields: Seq<FieldView>, key: Seq<char>) -> Option<DecodeErrorView> {
    match lookup(fields, key) {
        Some(FieldValueView::Flag(_)) => None,
        Some(_) => Some(DecodeErrorView::Mismatch(key)),
        None => Some(DecodeErrorView::Missing(key)),
    }
}

/// The text of the field `key`, or the empty text where there is none.
pub open spec fn text_of(fields: Seq<FieldView>, key: Seq<char>) -> Seq<char> {
    match lookup(fields, key) {
        Some(FieldValueView::Text(text)) => text,
        _ => Seq::empty(),
    }
}

/// The flag of the field `key`, or `false` where there is none.
pub open spec fn flag_of(fields: Seq<FieldView>, key: Seq<char>) -> bool {
    match lookup(fields, key) {
        Some(FieldValueView::Flag(flag)) => flag,
        _ => false,
    }
}

/// The first of two faults.
pub open spec fn earlier(
    first: Option<DecodeErrorView>,
    second: Option<DecodeErrorView>,
) -> Option<DecodeErrorView> {
    if first is Some {
        first
    } else {
        second
    }
}

/// The first fault of a document, taking the fields in the order in which
/// the record lists them; `None` where the document holds every field of the
/// record with a value of the right kind.
pub open spec fn first_fault(fields: Seq<FieldView>) -> Option<DecodeErrorView> {
    earlier(
        text_fault(fields, ID_KEY@),
        earlier(
            text_fault(fields, NAME_KEY@),
            earlier(
                text_fault(fields, APP_ID_KEY@),
                earlier(
                    text_fault(fields, AUTH_TOKEN_KEY@),
                    earlier(
                        text_fault(fields, AUTH_URL_KEY@),
                        earlier(
                            text_fault(fields, WEBSOCKET_URL_KEY@),
                            earlier(
                                text_fault(fields, HTTP_API_URL_KEY@),
                                earlier(
                                    text_fault(fields, HTTP_API_KEY_KEY@),
                                    earlier(
                                        text_fault(fields, MONGO_DB_CONNECTION_STRING_KEY@),
                                        earlier(
                                            text_fault(fields, MODE_KEY@),
                                            flag_fault(fields, ALLOW_UNTRUSTED_CERTS_KEY@),
                                        ),
                                    ),
                                ),
                            ),
                        ),
                    ),
                ),
            ),
        ),
    )
}

/// The record that a document without fault stands for.
pub open spec fn assembled(fields: Seq<FieldView>) -> DittoAppConfigView {
    DittoAppConfigView {
        id: text_of(fields, ID_KEY@),
        name: text_of(fields, NAME_KEY@),
        app_id: text_of(fields, APP_ID_KEY@),
        auth_token: text_of(fields, AUTH_TOKEN_KEY@),
        auth_url: text_of(fields, AUTH_URL_KEY@),
        websocket_url: text_of(fields, WEBSOCKET_URL_KEY@),
        http_api_url: text_of(fields, HTTP_API_URL_KEY@),
        http_api_key: text_of(fields, HTTP_API_KEY_KEY@),
        mongo_db_connection_string: text_of(fields, MONGO_DB_CONNECTION_STRING_KEY@),
        mode: text_of(fields, MODE_KEY@),
        allow_untrusted_certs: flag_of(fields, ALLOW_UNTRUSTED_CERTS_KEY@),
    }
}

/// The record that a document stands for, or its first fault. Fields that
/// the record does not know are passed over, and of two fields with one name
/// the first counts.
pub open spec fn decode(fields: Seq<FieldView>) -> Result<DittoAppConfigView, DecodeErrorView> {
    match first_fault(fields) {
        Some(fault) => Err(fault),
        None => Ok(assembled(fields)),
    }
}

/// The document that stands for a record.
pub open spec fn encode(config: DittoAppConfigView) -> Seq<FieldView> {
    seq![
        FieldView { name: ID_KEY@, value: FieldValueView::Text(config.id) },
        FieldView { name: NAME_KEY@, value: FieldValueView::Text(config.name) },
        FieldView { name: APP_ID_KEY@, value: FieldValueView::Text(config.app_id) },
        FieldView { name: AUTH_TOKEN_KEY@, value: FieldValueView::Text(config.auth_token) },
        FieldView { name: AUTH_URL_KEY@, value: FieldValueView::Text(config.auth_url) },
        FieldView { name: WEBSOCKET_URL_KEY@, value: FieldValueView::Text(config.websocket_url) },
        FieldView { name: HTTP_API_URL_KEY@, value: FieldValueView::Text(config.http_api_url) },
        FieldView { name: HTTP_API_KEY_KEY@, value: FieldValueView::Text(config.http_api_key) },
        FieldView {
            name: MONGO_DB_CONNECTION_STRING_KEY@,
            value: FieldValueView::Text(config.mongo_db_connection_string),
        },
        FieldView { name: MODE_KEY@, value: FieldValueView::Text(config.mode) },
        FieldView {
            name: ALLOW_UNTRUSTED_CERTS_KEY@,
            value: FieldValueView::Flag(config.allow_untrusted_certs),
        },
    ]
}

/// The names of the record's fields, in the order of the record.
pub open spec fn keys() -> Seq<Seq<char>> {
    seq![
        ID_KEY@,
        NAME_KEY@,
        APP_ID_KEY@,
        AUTH_TOKEN_KEY@,
        AUTH_URL_KEY@,
        WEBSOCKET_URL_KEY@,
        HTTP_API_URL_KEY@,
        HTTP_API_KEY_KEY@,
        MONGO_DB_CONNECTION_STRING_KEY@,
        MODE_KEY@,
        ALLOW_UNTRUSTED_CERTS_KEY@,
    ]
}

/// No two fields of the record bear the same name.
pub proof fn lemma_keys_differ()
    ensures
        forall|i: int, j: int| 0 <= i < j < 11 ==> keys()[i] != keys()[j],
{
    reveal_strlit("_id");
    reveal_strlit("name");
    reveal_strlit("appId");
    reveal_strlit("authToken");
    reveal_strlit("authUrl");
    reveal_strlit("websocketUrl");
    reveal_strlit("httpApiUrl");
    reveal_strlit("httpApiKey");
    reveal_strlit("mongoDbConnectionString");
    reveal_strlit("mode");
    reveal_strlit("allowUntrustedCerts");
    let k = keys();
    assert(k[0].len() == 3);
    assert(k[1].len() == 4);
    assert(k[2].len() == 5);
    assert(k[3].len() == 9);
    assert(k[4].len() == 7);
    assert(k[5].len() == 12);
    assert(k[6].len() == 10);
    assert(k[7].len() == 10);
    assert(k[8].len() == 23);
    assert(k[9].len() == 4);
    assert(k[10].len() == 19);
    assert(k[1][0] == 'n' && k[9][0] == 'm');
    assert(k[6][7] == 'U' && k[7][7] == 'K');
    assert forall|i: int, j: int| 0 <= i < j < 11 implies k[i] != k[j] by {
        if i == 1 && j == 9 {
            assert(k[i][0] != k[j][0]);
        } else if i == 6 && j == 7 {
            assert(k[i][7] != k[j][7]);
        } else {
            assert(k[i].len() != k[j].len());
        }
    }
}

/// Reading back the document of a record gives the record.
pub proof fn lemma_decode_inverts_encode(config: DittoAppConfigView)
    ensures
        decode(encode(config)) == Ok::<DittoAppConfigView, DecodeErrorView>(config),
{
    let fields = encode(config);
    lemma_keys_differ();
    assert forall|i: int, j: int| 0 <= i < j < 11 implies (#[trigger] fields[i]).name != (
    #[trigger] fields[j]).name by {
        assert(fields[i].name == keys()[i]);
        assert(fields[j].name == keys()[j]);
    }
    lemma_lookup_finds(fields, 0);
    lemma_lookup_finds(fields, 1);
    lemma_lookup_finds(fields, 2);
    lemma_lookup_finds(fields, 3);
    lemma_lookup_finds(fields, 4);
    lemma_lookup_finds(fields, 5);
    lemma_lookup_finds(fields, 6);
    lemma_lookup_finds(fields, 7);
    lemma_lookup_finds(fields, 8);
    lemma_lookup_finds(fields, 9);
    lemma_lookup_finds(fields, 10);
    assert(first_fault(fields) is None);
    assert(assembled(fields) == config);
}

fn read_text(row: &Row, key: &str) -> (read: Result<String, DecodeError>)
    ensures
        match read {
            Ok(text) => text_fault(row@, key@) is None && text@ == text_of(row@, key@),
            Err(fault) => text_fault(row@, key@) == Some(fault@),
        },
{
    match row.get(key) {
        Some(FieldValue::Text(text)) => Ok(text.clone()),
        Some(_) => Err(DecodeError::Mismatch(String::from_str(key))),
        None => Err(DecodeError::Missing(String::from_str(key))),
    }
}

fn read_flag(row: &Row, key: &str) -> (read: Result<bool, DecodeError>)
    ensures
        match read {
            Ok(flag) => flag_fault(row@, key@) is None && flag == flag_of(row@, key@),
            Err(fault) => flag_fault(row@, key@) == Some(fault@),
        },
{
    match row.get(key) {
        Some(FieldValue::Flag(flag)) => Ok(*flag),
        Some(_) => Err(DecodeError::Mismatch(String::from_str(key))),
        None => Err(DecodeError::Missing(String::from_str(key))),
    }
}

impl DittoAppConfig {
    /// Makes a record with a fresh random identifier.
    pub fn new(
        name: String,
        app_id: String,
        auth_token: String,
        auth_url: String,
        websocket_url: String,
        http_api_url: String,
        http_api_key: String,
        mongo_db_connection_string: String,
        mode: String,
        allow_untrusted_certs: bool,
    ) -> (config: Self)
        ensures
            is_random_id_text(config.id@),
            config@ == (DittoAppConfigView {
                id: config.id@,
                name: name@,
                app_id: app_id@,
                auth_token: auth_token@,
                auth_url: auth_url@,
                websocket_url: websocket_url@,
                http_api_url: http_api_url@,
                http_api_key: http_api_key@,
                mongo_db_connection_string: mongo_db_connection_string@,
                mode: mode@,
                allow_untrusted_certs,
            }),
    {
        DittoAppConfig {
            id: random_id_text(),
            name,
            app_id,
            auth_token,
            auth_url,
            websocket_url,
            http_api_url,
            http_api_key,
            mongo_db_connection_string,
            mode,
            allow_untrusted_certs,
        }
    }

    /// Writes the record as the document that the store keeps for it.
    pub fn to_row(&self) -> (row: Row)
        ensures
            row@ == encode(self@),
    {
        let mut fields: Vec<Field> = Vec::new();
        fields.push(Field::text(ID_KEY, self.id.as_str()));
        fields.push(Field::text(NAME_KEY, self.name.as_str()));
        fields.push(Field::text(APP_ID_KEY, self.app_id.as_str()));
        fields.push(Field::text(AUTH_TOKEN_KEY, self.auth_token.as_str()));
        fields.push(Field::text(AUTH_URL_KEY, self.auth_url.as_str()));
        fields.push(Field::text(WEBSOCKET_URL_KEY, self.websocket_url.as_str()));
        fields.push(Field::text(HTTP_API_URL_KEY, self.http_api_url.as_str()));
        fields.push(Field::text(HTTP_API_KEY_KEY, self.http_api_key.as_str()));
        fields.push(
            Field::text(MONGO_DB_CONNECTION_STRING_KEY, self.mongo_db_connection_string.as_str()),
        );
        fields.push(Field::text(MODE_KEY, self.mode.as_str()));
        fields.push(Field::flag(ALLOW_UNTRUSTED_CERTS_KEY, self.allow_untrusted_certs));
        let row = Row { fields };
        assert(row@ =~= encode(self@));
        row
    }

    /// Reads a record from a document of the store. Succeeds exactly where
    /// the document has no fault, and names the first fault otherwise.
    pub fn from_row(row: &Row) -> (read: Result<DittoAppConfig, DecodeError>)
        ensures
            match read {
                Ok(config) => decode(row@) == Ok::<DittoAppConfigView, DecodeErrorView>(config@),
                Err(fault) => decode(row@) == Err::<DittoAppConfigView, DecodeErrorView>(fault@),
            },
    {
        let id = match read_text(row, ID_KEY) {
            Ok(text) => text,
            Err(fault) => {
                return Err(fault);
            },
        };
        let name = match read_text(row, NAME_KEY) {
            Ok(text) => text,
            Err(fault) => {
                return Err(fault);
            },
        };
        let app_id = match read_text(row, APP_ID_KEY) {
            Ok(text) => text,
            Err(fault) => {
                return Err(fault);
            },
        };
        let auth_token = match read_text(row, AUTH_TOKEN_KEY) {
            Ok(text) => text,
            Err(fault) => {
                return Err(fault);
            },
        };
        let auth_url = match read_text(row, AUTH_URL_KEY) {
            Ok(text) => text,
            Err(fault) => {
                return Err(fault);
            },
        };
        let websocket_url = match read_text(row, WEBSOCKET_URL_KEY) {
            Ok(text) => text,
            Err(fault) => {
                return Err(fault);
            },
        };
        let http_api_url = match read_text(row, HTTP_API_URL_KEY) {
            Ok(text) => text,
            Err(fault) => {
                return Err(fault);
            },
        };
        let http_api_key = match read_text(row, HTTP_API_KEY_KEY) {
            Ok(text) => text,
            Err(fault) => {
                return Err(fault);
            },
        };
        let mongo_db_connection_string = match read_text(row, MONGO_DB_CONNECTION_STRING_KEY) {
            Ok(text) => text,
            Err(fault) => {
                return Err(fault);
            },
        };
        let mode = match read_text(row, MODE_KEY) {
            Ok(text) => text,
            Err(fault) => {
                return Err(fault);
            },
        };
        let allow_untrusted_certs = match read_flag(row, ALLOW_UNTRUSTED_CERTS_KEY) {
            Ok(flag) => flag,
            Err(fault) => {
                return Err(fault);
            },
        };
        Ok(
            DittoAppConfig {
                id,
                name,
                app_id,
                auth_token,
                auth_url,
                websocket_url,
                http_api_url,
                http_api_key,
                mongo_db_connection_string,
                mode,
                allow_untrusted_certs,
            },
        )
    }
}

} // verus!
