//! Sync subscriptions as the studio keeps them.
//!
//! A subscription is read from a JSON object. The object and the values in
//! it belong to `serde_json`; this module reads them through a few calls
//! whose contracts are taken on trust.

use crate::identifier::{is_random_id_text, random_id_text};
use serde_json::Value;
use vstd::prelude::*;
use vstd::string::StringExecFns;

verus! {

/// A JSON value of `serde_json`, opaque to the verifier.
#[verifier::external_type_specification]
#[verifier::external_body]
pub struct ExJsonValue(serde_json::Value);

/// A JSON object of `serde_json`, opaque to the verifier.
#[verifier::external_type_specification]
#[verifier::external_body]
#[verifier::reject_recursive_types(K)]
#[verifier::reject_recursive_types(V)]
pub struct ExJsonMap<K, V>(serde_json::Map<K, V>);

/// The members that a JSON object holds, by their keys.
pub uninterp spec fn json_members(object: serde_json::Map<String, Value>) -> Map<Seq<char>, Value>;

/// The text that a JSON value holds where it is a string, `None` where it
/// is a value of another kind.
pub uninterp spec fn json_text(value: Value) -> Option<Seq<char>>;

/// The object that a JSON value holds where it is an object, `None` where
/// it is a value of another kind.
pub uninterp spec fn json_object(value: Value) -> Option<serde_json::Map<String, Value>>;

/// Looks a member up with `serde_json::Map::get`.
///
/// Trusted: the call finds the member of the key exactly where the object
/// has one, as the method's documentation says.
#[verifier::external_body]
fn member<'a>(object: &'a serde_json::Map<String, Value>, key: &str) -> (found: Option<&'a Value>)
    ensures
        match found {
            Some(value) => json_members(*object).dom().contains(key@) && json_members(
                *object,
            )[key@] == *value,
            None => !json_members(*object).dom().contains(key@),
        },
{
    object.get(key)
}

/// Reads a text with `serde_json::Value::as_str`.
///
/// Trusted: the call hands out the text of a string value and `None` for
/// every other kind of value.
#[verifier::external_body]
fn text_in<'a>(value: &'a Value) -> (text: Option<&'a str>)
    ensures
        match text {
            Some(text) => json_text(*value) == Some(text@),
            None => json_text(*value) is None,
        },
{
    value.as_str()
}

/// Reads an object with `serde_json::Value::as_object`.
///
/// Trusted: the call hands out the object of an object value and `None` for
/// every other kind of value.
#[verifier::external_body]
fn object_in<'a>(value: &'a Value) -> (object: Option<&'a serde_json::Map<String, Value>>)
    ensures
        match object {
            Some(object) => json_object(*value) == Some(*object),
            None => json_object(*value) is None,
        },
{
    value.as_object()
}

/// Copies an object with `Clone::clone` of `serde_json::Map`.
///
/// Trusted: the copy equals the object.
#[verifier::external_body]
fn copy_of(object: &serde_json::Map<String, Value>) -> (copy: serde_json::Map<String, Value>)
    ensures
        copy == *object,
{
    object.clone()
}

/// A query that the studio keeps in sync, with its arguments.
#[derive(Debug)]
pub struct DittoSubscription {
    pub id: String,
    pub name: String,
    pub query: String,
    pub args: Option<serde_json::Map<String, Value>>,
    pub sync_subscription: Option<()>,
}

/// The mathematical value of a [`DittoSubscription`].
pub ghost struct DittoSubscriptionView {
    pub id: Seq<char>,
    pub name: Seq<char>,
    pub query: Seq<char>,
    pub args: Option<serde_json::Map<String, Value>>,
    pub sync_subscription: Option<()>,
}

impl View for DittoSubscription {
    type V = DittoSubscriptionView;

    open spec fn view(&self) -> DittoSubscriptionView {
        DittoSubscriptionView {
            id: self.id@,
            name: self.name@,
            query: self.query@,
            args: self.args,
            sync_subscription: self.sync_subscription,
        }
    }
}

/// Whether the object has the three members that every subscription is
/// read from.
pub open spec fn has_subscription_members(members: Map<Seq<char>, Value>) -> bool {
    &&& members.dom().contains("_id"@)
    &&& members.dom().contains("name"@)
    &&& members.dom().contains("query"@)
}

/// The text of the member `key`, or the empty text where the member holds
/// a value of another kind.
pub open spec fn member_text(members: Map<Seq<char>, Value>, key: Seq<char>) -> Seq<char> {
    match json_text(members[key]) {
        Some(text) => text,
        None => Seq::empty(),
    }
}

/// The object of the member `key`, or `None` where there is no such member
/// or it holds a value of another kind.
pub open spec fn member_object(members: Map<Seq<char>, Value>, key: Seq<char>) -> Option<
    serde_json::Map<String, Value>,
> {
    if members.dom().contains(key) {
        json_object(members[key])
    } else {
        None
    }
}

/// The subscription that an object with the three members stands for.
pub open spec fn subscription_of(members: Map<Seq<char>, Value>) -> DittoSubscriptionView {
    DittoSubscriptionView {
        id: member_text(members, "_id"@),
        name: member_text(members, "name"@),
        query: member_text(members, "query"@),
        args: member_object(members, "args"@),
        sync_subscription: None,
    }
}

fn text_of_member(object: &serde_json::Map<String, Value>, key: &str) -> (text: Option<String>)
    ensures
        match text {
            Some(text) => json_members(*object).dom().contains(key@) && text@ == member_text(
                json_members(*object),
                key@,
            ),
            None => !json_members(*object).dom().contains(key@),
        },
{
    match member(object, key) {
        Some(value) => match text_in(value) {
            Some(text) => Some(String::from_str(text)),
            None => Some(String::new()),
        },
        None => None,
    }
}

fn object_of_member(object: &serde_json::Map<String, Value>, key: &str) -> (found: Option<
    serde_json::Map<String, Value>,
>)
    ensures
        found == member_object(json_members(*object), key@),
{
    match member(object, key) {
        Some(value) => match object_in(value) {
            Some(inner) => Some(copy_of(inner)),
            None => None,
        },
        None => None,
    }
}

impl DittoSubscription {
    /// Makes an empty subscription with a fresh random identifier.
    pub fn new() -> (subscription: Self)
        ensures
            is_random_id_text(subscription.id@),
            subscription@ == (DittoSubscriptionView {
                id: subscription.id@,
                name: Seq::empty(),
                query: Seq::empty(),
                args: None,
                sync_subscription: None,
            }),
    {
        DittoSubscription {
            id: random_id_text(),
            name: String::new(),
            query: String::new(),
            args: None,
            sync_subscription: None,
        }
    }

    /// Reads a subscription from an object that has the members `_id`,
    /// `name` and `query`. A member that holds no text reads as the empty
    /// text, and the arguments are taken only from a member `args` that holds
    /// an object.
    pub fn from_map(value: &serde_json::Map<String, Value>) -> (subscription: Self)
        requires
            has_subscription_members(json_members(*value)),
        ensures
            subscription@ == subscription_of(json_members(*value)),
    {
        let id = match text_of_member(value, "_id") {
            Some(text) => text,
            None => String::new(),
        };
        let name = match text_of_member(value, "name") {
            Some(text) => text,
            None => String::new(),
        };
        let query = match text_of_member(value, "query") {
            Some(text) => text,
            None => String::new(),
        };
        let args = object_of_member(value, "args");
        DittoSubscription { id, name, query, args, sync_subscription: None }
    }

    /// Reads a subscription from an object, or returns `None` where the
    /// object lacks one of the members `_id`, `name` and `query`.
    pub fn try_from_map(value: &serde_json::Map<String, Value>) -> (read: Option<Self>)
        ensures
            match read {
                Some(subscription) => has_subscription_members(json_members(*value))
                    && subscription@ == subscription_of(json_members(*value)),
                None => !has_subscription_members(json_members(*value)),
            },
    {
        if member(value, "_id").is_some() && member(value, "name").is_some() && member(
            value,
            "query",
        ).is_some() {
            Some(DittoSubscription::from_map(value))
        } else {
            None
        }
    }
}

impl Default for DittoSubscription {
    fn default() -> (subscription: Self)
        ensures
            is_random_id_text(subscription.id@),
            subscription@ == (DittoSubscriptionView {
                id: subscription.id@,
                name: Seq::empty(),
                query: Seq::empty(),
                args: None,
                sync_subscription: None,
            }),
    {
        DittoSubscription::new()
    }
}

} // verus!
