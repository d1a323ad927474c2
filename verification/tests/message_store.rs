use bus_rs::error::DecodeError;
use bus_rs::message::RawMessage;
use bus_rs::message_store::MessageStore;
use serde::de::Error;
use serde::Deserialize;
use serde::Deserializer;
use std::collections::HashMap;

struct CreateUserMessage {
    name: String,
}

impl<'de> Deserialize<'de> for CreateUserMessage {
    fn deserialize<D: Deserializer<'de>>(deserializer: D) -> Result<Self, D::Error> {
        let value = serde_json::Value::deserialize(deserializer)?;
        match value.get("name").and_then(|name| name.as_str()) {
            Some(name) => Ok(CreateUserMessage { name: name.to_string() }),
            None => Err(D::Error::missing_field("name")),
        }
    }
}

struct RemoveUserMessage {
    id: i32,
}

impl<'de> Deserialize<'de> for RemoveUserMessage {
    fn deserialize<D: Deserializer<'de>>(deserializer: D) -> Result<Self, D::Error> {
        let value = serde_json::Value::deserialize(deserializer)?;
        match value.get("id").and_then(|id| id.as_i64()) {
            Some(id) => Ok(RemoveUserMessage { id: id as i32 }),
            None => Err(D::Error::missing_field("id")),
        }
    }
}

fn envelope(msg_type: &str, payload: &str) -> RawMessage {
    RawMessage {
        msg_type: msg_type.to_string(),
        headers: HashMap::new(),
        payload: payload.to_string(),
    }
}

#[test]
fn should_register_and_resolve_message_correctly() {
    // given
    let mut store = MessageStore::new();

    store.register::<CreateUserMessage>("create_user");
    store.register::<RemoveUserMessage>("remove_user");

    let raw_msg_create_user_a = RawMessage {
        msg_type: "create_user".to_string(),
        headers: HashMap::new(),
        payload: r#"{ "name": "seba" }"#.to_string(),
    };
    let raw_msg_create_user_b = RawMessage {
        msg_type: "create_user".to_string(),
        headers: HashMap::new(),
        payload: r#"{ "name": "john" }"#.to_string(),
    };
    let raw_msg_remove_user = RawMessage {
        msg_type: "remove_user".to_string(),
        headers: HashMap::new(),
        payload: r#"{ "id": 123 }"#.to_string(),
    };
    // when
    let create_user_a = store.resolve::<CreateUserMessage>(&raw_msg_create_user_a).unwrap();
    let remove_user = store.resolve::<RemoveUserMessage>(&raw_msg_remove_user).unwrap();
    let create_user_b = store.resolve::<CreateUserMessage>(&raw_msg_create_user_b).unwrap();

    // then
    assert_eq!(123, remove_user.id);
    assert_eq!("seba", create_user_a.name);
    assert_eq!("john", create_user_b.name);
}

#[test]
fn message_should_register_and_resolve_message_correctly() {
    // given
    let mut store = MessageStore::new();

    store.register::<CreateUserMessage>("create_user");
    store.register::<RemoveUserMessage>("remove_user");

    let raw_msg_create_user_a = envelope("create_user", r#"{ "name": "seba" }"#);
    let raw_msg_create_user_b = envelope("create_user", r#"{ "name": "john" }"#);
    let raw_msg_remove_user = envelope("remove_user", r#"{ "id": 123 }"#);
    // when
    let create_user_a = store.resolve::<CreateUserMessage>(&raw_msg_create_user_a).unwrap();
    let remove_user = store.resolve::<RemoveUserMessage>(&raw_msg_remove_user).unwrap();
    let create_user_b = store.resolve::<CreateUserMessage>(&raw_msg_create_user_b).unwrap();

    // then
    assert_eq!(123, remove_user.id);
    assert_eq!("seba", create_user_a.name);
    assert_eq!("john", create_user_b.name);
}

#[test]
fn resolve_refuses_an_unregistered_name() {
    let mut store = MessageStore::new();
    store.register::<CreateUserMessage>("create_user");

    let resolved = store.resolve::<CreateUserMessage>(&envelope("rename_user", r#"{ "name": "seba" }"#));

    assert!(matches!(resolved, Err(DecodeError::NotRegistered)));
    assert!(!store.is_registered("rename_user"));
    assert!(store.is_registered("create_user"));
}

#[test]
fn resolve_refuses_a_type_other_than_the_registered_one() {
    let mut store = MessageStore::new();
    store.register::<CreateUserMessage>("create_user");

    let resolved = store.resolve::<RemoveUserMessage>(&envelope("create_user", r#"{ "id": 123 }"#));

    assert!(matches!(resolved, Err(DecodeError::TypeMismatch)));
}

#[test]
fn resolve_reports_a_payload_that_does_not_decode() {
    let mut store = MessageStore::new();
    store.register::<CreateUserMessage>("create_user");

    let wrong_shape = store.resolve::<CreateUserMessage>(&envelope("create_user", r#"{ "id": 123 }"#));
    let not_json = store.resolve::<CreateUserMessage>(&envelope("create_user", "seba"));

    assert!(matches!(wrong_shape, Err(DecodeError::Payload(_))));
    assert!(matches!(not_json, Err(DecodeError::Payload(_))));
}

#[test]
fn registering_a_name_again_replaces_its_type() {
    let mut store = MessageStore::new();
    store.register::<CreateUserMessage>("user");
    store.register::<RemoveUserMessage>("user");

    let as_first = store.resolve::<CreateUserMessage>(&envelope("user", r#"{ "name": "seba" }"#));
    let as_second = store.resolve::<RemoveUserMessage>(&envelope("user", r#"{ "id": 7 }"#));

    assert!(matches!(as_first, Err(DecodeError::TypeMismatch)));
    assert_eq!(7, as_second.unwrap().id);
}
