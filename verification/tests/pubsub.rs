use bus_rs::builder::pubsub;
use bus_rs::builder::Builder;
use bus_rs::client::Client;
use bus_rs::client::Inbox;
use bus_rs::error::ClientError;
use bus_rs::error::PublishError;
use bus_rs::layer::PubSubLayer;
use bus_rs::layer::Step;
use bus_rs::listener::Listener;
use bus_rs::message::MessageTypeName;
use bus_rs::message::RawMessage;
use bus_rs::message_handler::MessageHandler;
use bus_rs::publisher::payload_of;
use bus_rs::publisher::Publisher;
use bus_rs::publisher::PublisherContext;
use serde::de::Error as DeError;
use serde::ser::Error as SerError;
use serde::ser::SerializeStruct;
use serde::Deserialize;
use serde::Deserializer;
use serde::Serialize;
use serde::Serializer;
use std::collections::HashMap;
use std::sync::Arc;
use std::sync::Mutex;

struct TestLogger {
    messages: Vec<String>,
}

impl TestLogger {
    fn new() -> Self {
        TestLogger { messages: vec![] }
    }

    fn info(&mut self, msg: String) {
        self.messages.push(msg);
    }

    fn get(&self) -> &Vec<String> {
        &self.messages
    }
}

struct TestLayer {
    logger: Arc<Mutex<TestLogger>>,
}

impl PubSubLayer for TestLayer {
    fn before(&self, raw_msg: &mut RawMessage) {
        self.logger.lock().unwrap().info(format!("TestLayer before | msg: {:?}", raw_msg));
    }

    fn after(&self, raw_msg: &RawMessage) {
        self.logger.lock().unwrap().info(format!("TestLayer after | msg: {:?}", raw_msg));
    }
}

struct SecondTestLayer {
    logger: Arc<Mutex<TestLogger>>,
}

impl PubSubLayer for SecondTestLayer {
    fn before(&self, raw_msg: &mut RawMessage) {
        self.logger.lock().unwrap().info(format!("SecondTestLayer before | msg: {:?}", raw_msg));
    }

    fn after(&self, raw_msg: &RawMessage) {
        self.logger.lock().unwrap().info(format!("SecondTestLayer after | msg: {:?}", raw_msg));
    }
}

struct StampingLayer;

impl PubSubLayer for StampingLayer {
    fn before(&self, raw_msg: &mut RawMessage) {
        raw_msg.headers.insert("stamp".to_string(), "1".to_string());
    }

    fn after(&self, _raw_msg: &RawMessage) {
    }
}

fn data_field<'de, D: Deserializer<'de>>(deserializer: D) -> Result<String, D::Error> {
    let value = serde_json::Value::deserialize(deserializer)?;
    match value.get("data").and_then(|data| data.as_str()) {
        Some(data) => Ok(data.to_string()),
        None => Err(D::Error::missing_field("data")),
    }
}

#[derive(Clone)]
struct TestMessage {
    data: String,
}

impl Serialize for TestMessage {
    fn serialize<S: Serializer>(&self, serializer: S) -> Result<S::Ok, S::Error> {
        let mut fields = serializer.serialize_struct("TestMessage", 1)?;
        fields.serialize_field("data", &self.data)?;
        fields.end()
    }
}

impl<'de> Deserialize<'de> for TestMessage {
    fn deserialize<D: Deserializer<'de>>(deserializer: D) -> Result<Self, D::Error> {
        Ok(TestMessage { data: data_field(deserializer)? })
    }
}

impl MessageTypeName for TestMessage {
    fn name() -> &'static str {
        "TestMessage"
    }
}

#[derive(Clone)]
struct EmptyTestMessage {
    data: String,
}

impl Serialize for EmptyTestMessage {
    fn serialize<S: Serializer>(&self, serializer: S) -> Result<S::Ok, S::Error> {
        let mut fields = serializer.serialize_struct("EmptyTestMessage", 1)?;
        fields.serialize_field("data", &self.data)?;
        fields.end()
    }
}

impl<'de> Deserialize<'de> for EmptyTestMessage {
    fn deserialize<D: Deserializer<'de>>(deserializer: D) -> Result<Self, D::Error> {
        Ok(EmptyTestMessage { data: data_field(deserializer)? })
    }
}

impl MessageTypeName for EmptyTestMessage {
    fn name() -> &'static str {
        "EmptyTestMessage"
    }
}

struct WrongTestMessage {
    data: String,
}

impl<'de> Deserialize<'de> for WrongTestMessage {
    fn deserialize<D: Deserializer<'de>>(deserializer: D) -> Result<Self, D::Error> {
        Ok(WrongTestMessage { data: data_field(deserializer)? })
    }
}

impl MessageTypeName for WrongTestMessage {
    fn name() -> &'static str {
        "WrongTestMessage"
    }
}

struct Unserializable;

impl Serialize for Unserializable {
    fn serialize<S: Serializer>(&self, _serializer: S) -> Result<S::Ok, S::Error> {
        Err(S::Error::custom("no wire form"))
    }
}

impl MessageTypeName for Unserializable {
    fn name() -> &'static str {
        "Unserializable"
    }
}

struct EmptyTestMessageHandler;

impl MessageHandler<EmptyTestMessage> for EmptyTestMessageHandler {
    fn handle(&mut self, _msg: EmptyTestMessage, _headers: Option<HashMap<String, String>>) {
    }
}

struct TestMessageHandler {
    logger: Arc<Mutex<TestLogger>>,
}

impl MessageHandler<TestMessage> for TestMessageHandler {
    fn handle(&mut self, msg: TestMessage, headers: Option<HashMap<String, String>>) {
        let mut l = self.logger.lock().unwrap();
        let headers_str: String = match headers {
            Some(h) => h
                .iter()
                .map(|(k, v)| format!("{}={}", k, v))
                .collect::<Vec<String>>()
                .join(","),
            None => "".to_string(),
        };
        l.info(format!("msg: {} headers: {}", msg.data, headers_str));
    }
}

struct WrongTestMessageHandler {
    logger: Arc<Mutex<TestLogger>>,
}

impl MessageHandler<WrongTestMessage> for WrongTestMessageHandler {
    fn handle(&mut self, msg: WrongTestMessage, _headers: Option<HashMap<String, String>>) {
        let mut l = self.logger.lock().unwrap();
        l.info(format!("wrong test {}", msg.data));
    }
}

/// A transport that hands to its receiver what was sent over the same channel.
struct LoopbackClient {
    channel: Arc<Mutex<Vec<RawMessage>>>,
}

impl LoopbackClient {
    fn on(channel: &Arc<Mutex<Vec<RawMessage>>>) -> Box<LoopbackClient> {
        Box::new(LoopbackClient { channel: channel.clone() })
    }
}

impl Client for LoopbackClient {
    fn receiver(&mut self, inbox: &mut Inbox) -> Result<(), ClientError> {
        let pending: Vec<RawMessage> = self.channel.lock().unwrap().drain(..).collect();
        for msg in pending {
            inbox.dispatch(msg);
        }
        Ok(())
    }

    fn send(&mut self, msg: &RawMessage) -> Result<(), ClientError> {
        self.channel.lock().unwrap().push(msg.clone());
        Ok(())
    }
}

struct RefusingClient {
    fault: Option<ClientError>,
}

impl Client for RefusingClient {
    fn receiver(&mut self, _inbox: &mut Inbox) -> Result<(), ClientError> {
        Err(ClientError::NotAssignedConnection)
    }

    fn send(&mut self, _msg: &RawMessage) -> Result<(), ClientError> {
        match self.fault.take() {
            Some(fault) => Err(fault),
            None => Ok(()),
        }
    }
}

fn new_channel() -> Arc<Mutex<Vec<RawMessage>>> {
    Arc::new(Mutex::new(vec![]))
}

fn test_raw_msg(msg_type: &str, headers: HashMap<String, String>) -> RawMessage {
    RawMessage {
        msg_type: msg_type.to_string(),
        headers,
        payload: r#"{"data":"test_data"}"#.to_string(),
    }
}

#[test]
fn should_listener_with_redis_client_receive_message_correctly() {
    // given
    let channel = new_channel();
    let logger = Arc::new(Mutex::new(TestLogger::new()));
    let mut listener: Listener = pubsub(LoopbackClient::on(&channel)).build();

    listener.register_handler(WrongTestMessageHandler {
        logger: logger.clone(),
    });
    listener.register_handler(TestMessageHandler {
        logger: logger.clone(),
    });

    let test_raw_msg = test_raw_msg(
        "TestMessage",
        HashMap::from([("trace-id".to_owned(), "123".to_owned())]),
    );

    // when
    channel.lock().unwrap().push(test_raw_msg);
    listener.listen().unwrap();

    // then
    let logger = logger.lock().unwrap();
    assert_eq!(1, logger.get().len());
    assert_eq!("msg: test_data headers: trace-id=123", logger.get()[0]);
}

#[test]
fn should_listener_with_registered_layers_call_before_and_after_actions_in_correct_order() {
    // given layer
    let channel = new_channel();
    let logger = Arc::new(Mutex::new(TestLogger::new()));

    let first_layer = TestLayer {
        logger: logger.clone(),
    };
    let second_layer = SecondTestLayer {
        logger: logger.clone(),
    };

    // given listener
    let mut listener: Listener = pubsub(LoopbackClient::on(&channel))
        .add_layer(Box::new(first_layer))
        .add_layer(Box::new(second_layer))
        .build();

    listener.register_handler(EmptyTestMessageHandler {});

    let test_raw_msg = test_raw_msg(
        "EmptyTestMessage",
        HashMap::from([("trace-id".to_owned(), "123".to_owned())]),
    );

    // when
    channel.lock().unwrap().push(test_raw_msg.clone());
    listener.listen().unwrap();

    // then
    let logger = logger.lock().unwrap();
    assert_eq!(4, logger.messages.len());
    assert_eq!(
        format!("TestLayer before | msg: {:?}", test_raw_msg),
        logger.messages[0]
    );
    assert_eq!(
        format!("SecondTestLayer before | msg: {:?}", test_raw_msg),
        logger.messages[1]
    );
    assert_eq!(
        format!("SecondTestLayer after | msg: {:?}", test_raw_msg),
        logger.messages[2]
    );
    assert_eq!(
        format!("TestLayer after | msg: {:?}", test_raw_msg),
        logger.messages[3]
    );
}

#[test]
fn should_publisher_with_redis_client_send_message_correctly() {
    // given publisher
    let channel = new_channel();
    let mut publisher: Publisher = pubsub(LoopbackClient::on(&channel)).build();

    let test_msg = TestMessage {
        data: "test_data".to_string(),
    };

    // when
    let headers = HashMap::from([("trace-id".to_owned(), "trace123".to_owned())]);
    publisher.publish(&test_msg, Some(headers)).unwrap();

    // then
    let message_result = channel.lock().unwrap()[0].clone();
    assert_eq!("TestMessage", message_result.msg_type);
    assert_eq!(r#"{"data":"test_data"}"#, message_result.payload);

    // and headers
    let expected_headers = HashMap::from([("trace-id".to_owned(), "trace123".to_owned())]);
    assert_eq!(expected_headers, message_result.headers);
}

#[test]
fn should_publisher_with_registered_layers_call_before_and_after_actions_in_correct_order() {
    // given layer
    let channel = new_channel();
    let logger = Arc::new(Mutex::new(TestLogger::new()));

    let first_layer = TestLayer {
        logger: logger.clone(),
    };
    let second_layer = SecondTestLayer {
        logger: logger.clone(),
    };
    // given publisher
    let mut publisher: Publisher = pubsub(LoopbackClient::on(&channel))
        .add_layer(Box::new(first_layer))
        .add_layer(Box::new(second_layer))
        .build();

    // given messages
    let headers = HashMap::from([("trace-id".to_owned(), "trace123".to_owned())]);
    let test_msg = TestMessage {
        data: "test_data".to_string(),
    };
    let expected_msg = test_raw_msg("TestMessage", headers.clone());

    // when
    let publication = publisher.publish(&test_msg, Some(headers)).unwrap();

    // then
    let logger = logger.lock().unwrap();
    assert_eq!(4, logger.messages.len());
    assert_eq!(
        format!("TestLayer before | msg: {:?}", expected_msg),
        logger.messages[0]
    );
    assert_eq!(
        format!("SecondTestLayer before | msg: {:?}", expected_msg),
        logger.messages[1]
    );
    assert_eq!(
        format!("SecondTestLayer after | msg: {:?}", expected_msg),
        logger.messages[2]
    );
    assert_eq!(
        format!("TestLayer after | msg: {:?}", expected_msg),
        logger.messages[3]
    );
    assert_eq!(
        vec![Step::Before(0), Step::Before(1), Step::Deliver, Step::After(1), Step::After(0)],
        publication.steps
    );
}

#[test]
fn a_published_message_reaches_the_handler_on_the_same_transport() {
    let channel = new_channel();
    let logger = Arc::new(Mutex::new(TestLogger::new()));
    let mut publisher: Publisher = pubsub(LoopbackClient::on(&channel)).build();
    let mut listener: Listener = pubsub(LoopbackClient::on(&channel)).build();
    listener.register_handler(TestMessageHandler {
        logger: logger.clone(),
    });

    publisher
        .publish(
            &TestMessage { data: "test_data".to_string() },
            Some(HashMap::from([("trace-id".to_string(), "123".to_string())])),
        )
        .unwrap();
    listener.listen().unwrap();

    let logger = logger.lock().unwrap();
    assert_eq!(1, logger.get().len());
    assert_eq!("msg: test_data headers: trace-id=123", logger.get()[0]);
}

#[test]
fn a_message_published_without_headers_is_handled_without_headers() {
    let channel = new_channel();
    let logger = Arc::new(Mutex::new(TestLogger::new()));
    let mut publisher = Publisher::new(PublisherContext::new(LoopbackClient::on(&channel), vec![]));
    let mut listener = Listener::new(LoopbackClient::on(&channel), vec![]);
    listener.register_handler(TestMessageHandler {
        logger: logger.clone(),
    });

    let publication = publisher
        .publish(&TestMessage { data: "test_data".to_string() }, None)
        .unwrap();
    listener.listen().unwrap();

    assert!(publication.envelope.headers.is_empty());
    assert_eq!(vec![Step::Deliver], publication.steps);
    assert_eq!("msg: test_data headers: ", logger.lock().unwrap().get()[0]);
}

#[test]
fn the_transport_sends_what_the_layers_left() {
    let channel = new_channel();
    let mut publisher: Publisher = pubsub(LoopbackClient::on(&channel))
        .add_layer(Box::new(StampingLayer))
        .build();

    let publication = publisher
        .publish_encoded("Note", "{}".to_string(), None)
        .unwrap();

    let sent = channel.lock().unwrap()[0].clone();
    assert_eq!("Note", sent.msg_type);
    assert_eq!("{}", sent.payload);
    assert_eq!(Some(&"1".to_string()), sent.headers.get("stamp"));
    assert_eq!(sent.headers, publication.envelope.headers);
    assert_eq!(vec![Step::Before(0), Step::Deliver, Step::After(0)], publication.steps);
}

#[test]
fn a_transport_fault_is_surfaced_after_the_layers_have_run() {
    let logger = Arc::new(Mutex::new(TestLogger::new()));
    let client = Box::new(RefusingClient { fault: Some(ClientError::IO("broken pipe".to_string())) });
    let mut publisher: Publisher = pubsub(client)
        .add_layer(Box::new(TestLayer { logger: logger.clone() }))
        .build();

    let refused = publisher.publish(&TestMessage { data: "test_data".to_string() }, None);
    let sent = publisher.publish(&TestMessage { data: "test_data".to_string() }, None);

    assert!(matches!(
        refused,
        Err(PublishError::Transport(ClientError::IO(detail))) if detail == "broken pipe"
    ));
    assert!(sent.is_ok());
    let logger = logger.lock().unwrap();
    assert_eq!(4, logger.get().len());
    assert!(logger.get()[0].starts_with("TestLayer before"));
    assert!(logger.get()[1].starts_with("TestLayer after"));
}

#[test]
fn a_message_that_cannot_be_serialized_is_reported_before_any_layer_runs() {
    let channel = new_channel();
    let logger = Arc::new(Mutex::new(TestLogger::new()));
    let mut publisher: Publisher = pubsub(LoopbackClient::on(&channel))
        .add_layer(Box::new(TestLayer { logger: logger.clone() }))
        .build();

    let result = publisher.publish(&Unserializable, None);

    assert!(matches!(result, Err(PublishError::Encode(text)) if text.contains("no wire form")));
    assert!(logger.lock().unwrap().get().is_empty());
    assert!(channel.lock().unwrap().is_empty());
}

#[test]
fn payload_of_keeps_the_text_and_names_a_fault() {
    let text = payload_of(serde_json::to_string(&TestMessage { data: "x".to_string() }));
    let fault = payload_of(serde_json::to_string(&Unserializable));

    assert_eq!(r#"{"data":"x"}"#, text.unwrap());
    assert!(matches!(fault, Err(PublishError::Encode(text)) if text.contains("no wire form")));
}

#[test]
fn a_built_publisher_sends_on_the_transport_the_builder_was_started_on() {
    let first = new_channel();
    let second = new_channel();
    let mut on_first: Publisher = pubsub(LoopbackClient::on(&first))
        .add_layer(Box::new(StampingLayer))
        .build();
    let mut on_second = pubsub(LoopbackClient::on(&second)).build_publisher();

    on_first.publish_encoded("Note", "1".to_string(), None).unwrap();
    on_second.publish_encoded("Note", "2".to_string(), None).unwrap();
    on_second.publish_encoded("Note", "3".to_string(), None).unwrap();

    let first: Vec<String> = first.lock().unwrap().iter().map(|m| m.payload.clone()).collect();
    let second: Vec<String> = second.lock().unwrap().iter().map(|m| m.payload.clone()).collect();
    assert_eq!(vec!["1"], first);
    assert_eq!(vec!["2", "3"], second);
}

#[test]
fn a_built_listener_listens_on_the_transport_the_builder_was_started_on() {
    let first = new_channel();
    let second = new_channel();
    let logger = Arc::new(Mutex::new(TestLogger::new()));
    let mut listener = pubsub(LoopbackClient::on(&first)).build_listener();
    listener.register_handler(TestMessageHandler {
        logger: logger.clone(),
    });
    first.lock().unwrap().push(test_raw_msg("TestMessage", HashMap::new()));
    second.lock().unwrap().push(test_raw_msg("TestMessage", HashMap::new()));

    listener.listen().unwrap();

    assert_eq!(1, logger.lock().unwrap().get().len());
    assert!(first.lock().unwrap().is_empty());
    assert_eq!(1, second.lock().unwrap().len());
}
