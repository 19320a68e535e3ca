use mqtt_topic_lab::buffer::{Message, MessageBuffer, MAX_MESSAGES};
use mqtt_topic_lab::session::{client_settings, MqttClient, MqttError, KEEP_ALIVE_SECS};
use mqtt_topic_lab::supervisor::{poll_event, read_poll, PollEvent, PollOutcome, Step, Supervisor};
use mqtt_topic_lab::types::{Connection, ConnectionStatus, QoS};
use std::collections::HashMap;
use std::time::Duration;

fn create_test_connection(broker_url: &str, port: u16) -> Connection {
    Connection {
        id: "test-id".to_string(),
        name: "Test Connection".to_string(),
        broker_url: broker_url.to_string(),
        port,
        client_id: "test-client-lab".to_string(),
        username: None,
        password: None,
        use_tls: false,
        auto_connect: false,
        variables: HashMap::new(),
        buttons: vec![],
        subscriptions: vec![],
    }
}

fn message(i: u64) -> Message {
    Message { topic: format!("t/{}", i), payload: format!("p{}", i), timestamp: i }
}

#[test]
fn test_mqtt_client_initial_status() {
    let client = MqttClient::new();
    assert_eq!(client.get_status(), ConnectionStatus::Disconnected);
}

#[test]
fn test_mqtt_client_default() {
    let client = MqttClient::default();
    assert_eq!(client.get_status(), ConnectionStatus::Disconnected);
}

#[test]
fn test_publish_without_connection_fails() {
    let client = MqttClient::new();
    let result = client.publish("test/topic", "payload", QoS::AtMostOnce, false);
    assert!(matches!(result, Err(MqttError::NotConnected)));
}

#[test]
fn test_subscribe_without_connection_fails() {
    let client = MqttClient::new();
    let result = client.subscribe("test/topic", QoS::AtMostOnce);
    assert!(matches!(result, Err(MqttError::NotConnected)));
}

#[test]
fn unsubscribe_without_connection_fails_and_changes_nothing() {
    let client = MqttClient::new();
    let result = client.unsubscribe("test/topic");
    assert!(matches!(result, Err(MqttError::NotConnected)));
    assert!(client.get_subscriptions().is_empty());
    assert_eq!(client.get_status(), ConnectionStatus::Disconnected);
}

#[test]
fn test_disconnect_without_connection() {
    let mut client = MqttClient::new();
    let result = client.disconnect();
    assert!(result.is_ok());
    let closed = result.unwrap();
    assert!(closed.info.is_none());
    assert!(closed.client.is_none());
    assert_eq!(client.get_status(), ConnectionStatus::Disconnected);
}

#[test]
fn test_messages_empty_initially() {
    let client = MqttClient::new();
    assert!(client.get_messages().is_empty());
}

#[test]
fn test_subscriptions_empty_initially() {
    let client = MqttClient::new();
    assert!(client.get_subscriptions().is_empty());
}

#[test]
fn test_connect_sets_connecting_status() {
    let rt = tokio::runtime::Runtime::new().unwrap();
    let _guard = rt.enter();
    let mut client = MqttClient::new();
    let config = create_test_connection("invalid.broker.local", 1883);
    let _ = client.connect(&config, None);
    let status = client.get_status();
    assert!(
        status == ConnectionStatus::Connecting || status == ConnectionStatus::Error,
        "Expected Connecting or Error, got {:?}",
        status
    );
    let _ = client.disconnect();
}

#[test]
fn test_connect_to_invalid_broker_eventually_errors() {
    let rt = tokio::runtime::Runtime::new().unwrap();
    let mut client = MqttClient::new();
    let config = create_test_connection("nonexistent.invalid.host", 1883);
    let mut event_loop = {
        let _guard = rt.enter();
        client.connect(&config, None).unwrap().unwrap()
    };
    let polled = rt.block_on(async {
        tokio::time::timeout(Duration::from_secs(1), event_loop.poll()).await
    });
    let event = read_poll(polled.expect("poll did not finish"), 0);
    let mut sup = Supervisor::new();
    let (step, _) = sup.step(&mut client, event);
    assert_eq!(step, Step::Retry);
    assert_eq!(client.get_status(), ConnectionStatus::Error);
    let _ = client.disconnect();
}

#[test]
fn test_disconnect_resets_status() {
    let rt = tokio::runtime::Runtime::new().unwrap();
    let _guard = rt.enter();
    let mut client = MqttClient::new();
    let config = create_test_connection("invalid.broker.local", 1883);
    let _ = client.connect(&config, None);
    let closed = client.disconnect().unwrap();
    assert_eq!(client.get_status(), ConnectionStatus::Disconnected);
    assert!(closed.client.is_some());
    assert_eq!(
        closed.info,
        Some(("Test Connection".to_string(), "invalid.broker.local".to_string()))
    );
}

#[test]
fn test_connect_already_connected_noop() {
    let rt = tokio::runtime::Runtime::new().unwrap();
    let _guard = rt.enter();
    let mut client = MqttClient::new();
    let config = create_test_connection("invalid.broker.local", 1883);
    let result1 = client.connect(&config, None);
    assert!(result1.is_ok());
    assert!(result1.unwrap().is_some());
    let result2 = client.connect(&config, None);
    assert!(result2.is_ok());
    assert!(result2.unwrap().is_none());
    assert_eq!(client.get_status(), ConnectionStatus::Connecting);
    let _ = client.disconnect();
}

#[test]
fn test_mqtt_error_display() {
    let not_connected = MqttError::NotConnected;
    assert_eq!(not_connected.message(), "Not connected");
}

#[test]
fn subscribe_twice_lists_topic_once() {
    let rt = tokio::runtime::Runtime::new().unwrap();
    let _guard = rt.enter();
    let mut client = MqttClient::new();
    let config = create_test_connection("invalid.broker.local", 1883);
    let _event_loop = client.connect(&config, None).unwrap();
    for _ in 0..2 {
        let (handle, topic) = {
            let req = client.subscribe("t", QoS::AtLeastOnce).unwrap();
            assert_eq!(req.topic, "t");
            assert_eq!(req.qos, QoS::AtLeastOnce);
            (req.client.clone(), req.topic)
        };
        rt.block_on(handle.subscribe(topic.as_str(), rumqttc::QoS::AtLeastOnce)).unwrap();
        client.record_subscription(&topic);
    }
    assert_eq!(client.get_subscriptions(), vec!["t".to_string()]);
    client.record_subscription("u");
    let topic = client.unsubscribe("t").unwrap().topic;
    client.forget_subscription(&topic);
    assert_eq!(client.get_subscriptions(), vec!["u".to_string()]);
    let req = client.publish("u", "hello", QoS::ExactlyOnce, true).unwrap();
    assert_eq!(req.topic, "u");
    assert_eq!(req.payload, "hello");
    assert_eq!(req.qos, QoS::ExactlyOnce);
    assert!(req.retain);
    let _ = client.disconnect();
    assert!(client.get_subscriptions().is_empty());
}

#[test]
fn connect_clears_messages_and_subscriptions() {
    let rt = tokio::runtime::Runtime::new().unwrap();
    let _guard = rt.enter();
    let mut client = MqttClient::new();
    client.receive(message(1));
    assert_eq!(client.get_messages().len(), 1);
    let _ = client.connect(&create_test_connection("h", 1883), None);
    assert!(client.get_messages().is_empty());
    assert!(client.get_subscriptions().is_empty());
}

#[test]
fn settings_strip_scheme_and_pair_credentials() {
    let mut config = create_test_connection("  mqtts://broker.example.com ", 8883);
    config.username = Some("user".to_string());
    let s = client_settings(&config);
    assert_eq!(s.host, "broker.example.com");
    assert_eq!(s.port, 8883);
    assert_eq!(s.keep_alive_secs, KEEP_ALIVE_SECS);
    assert_eq!(s.keep_alive_secs, 30);
    assert!(s.credentials.is_none());
    config.password = Some("pw".to_string());
    let s = client_settings(&config);
    assert_eq!(s.credentials, Some(("user".to_string(), "pw".to_string())));
}

#[test]
fn buffer_keeps_arrival_order_below_capacity() {
    let mut b = MessageBuffer::new();
    for i in 0..40u64 {
        b.push(message(i));
    }
    let v = b.to_vec();
    assert_eq!(v.len(), 40);
    for (k, m) in v.iter().enumerate() {
        assert_eq!(m.timestamp, k as u64);
    }
}

#[test]
fn buffer_keeps_last_hundred() {
    let mut b = MessageBuffer::new();
    for i in 0..150u64 {
        b.push(message(i));
    }
    let v = b.to_vec();
    assert_eq!(v.len(), MAX_MESSAGES);
    assert_eq!(v.len(), 100);
    assert_eq!(v[0].timestamp, 50);
    assert_eq!(v[0].topic, "t/50");
    assert_eq!(v[99].timestamp, 149);
    b.clear();
    assert_eq!(b.len(), 0);
}

#[test]
fn received_publish_is_decoded_lossily_and_stored() {
    let mut client = MqttClient::new();
    let mut sup = Supervisor::new();
    let ev = poll_event(
        PollOutcome::Published { topic: "a/b".to_string(), payload: vec![104, 105, 0xff] },
        1234,
    );
    let (step, notice) = sup.step(&mut client, ev);
    assert_eq!(step, Step::Continue);
    assert!(notice.is_some());
    let msgs = client.get_messages();
    assert_eq!(msgs.len(), 1);
    assert_eq!(msgs[0].topic, "a/b");
    assert_eq!(msgs[0].payload, "hi\u{FFFD}");
    assert_eq!(msgs[0].timestamp, 1234);
}

#[test]
fn acknowledgement_sets_connected() {
    let mut client = MqttClient::new();
    let mut sup = Supervisor::new();
    let (step, _) = sup.step(&mut client, PollEvent::Acknowledged);
    assert_eq!(step, Step::Continue);
    assert_eq!(client.get_status(), ConnectionStatus::Connected);
}

#[test]
fn five_failures_in_a_row_stop_the_supervisor() {
    let mut client = MqttClient::new();
    let mut sup = Supervisor::new();
    for _ in 0..4 {
        let (step, _) = sup.step(&mut client, PollEvent::Failed);
        assert_eq!(step, Step::Retry);
        assert_eq!(client.get_status(), ConnectionStatus::Error);
    }
    let (step, _) = sup.step(&mut client, PollEvent::Failed);
    assert_eq!(step, Step::Stop);
    assert_eq!(client.get_status(), ConnectionStatus::Error);
}

#[test]
fn a_success_resets_the_failure_count() {
    let mut client = MqttClient::new();
    let mut sup = Supervisor::new();
    let (step, _) = sup.step(&mut client, PollEvent::Failed);
    assert_eq!(step, Step::Retry);
    let (step, _) = sup.step(&mut client, PollEvent::Other);
    assert_eq!(step, Step::Continue);
    for _ in 0..4 {
        let (step, _) = sup.step(&mut client, PollEvent::Failed);
        assert_eq!(step, Step::Retry);
    }
    let (step, _) = sup.step(&mut client, PollEvent::Failed);
    assert_eq!(step, Step::Stop);
}

#[test]
fn requests_fail_with_the_client_answer_once_the_event_loop_is_gone() {
    let rt = tokio::runtime::Runtime::new().unwrap();
    let _guard = rt.enter();
    let mut client = MqttClient::new();
    let config = create_test_connection("invalid.broker.local", 1883);
    drop(client.connect(&config, None).unwrap());
    let handle = client.publish("t", "x", QoS::AtMostOnce, false).unwrap().client.clone();
    let answer = rt.block_on(handle.publish("t", rumqttc::QoS::AtMostOnce, false, "x"));
    match answer {
        Err(e) => assert!(MqttError::Client(e).message().starts_with("Client error: ")),
        Ok(()) => panic!("expected a client error"),
    }
    assert!(client.get_subscriptions().is_empty());
    assert_eq!(client.get_status(), ConnectionStatus::Connecting);
}
