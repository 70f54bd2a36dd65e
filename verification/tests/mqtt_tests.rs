//! Tests for the pub/sub runtime configuration and error type.

use rs_trainz::mqtt::{MqttError, MqttRuntimeConfig};
use rs_trainz::MqttConfig;

#[test]
fn test_mqtt_config_default() {
    let config = MqttRuntimeConfig::default();
    assert_eq!(config.host, "localhost");
    assert_eq!(config.port, 1883);
    assert_eq!(config.client_id, "rs-trainz");
    assert_eq!(config.topic_prefix, "train");
    assert_eq!(config.heartbeat_ms, 5000);
    assert_eq!(config.keep_alive_secs, 30);
}

#[test]
fn test_mqtt_config_new() {
    let config = MqttRuntimeConfig::new("mqtt.example.com", 8883);
    assert_eq!(config.host, "mqtt.example.com");
    assert_eq!(config.port, 8883);
    assert_eq!(config.client_id, "rs-trainz");
    assert_eq!(config.topic_prefix, "train");
}

#[test]
fn test_mqtt_config_builder_client_id() {
    let config = MqttRuntimeConfig::default().client_id("test-client");
    assert_eq!(config.client_id, "test-client");
}

#[test]
fn test_mqtt_config_builder_topic_prefix() {
    let config = MqttRuntimeConfig::default().topic_prefix("locomotive");
    assert_eq!(config.topic_prefix, "locomotive");
}

#[test]
fn test_mqtt_config_builder_heartbeat() {
    let config = MqttRuntimeConfig::default().heartbeat_ms(10000);
    assert_eq!(config.heartbeat_ms, 10000);
}

#[test]
fn test_mqtt_config_builder_chaining() {
    let config = MqttRuntimeConfig::new("broker", 1883)
        .client_id("chained")
        .topic_prefix("trains")
        .heartbeat_ms(2500);
    assert_eq!(config.host, "broker");
    assert_eq!(config.client_id, "chained");
    assert_eq!(config.topic_prefix, "trains");
    assert_eq!(config.heartbeat_ms, 2500);
}

#[test]
fn test_mqtt_config_topic() {
    let config = MqttRuntimeConfig::default();
    assert_eq!(config.topic("speed/set"), "train/speed/set");
}

#[test]
fn test_mqtt_config_topic_custom_prefix() {
    let config = MqttRuntimeConfig::default().topic_prefix("layout/loco2");
    assert_eq!(config.topic("estop"), "layout/loco2/estop");
}

#[test]
fn test_mqtt_config_from_config() {
    let shared = MqttConfig::default()
        .with_host("10.0.0.2")
        .with_port(1884)
        .with_client_id("bridge")
        .with_topic_prefix("yard")
        .with_heartbeat_ms(7000);
    let config = MqttRuntimeConfig::from_config(&shared);
    assert_eq!(config.host, "10.0.0.2");
    assert_eq!(config.port, 1884);
    assert_eq!(config.client_id, "bridge");
    assert_eq!(config.topic_prefix, "yard");
    assert_eq!(config.heartbeat_ms, 7000);
}

#[test]
fn test_mqtt_error_connect_display() {
    let error = MqttError::Connect("connection refused".to_string());
    let display = error.message();
    assert!(display.contains("MQTT connect error"));
    assert!(display.contains("connection refused"));
}

#[test]
fn test_mqtt_error_subscribe_display() {
    let error = MqttError::Subscribe("topic not found".to_string());
    let display = error.message();
    assert!(display.contains("MQTT subscribe error"));
    assert!(display.contains("topic not found"));
}

#[test]
fn test_mqtt_error_publish_display() {
    let error = MqttError::Publish("network timeout".to_string());
    let display = error.message();
    assert!(display.contains("MQTT publish error"));
    assert!(display.contains("network timeout"));
}

#[test]
fn test_mqtt_error_is_error() {
    let error = MqttError::Connect("test".to_string());
    // The library type carries its description itself rather than
    // through the standard error trait; the message is what callers
    // surface.
    assert!(!error.message().is_empty());
    assert!(error.message().contains("test"));
}

#[test]
fn test_mqtt_error_debug() {
    let error = MqttError::Connect("test".to_string());
    let debug = format!("{:?}", error);
    assert!(debug.contains("Connect"));
    assert!(debug.contains("test"));
}
