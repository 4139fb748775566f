use netgauge::connection::{ConnectionDescriptor, KEEP_ALIVE_SECS};
use netgauge::subscriber::Delivery;
use std::time::Duration;

fn descriptor() -> ConnectionDescriptor {
    ConnectionDescriptor::new("broker.example".to_string(), 1883, "gauge-1".to_string(), "net/speed".to_string(), 10)
}

#[test]
fn new_descriptor_keeps_its_arguments() {
    let made = descriptor();
    assert_eq!(made.host, "broker.example");
    assert_eq!(made.port, 1883);
    assert_eq!(made.client_id, "gauge-1");
    assert_eq!(made.topic, "net/speed");
    assert_eq!(made.capacity, 10);
    assert_eq!(made.keep_alive_secs, 5);
    assert_eq!(KEEP_ALIVE_SECS, 5);
}

#[test]
fn options_carry_the_descriptor() {
    let options = descriptor().mqtt_options();
    assert_eq!(options.client_id(), "gauge-1");
    assert_eq!(options.broker_address(), ("broker.example".to_string(), 1883));
    assert_eq!(options.keep_alive(), Duration::from_secs(5));
}

#[test]
fn options_follow_a_configured_keep_alive() {
    let mut made = descriptor();
    made.keep_alive_secs = 30;
    made.port = 8883;
    let options = made.mqtt_options();
    assert_eq!(options.keep_alive(), Duration::from_secs(30));
    assert_eq!(options.keep_alive().as_nanos(), 30_000_000_000);
    assert_eq!(options.broker_address().1, 8883);
    made.keep_alive_secs = 0;
    assert_eq!(made.mqtt_options().keep_alive(), Duration::ZERO);
}

#[test]
fn subscription_is_at_most_once() {
    assert_eq!(descriptor().delivery(), Delivery::AtMostOnce);
}
