//! The settings of the broker connection.

use vstd::prelude::*;
use vstd::string::*;
use crate::subscriber::Delivery;

verus! {

/// The keep-alive interval used where none is configured, in seconds.
pub const KEEP_ALIVE_SECS: u64 = 5;

/// Where and how to connect, and what to subscribe to. It is made once at
/// startup and only read afterwards.
#[derive(Clone, Debug, PartialEq, Eq)]
pub struct ConnectionDescriptor {
    /// The broker's host name or address.
    pub host: String,
    /// The broker's port.
    pub port: u16,
    /// The name by which this client identifies itself to the broker.
    pub client_id: String,
    /// The one topic to subscribe to.
    pub topic: String,
    /// The capacity of the queue of requests to the connection.
    pub capacity: usize,
    /// The longest silence, in seconds, before the connection counts as dead.
    pub keep_alive_secs: u64,
}

/// Makes `rumqttc::MqttOptions`, the broker library's connection options,
/// known as a type whose inside is not looked at.
#[verifier::external_type_specification]
#[verifier::external_body]
pub struct ExMqttOptions(rumqttc::MqttOptions);

/// The client identifier held by broker options: what
/// `rumqttc::MqttOptions::client_id` returns.
pub uninterp spec fn client_id_of(options: rumqttc::MqttOptions) -> Seq<char>;

/// The host and port held by broker options: what
/// `rumqttc::MqttOptions::broker_address` returns.
pub uninterp spec fn broker_address_of(options: rumqttc::MqttOptions) -> (Seq<char>, u16);

/// The keep-alive interval held by broker options, in nanoseconds: what
/// `rumqttc::MqttOptions::keep_alive` returns.
pub uninterp spec fn keep_alive_nanos_of(options: rumqttc::MqttOptions) -> nat;

/// Calls `rumqttc::MqttOptions::new`, which stores the identifier, the host
/// and the port as given and fills every other setting with a default.
#[verifier::external_body]
fn new_options(client_id: &str, host: &str, port: u16) -> (options: rumqttc::MqttOptions)
    ensures
        client_id_of(options) == client_id@,
        broker_address_of(options) == (host@, port),
{
    rumqttc::MqttOptions::new(client_id, host, port)
}

/// Calls `rumqttc::MqttOptions::set_keep_alive` with a whole number of
/// seconds. It replaces the keep-alive interval and nothing else. (It
/// rejects intervals between zero and one second; whole seconds never are.)
#[verifier::external_body]
fn set_keep_alive(options: &mut rumqttc::MqttOptions, secs: u64)
    ensures
        keep_alive_nanos_of(*final(options)) == secs * 1_000_000_000,
        client_id_of(*final(options)) == client_id_of(*old(options)),
        broker_address_of(*final(options)) == broker_address_of(*old(options)),
{
    options.set_keep_alive(std::time::Duration::from_secs(secs));
}

impl ConnectionDescriptor {
    /// A descriptor with the default keep-alive interval.
    pub fn new(host: String, port: u16, client_id: String, topic: String, capacity: usize) -> (descriptor:
        ConnectionDescriptor)
        ensures
            descriptor.host == host,
            descriptor.port == port,
            descriptor.client_id == client_id,
            descriptor.topic == topic,
            descriptor.capacity == capacity,
            descriptor.keep_alive_secs == KEEP_ALIVE_SECS,
    {
        ConnectionDescriptor { host, port, client_id, topic, capacity, keep_alive_secs: KEEP_ALIVE_SECS }
    }

    /// The broker options for this descriptor: its client identifier, host,
    /// port and keep-alive interval, with the broker library's defaults for
    /// the rest.
    pub fn mqtt_options(&self) -> (options: rumqttc::MqttOptions)
        ensures
            client_id_of(options) == self.client_id@,
            broker_address_of(options) == (self.host@, self.port),
            keep_alive_nanos_of(options) == self.keep_alive_secs * 1_000_000_000,
    {
        let mut options = new_options(self.client_id.as_str(), self.host.as_str(), self.port);
        set_keep_alive(&mut options, self.keep_alive_secs);
        options
    }

    /// The delivery guarantee to subscribe with: a message may be lost but
    /// never comes twice.
    pub fn delivery(&self) -> (delivery: Delivery)
        ensures
            delivery == Delivery::AtMostOnce,
    {
        Delivery::AtMostOnce
    }
}

} // verus!
