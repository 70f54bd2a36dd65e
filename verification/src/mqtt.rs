//! Runtime configuration and errors of the pub/sub service. The
//! asynchronous client loop lives with the hosting platform; it
//! parses payloads with [`crate::messages::parse_mqtt_command`] and
//! renders state with [`crate::http_handler::state_to_json`].

use vstd::prelude::*;
use vstd::string::{StrSliceExecFns, StringExecFns, StringSliceAdditionalSpecFns};
use crate::commands::{CommandSource, ThrottleCommandDyn};
use crate::config::MqttConfig;
use crate::hardware::{Direction, MotorController};
use crate::http_handler::{speed_str, state_to_json};
use crate::messages::{
    parse_mqtt_command_bytes, spec_parse_mqtt_command, spec_topic_suffix, topic_suffix_bytes,
};
use crate::network::MqttClient;
use crate::shared::{spec_changed, ChangeDetection};
use crate::text::utf8_bytes;
use crate::throttle::{ThrottleController, ThrottleState};

verus! {

/// Runtime pub/sub client configuration, in heap-backed strings.
#[derive(Debug, Clone)]
pub struct MqttRuntimeConfig {
    /// Broker hostname.
    pub host: String,
    /// Broker port.
    pub port: u16,
    /// Client identifier.
    pub client_id: String,
    /// Prefix of every topic used.
    pub topic_prefix: String,
    /// Heartbeat interval in milliseconds.
    pub heartbeat_ms: u64,
    /// Keep-alive interval in seconds.
    pub keep_alive_secs: u16,
}

impl Default for MqttRuntimeConfig {
    /// A local broker with the conventional defaults.
    fn default() -> (r: Self)
        ensures
            r.host@ == "localhost"@,
            r.port == 1883,
            r.client_id@ == "rs-trainz"@,
            r.topic_prefix@ == "train"@,
            r.heartbeat_ms == 5000,
            r.keep_alive_secs == 30,
    {
        Self {
            host: "localhost".to_owned(),
            port: 1883,
            client_id: "rs-trainz".to_owned(),
            topic_prefix: "train".to_owned(),
            heartbeat_ms: 5000,
            keep_alive_secs: 30,
        }
    }
}

impl MqttRuntimeConfig {
    /// A configuration for the given broker address, with the other
    /// fields at their defaults.
    pub fn new(host: &str, port: u16) -> (r: Self)
        ensures
            r.host@ == host@,
            r.port == port,
            r.client_id@ == "rs-trainz"@,
            r.topic_prefix@ == "train"@,
            r.heartbeat_ms == 5000,
            r.keep_alive_secs == 30,
    {
        Self {
            host: host.to_owned(),
            port,
            client_id: "rs-trainz".to_owned(),
            topic_prefix: "train".to_owned(),
            heartbeat_ms: 5000,
            keep_alive_secs: 30,
        }
    }

    /// Build a runtime configuration from the shared one.
    pub fn from_config(config: &MqttConfig) -> (r: Self)
        ensures
            r.host@ == config.host@,
            r.port == config.port,
            r.client_id@ == config.client_id@,
            r.topic_prefix@ == config.topic_prefix@,
            r.heartbeat_ms == config.heartbeat_ms,
            r.keep_alive_secs == config.keep_alive_secs,
    {
        Self {
            host: config.host.as_str().to_owned(),
            port: config.port,
            client_id: config.client_id.as_str().to_owned(),
            topic_prefix: config.topic_prefix.as_str().to_owned(),
            heartbeat_ms: config.heartbeat_ms as u64,
            keep_alive_secs: config.keep_alive_secs,
        }
    }

    /// Set the client identifier.
    pub fn client_id(self, id: &str) -> (r: Self)
        ensures
            r.client_id@ == id@,
            r.host == self.host,
            r.port == self.port,
            r.topic_prefix == self.topic_prefix,
            r.heartbeat_ms == self.heartbeat_ms,
            r.keep_alive_secs == self.keep_alive_secs,
    {
        Self { client_id: id.to_owned(), ..self }
    }

    /// Set the topic prefix.
    pub fn topic_prefix(self, prefix: &str) -> (r: Self)
        ensures
            r.topic_prefix@ == prefix@,
            r.host == self.host,
            r.port == self.port,
            r.client_id == self.client_id,
            r.heartbeat_ms == self.heartbeat_ms,
            r.keep_alive_secs == self.keep_alive_secs,
    {
        Self { topic_prefix: prefix.to_owned(), ..self }
    }

    /// Set the heartbeat interval.
    pub fn heartbeat_ms(self, ms: u64) -> (r: Self)
        ensures
            r.heartbeat_ms == ms,
            r.host == self.host,
            r.port == self.port,
            r.client_id == self.client_id,
            r.topic_prefix == self.topic_prefix,
            r.keep_alive_secs == self.keep_alive_secs,
    {
        Self { heartbeat_ms: ms, ..self }
    }

    /// Build a full topic path under the configured prefix.
    pub fn topic(&self, suffix: &str) -> (r: String)
        ensures
            r@ == self.topic_prefix@ + "/"@ + suffix@,
    {
        let mut out = self.topic_prefix.as_str().to_owned();
        out.append("/");
        out.append(suffix);
        out
    }
}

/// Errors of the pub/sub service, reported by value.
#[derive(Debug)]
pub enum MqttError {
    /// Connecting to the broker failed.
    Connect(String),
    /// Subscribing to a topic failed.
    Subscribe(String),
    /// Publishing a message failed.
    Publish(String),
}

/// The human-readable description of a pub/sub error.
pub open spec fn spec_mqtt_error_message(e: MqttError) -> Seq<char> {
    match e {
        MqttError::Connect(d) => "MQTT connect error: "@ + d@,
        MqttError::Subscribe(d) => "MQTT subscribe error: "@ + d@,
        MqttError::Publish(d) => "MQTT publish error: "@ + d@,
    }
}

impl MqttError {
    /// A human-readable description of the error.
    pub fn message(&self) -> (r: String)
        ensures
            r@ == spec_mqtt_error_message(*self),
    {
        let mut out: String;
        match self {
            MqttError::Connect(d) => {
                out = "MQTT connect error: ".to_owned();
                out.append(d.as_str());
            },
            MqttError::Subscribe(d) => {
                out = "MQTT subscribe error: ".to_owned();
                out.append(d.as_str());
            },
            MqttError::Publish(d) => {
                out = "MQTT publish error: ".to_owned();
                out.append(d.as_str());
            },
        }
        out
    }
}

// ============================================================================
// The service runner
// ============================================================================

/// Drives a pub/sub client from the tick loop: drains incoming
/// control messages into the controller and publishes state changes
/// and heartbeats, over any [`MqttClient`].
pub struct MqttServiceRunner<C: MqttClient> {
    /// The pub/sub client.
    pub client: C,
    /// Topic prefix and heartbeat settings.
    pub config: MqttConfig,
    /// The last published speed and direction.
    pub detection: ChangeDetection,
}

impl<C: MqttClient> MqttServiceRunner<C> {
    /// A runner that has published nothing yet.
    pub fn new(client: C, config: MqttConfig) -> (r: Self)
        ensures
            r.config == config,
            r.detection.last_speed == 0,
            r.detection.last_direction == Direction::Stopped,
    {
        Self { client, config, detection: ChangeDetection::default() }
    }

    /// A reference to the client.
    pub fn client(&self) -> (r: &C)
        ensures
            r == &self.client,
    {
        &self.client
    }

    /// A mutable reference to the client.
    pub fn client_mut(&mut self) -> &mut C {
        &mut self.client
    }

    /// Subscribe to the four control topics under the configured
    /// prefix.
    pub fn subscribe_control_topics(&mut self) -> (r: Result<(), C::Error>)
        ensures
            final(self).config == old(self).config,
            final(self).detection == old(self).detection,
    {
        let t = self.config.topic("speed/set");
        match self.client.subscribe(t.as_str()) {
            Ok(()) => {},
            Err(e) => {
                return Err(e);
            },
        }
        let t = self.config.topic("direction/set");
        match self.client.subscribe(t.as_str()) {
            Ok(()) => {},
            Err(e) => {
                return Err(e);
            },
        }
        let t = self.config.topic("estop");
        match self.client.subscribe(t.as_str()) {
            Ok(()) => {},
            Err(e) => {
                return Err(e);
            },
        }
        let t = self.config.topic("max-speed/set");
        match self.client.subscribe(t.as_str()) {
            Ok(()) => {},
            Err(e) => {
                return Err(e);
            },
        }
        Ok(())
    }

    /// Parse an incoming message into a command: the topic must sit
    /// under the configured prefix, and the payload must parse for
    /// its control suffix.
    pub fn parse_message(&self, topic: &str, payload: &[u8]) -> (r: Option<ThrottleCommandDyn>)
        ensures
            r == (match spec_topic_suffix(
                utf8_bytes(self.config.topic_prefix@),
                topic.spec_bytes(),
            ) {
                Some(suffix) => spec_parse_mqtt_command(suffix, payload@),
                None => None,
            }),
    {
        let prefix = self.config.topic_prefix.as_str().as_bytes();
        match topic_suffix_bytes(prefix, topic.as_bytes()) {
            Some(suffix) => parse_mqtt_command_bytes(suffix, payload),
            None => None,
        }
    }

    /// Drain pending messages into the controller, at most a bounded
    /// number per call so a tick can never stall.
    pub fn poll<M: MotorController>(
        &mut self,
        controller: &mut ThrottleController<M>,
        now_ms: u64,
    ) -> (r: Result<(), C::Error>)
        requires
            old(controller).wf(),
        ensures
            final(controller).wf(),
            final(self).config == old(self).config,
            final(self).detection == old(self).detection,
    {
        let mut budget: usize = 64;
        while budget > 0
            invariant
                controller.wf(),
                self.config == old(self).config,
                self.detection == old(self).detection,
            decreases budget,
        {
            let incoming = self.client.try_recv();
            match incoming {
                Some(msg) => {
                    let parsed = self.parse_message(msg.topic.as_str(), msg.payload.as_slice());
                    match parsed {
                        Some(cmd) => {
                            let _ = controller.apply_command(cmd, CommandSource::Mqtt, now_ms);
                        },
                        None => {},
                    }
                    budget = budget - 1;
                },
                None => {
                    budget = 0;
                },
            }
        }
        Ok(())
    }

    /// Publish the full state, the bare speed and the direction, the
    /// latter two retained for late subscribers.
    fn publish_state_internal(&mut self, state: &ThrottleState) -> (r: Result<(), C::Error>)
        ensures
            final(self).config == old(self).config,
            final(self).detection == old(self).detection,
    {
        let json = state_to_json(state);
        let topic = self.config.topic("state");
        match self.client.publish(topic.as_str(), json.as_str().as_bytes(), false) {
            Ok(()) => {},
            Err(e) => {
                return Err(e);
            },
        }
        let speed_text = speed_str(state.speed);
        let topic = self.config.topic("speed");
        match self.client.publish(topic.as_str(), speed_text.as_str().as_bytes(), true) {
            Ok(()) => {},
            Err(e) => {
                return Err(e);
            },
        }
        let topic = self.config.topic("direction");
        match self.client.publish(topic.as_str(), state.direction.as_str().as_bytes(), true) {
            Ok(()) => {},
            Err(e) => {
                return Err(e);
            },
        }
        Ok(())
    }

    /// Publish the state when it moved noticeably since the last
    /// publish; the detection slot records what went out.
    pub fn publish_if_changed<M: MotorController>(
        &mut self,
        controller: &ThrottleController<M>,
        now_ms: u64,
    ) -> (r: Result<bool, C::Error>)
        ensures
            final(self).config == old(self).config,
            r matches Ok(changed) ==> changed == spec_changed(
                old(self).detection,
                controller.speed_transition.current_value,
                controller.direction,
            ),
            r matches Ok(changed) && changed ==> final(self).detection.last_speed
                == controller.speed_transition.current_value && final(self).detection.last_direction
                == controller.direction,
            r matches Ok(changed) && !changed ==> final(self).detection == old(self).detection,
            r is Err ==> final(self).detection == old(self).detection,
    {
        let state = controller.state(now_ms);
        if self.detection.is_changed(state.speed, state.direction) {
            match self.publish_state_internal(&state) {
                Ok(()) => {},
                Err(e) => {
                    return Err(e);
                },
            }
            self.detection.sync(state.speed, state.direction);
            Ok(true)
        } else {
            Ok(false)
        }
    }

    /// Publish the state unconditionally, as the heartbeat does.
    pub fn publish_state<M: MotorController>(
        &mut self,
        controller: &ThrottleController<M>,
        now_ms: u64,
    ) -> (r: Result<(), C::Error>)
        ensures
            final(self).config == old(self).config,
            r is Ok ==> final(self).detection.last_speed
                == controller.speed_transition.current_value && final(self).detection.last_direction
                == controller.direction,
            r is Err ==> final(self).detection == old(self).detection,
    {
        let state = controller.state(now_ms);
        match self.publish_state_internal(&state) {
            Ok(()) => {},
            Err(e) => {
                return Err(e);
            },
        }
        self.detection.sync(state.speed, state.direction);
        Ok(())
    }
}

} // verus!
