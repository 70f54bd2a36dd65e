//! Shared configuration for the throttle application. String fields
//! are bounded: they are truncated on entry to a fixed byte budget,
//! at a character boundary, so the whole configuration fits
//! predictable storage.

use vstd::prelude::*;
use vstd::string::{StringExecFns, StringSliceAdditionalSpecFns};
use vstd::utf8::is_char_boundary;
use crate::text::utf8_bytes;
use crate::{speed_valid, SPEED_SCALE};

verus! {

/// Byte budget for short configuration strings (hostnames, client
/// identifiers).
pub const MAX_SHORT_STRING: usize = 64;

/// Byte budget for longer configuration strings (topic prefixes,
/// paths).
pub const MAX_LONG_STRING: usize = 128;

/// A short configuration string, truncated to
/// [`MAX_SHORT_STRING`] bytes on entry.
pub type ShortString = String;

/// A longer configuration string, truncated to
/// [`MAX_LONG_STRING`] bytes on entry.
pub type LongString = String;

/// The largest index at or below `i` that is a character boundary.
pub open spec fn boundary_down(bytes: Seq<u8>, i: int) -> int
    decreases i,
{
    if i <= 0 {
        0
    } else if is_char_boundary(bytes, i) {
        i
    } else {
        boundary_down(bytes, i - 1)
    }
}

/// The longest prefix of the bytes that fits the cap and ends on a
/// character boundary.
pub open spec fn spec_truncate_bytes(bytes: Seq<u8>, cap: int) -> Seq<u8> {
    let limit = if cap < bytes.len() {
        cap
    } else {
        bytes.len() as int
    };
    bytes.subrange(0, boundary_down(bytes, limit))
}

/// Truncate a string to at most `cap` bytes, at a character
/// boundary.
fn truncate_to(s: &str, cap: usize) -> (r: String)
    ensures
        utf8_bytes(r@) == spec_truncate_bytes(s.spec_bytes(), cap as int),
{
    proof {
        vstd::utf8::encode_utf8_valid_utf8(s@);
    }
    let len = s.as_bytes().len();
    let limit: usize = if len < cap {
        len
    } else {
        cap
    };
    let mut take: usize = limit;
    while !s.is_char_boundary(take)
        invariant
            take <= limit <= s.spec_bytes().len(),
            limit == if (cap as int) < s.spec_bytes().len() {
                cap as int
            } else {
                s.spec_bytes().len() as int
            },
            vstd::utf8::valid_utf8(s.spec_bytes()),
            boundary_down(s.spec_bytes(), limit as int) == boundary_down(
                s.spec_bytes(),
                take as int,
            ),
        decreases take,
    {
        proof {
            assert(is_char_boundary(s.spec_bytes(), 0));
        }
        take = take - 1;
    }
    let halves = s.split_at(take);
    let head = halves.0;
    proof {
        assert(boundary_down(s.spec_bytes(), take as int) == take);
        assert(head.spec_bytes() =~= s.spec_bytes().subrange(0, take as int));
    }
    let out = head.to_owned();
    proof {
        assert(utf8_bytes(out@) == head.spec_bytes());
        let bytes = s.spec_bytes();
        let lim = if (cap as int) < bytes.len() {
            cap as int
        } else {
            bytes.len() as int
        };
        assert(limit as int == lim);
        assert(boundary_down(bytes, lim) == take as int);
        assert(utf8_bytes(out@) == bytes.subrange(0, take as int));
        assert(spec_truncate_bytes(bytes, cap as int) == bytes.subrange(
            0,
            boundary_down(bytes, lim),
        ));
    }
    out
}

/// Make a [`ShortString`] from text, truncating to its byte budget.
pub fn short_string(s: &str) -> (r: ShortString)
    ensures
        utf8_bytes(r@) == spec_truncate_bytes(s.spec_bytes(), MAX_SHORT_STRING as int),
{
    truncate_to(s, MAX_SHORT_STRING)
}

/// Make a [`LongString`] from text, truncating to its byte budget.
pub fn long_string(s: &str) -> (r: LongString)
    ensures
        utf8_bytes(r@) == spec_truncate_bytes(s.spec_bytes(), MAX_LONG_STRING as int),
{
    truncate_to(s, MAX_LONG_STRING)
}

// ============================================================================
// The configuration tree
// ============================================================================

/// Complete application configuration.
#[derive(Clone, Debug)]
pub struct Config {
    /// Network credentials for the radio link.
    pub wifi: WifiConfig,
    /// Pub/sub client settings.
    pub mqtt: MqttConfig,
    /// Web server settings.
    pub web: WebConfig,
    /// Throttle engine settings.
    pub throttle: ThrottleConfig,
    /// Device identification.
    pub device: DeviceConfig,
}

impl Default for Config {
    /// Defaults throughout.
    fn default() -> (r: Self)
        ensures
            r.mqtt.port == 1883,
            r.web.port == 8080,
            r.throttle.max_speed == SPEED_SCALE,
            r.wifi.enabled,
            r.device.id@ == "loco1"@,
    {
        Self {
            wifi: WifiConfig::default(),
            mqtt: MqttConfig::default(),
            web: WebConfig::default(),
            throttle: ThrottleConfig::default(),
            device: DeviceConfig::default(),
        }
    }
}

impl Config {
    /// Replace the radio settings.
    pub fn with_wifi(self, wifi: WifiConfig) -> (r: Self)
        ensures
            r.wifi == wifi,
            r.mqtt == self.mqtt,
            r.web == self.web,
            r.throttle == self.throttle,
            r.device == self.device,
    {
        Self { wifi, ..self }
    }

    /// Replace the pub/sub settings.
    pub fn with_mqtt(self, mqtt: MqttConfig) -> (r: Self)
        ensures
            r.mqtt == mqtt,
            r.wifi == self.wifi,
            r.web == self.web,
            r.throttle == self.throttle,
            r.device == self.device,
    {
        Self { mqtt, ..self }
    }

    /// Replace the web settings.
    pub fn with_web(self, web: WebConfig) -> (r: Self)
        ensures
            r.web == web,
            r.wifi == self.wifi,
            r.mqtt == self.mqtt,
            r.throttle == self.throttle,
            r.device == self.device,
    {
        Self { web, ..self }
    }

    /// Replace the throttle settings.
    pub fn with_throttle(self, throttle: ThrottleConfig) -> (r: Self)
        ensures
            r.throttle == throttle,
            r.wifi == self.wifi,
            r.mqtt == self.mqtt,
            r.web == self.web,
            r.device == self.device,
    {
        Self { throttle, ..self }
    }

    /// Replace the device identification.
    pub fn with_device(self, device: DeviceConfig) -> (r: Self)
        ensures
            r.device == device,
            r.wifi == self.wifi,
            r.mqtt == self.mqtt,
            r.web == self.web,
            r.throttle == self.throttle,
    {
        Self { device, ..self }
    }
}

// ============================================================================
// Pub/sub configuration
// ============================================================================

/// Pub/sub client configuration.
#[derive(Clone, Debug)]
pub struct MqttConfig {
    /// Broker hostname or address.
    pub host: ShortString,
    /// Broker port.
    pub port: u16,
    /// Client identifier, unique per device.
    pub client_id: ShortString,
    /// Prefix of every topic used.
    pub topic_prefix: ShortString,
    /// Username for authentication; empty means none.
    pub username: ShortString,
    /// Password for authentication.
    pub password: ShortString,
    /// State publish interval in milliseconds.
    pub heartbeat_ms: u32,
    /// Keep-alive interval in seconds.
    pub keep_alive_secs: u16,
    /// Whether the pub/sub client runs at all.
    pub enabled: bool,
}

impl Default for MqttConfig {
    /// A local broker with the conventional defaults.
    fn default() -> (r: Self)
        ensures
            r.host@ == "localhost"@,
            r.port == 1883,
            r.client_id@ == "rs-trainz"@,
            r.topic_prefix@ == "train"@,
            r.username@.len() == 0,
            r.password@.len() == 0,
            r.heartbeat_ms == 5000,
            r.keep_alive_secs == 30,
            r.enabled,
    {
        Self {
            host: "localhost".to_owned(),
            port: 1883,
            client_id: "rs-trainz".to_owned(),
            topic_prefix: "train".to_owned(),
            username: String::new(),
            password: String::new(),
            heartbeat_ms: 5000,
            keep_alive_secs: 30,
            enabled: true,
        }
    }
}

impl MqttConfig {
    /// Set the broker host.
    pub fn with_host(self, host: &str) -> (r: Self)
        ensures
            utf8_bytes(r.host@) == spec_truncate_bytes(host.spec_bytes(), MAX_SHORT_STRING as int),
            r.port == self.port,
            r.client_id == self.client_id,
            r.topic_prefix == self.topic_prefix,
            r.enabled == self.enabled,
    {
        Self { host: short_string(host), ..self }
    }

    /// Set the broker port.
    pub fn with_port(self, port: u16) -> (r: Self)
        ensures
            r.port == port,
            r.host == self.host,
            r.topic_prefix == self.topic_prefix,
    {
        Self { port, ..self }
    }

    /// Set the client identifier.
    pub fn with_client_id(self, id: &str) -> (r: Self)
        ensures
            utf8_bytes(r.client_id@) == spec_truncate_bytes(
                id.spec_bytes(),
                MAX_SHORT_STRING as int,
            ),
            r.host == self.host,
            r.port == self.port,
    {
        Self { client_id: short_string(id), ..self }
    }

    /// Set the topic prefix.
    pub fn with_topic_prefix(self, prefix: &str) -> (r: Self)
        ensures
            utf8_bytes(r.topic_prefix@) == spec_truncate_bytes(
                prefix.spec_bytes(),
                MAX_SHORT_STRING as int,
            ),
            r.host == self.host,
            r.port == self.port,
    {
        Self { topic_prefix: short_string(prefix), ..self }
    }

    /// Set the authentication credentials.
    pub fn with_auth(self, username: &str, password: &str) -> (r: Self)
        ensures
            utf8_bytes(r.username@) == spec_truncate_bytes(
                username.spec_bytes(),
                MAX_SHORT_STRING as int,
            ),
            utf8_bytes(r.password@) == spec_truncate_bytes(
                password.spec_bytes(),
                MAX_SHORT_STRING as int,
            ),
            r.host == self.host,
    {
        Self { username: short_string(username), password: short_string(password), ..self }
    }

    /// Set the heartbeat interval.
    pub fn with_heartbeat_ms(self, ms: u32) -> (r: Self)
        ensures
            r.heartbeat_ms == ms,
            r.host == self.host,
    {
        Self { heartbeat_ms: ms, ..self }
    }

    /// Enable or disable the pub/sub client.
    pub fn with_enabled(self, enabled: bool) -> (r: Self)
        ensures
            r.enabled == enabled,
            r.host == self.host,
    {
        Self { enabled, ..self }
    }

    /// Build a topic under the configured prefix, truncated to the
    /// long-string budget.
    pub fn topic(&self, suffix: &str) -> (r: LongString)
        ensures
            utf8_bytes(r@) == spec_truncate_bytes(
                utf8_bytes(self.topic_prefix@) + "/".spec_bytes() + suffix.spec_bytes(),
                MAX_LONG_STRING as int,
            ),
    {
        let mut joined = self.topic_prefix.as_str().to_owned();
        joined.append("/");
        joined.append(suffix);
        proof {
            crate::text::lemma_encode_utf8_concat(self.topic_prefix@ + "/"@, suffix@);
            crate::text::lemma_encode_utf8_concat(self.topic_prefix@, "/"@);
        }
        long_string(joined.as_str())
    }

    /// Whether authentication is configured.
    pub fn has_auth(&self) -> (r: bool)
        ensures
            r == (self.username@.len() != 0),
    {
        !self.username.as_str().is_empty()
    }
}

// ============================================================================
// Web configuration
// ============================================================================

/// Web server configuration.
#[derive(Clone, Copy, Debug)]
pub struct WebConfig {
    /// Port to listen on.
    pub port: u16,
    /// Whether to allow all origins.
    pub cors_permissive: bool,
    /// Polling interval hint for the browser, in milliseconds.
    pub poll_interval_ms: u32,
    /// Whether the web server runs at all.
    pub enabled: bool,
}

impl Default for WebConfig {
    /// The conventional local defaults.
    fn default() -> (r: Self)
        ensures
            r.port == 8080,
            r.cors_permissive,
            r.poll_interval_ms == 200,
            r.enabled,
    {
        Self { port: 8080, cors_permissive: true, poll_interval_ms: 200, enabled: true }
    }
}

impl WebConfig {
    /// Set the listening port.
    pub fn with_port(self, port: u16) -> (r: Self)
        ensures
            r == (WebConfig { port, ..self }),
    {
        Self { port, ..self }
    }

    /// Set the cross-origin policy.
    pub fn with_cors(self, permissive: bool) -> (r: Self)
        ensures
            r == (WebConfig { cors_permissive: permissive, ..self }),
    {
        Self { cors_permissive: permissive, ..self }
    }

    /// Set the polling interval hint.
    pub fn with_poll_interval_ms(self, ms: u32) -> (r: Self)
        ensures
            r == (WebConfig { poll_interval_ms: ms, ..self }),
    {
        Self { poll_interval_ms: ms, ..self }
    }

    /// Enable or disable the web server.
    pub fn with_enabled(self, enabled: bool) -> (r: Self)
        ensures
            r == (WebConfig { enabled, ..self }),
    {
        Self { enabled, ..self }
    }
}

// ============================================================================
// Throttle configuration
// ============================================================================

/// Throttle engine configuration.
#[derive(Clone, Copy, Debug)]
pub struct ThrottleConfig {
    /// Maximum allowed speed, in fixed-point units.
    pub max_speed: u16,
    /// Default transition duration in milliseconds.
    pub default_transition_ms: u32,
    /// Whether smooth transitions are the default.
    pub default_smooth: bool,
    /// Tick interval in milliseconds.
    pub update_interval_ms: u32,
    /// Physical-control lockout duration in milliseconds.
    pub lockout_ms: u32,
}

impl Default for ThrottleConfig {
    /// Full speed allowed, short smooth transitions, a 20 ms tick
    /// and a two-second lockout.
    fn default() -> (r: Self)
        ensures
            r.max_speed == SPEED_SCALE,
            r.default_transition_ms == 500,
            r.default_smooth,
            r.update_interval_ms == 20,
            r.lockout_ms == 2000,
    {
        Self {
            max_speed: SPEED_SCALE,
            default_transition_ms: 500,
            default_smooth: true,
            update_interval_ms: 20,
            lockout_ms: 2000,
        }
    }
}

impl ThrottleConfig {
    /// Set the maximum speed, clamped to full scale.
    pub fn with_max_speed(self, max: u16) -> (r: Self)
        ensures
            r.max_speed == crate::spec_clamp_speed(max, SPEED_SCALE),
            speed_valid(r.max_speed),
            r.default_transition_ms == self.default_transition_ms,
            r.default_smooth == self.default_smooth,
            r.update_interval_ms == self.update_interval_ms,
            r.lockout_ms == self.lockout_ms,
    {
        Self { max_speed: crate::clamp_speed(max, SPEED_SCALE), ..self }
    }

    /// Set the default transition duration.
    pub fn with_default_transition_ms(self, ms: u32) -> (r: Self)
        ensures
            r == (ThrottleConfig { default_transition_ms: ms, ..self }),
    {
        Self { default_transition_ms: ms, ..self }
    }

    /// Set whether smooth transitions are the default.
    pub fn with_default_smooth(self, smooth: bool) -> (r: Self)
        ensures
            r == (ThrottleConfig { default_smooth: smooth, ..self }),
    {
        Self { default_smooth: smooth, ..self }
    }

    /// Set the tick interval.
    pub fn with_update_interval_ms(self, ms: u32) -> (r: Self)
        ensures
            r == (ThrottleConfig { update_interval_ms: ms, ..self }),
    {
        Self { update_interval_ms: ms, ..self }
    }

    /// Set the lockout duration.
    pub fn with_lockout_ms(self, ms: u32) -> (r: Self)
        ensures
            r == (ThrottleConfig { lockout_ms: ms, ..self }),
    {
        Self { lockout_ms: ms, ..self }
    }
}

// ============================================================================
// Radio configuration
// ============================================================================

/// Network credentials and policy for the radio link.
#[derive(Clone, Debug)]
pub struct WifiConfig {
    /// Network name.
    pub ssid: ShortString,
    /// Network password.
    pub password: ShortString,
    /// Connection timeout in milliseconds.
    pub connect_timeout_ms: u32,
    /// Whether the radio is used at all.
    pub enabled: bool,
    /// Maximum connection attempts; zero means unlimited.
    pub max_retries: u8,
}

impl Default for WifiConfig {
    /// No credentials, a generous timeout, five attempts.
    fn default() -> (r: Self)
        ensures
            r.ssid@.len() == 0,
            r.password@.len() == 0,
            r.connect_timeout_ms == 30000,
            r.enabled,
            r.max_retries == 5,
    {
        Self {
            ssid: String::new(),
            password: String::new(),
            connect_timeout_ms: 30000,
            enabled: true,
            max_retries: 5,
        }
    }
}

impl WifiConfig {
    /// Set the network name.
    pub fn with_ssid(self, ssid: &str) -> (r: Self)
        ensures
            utf8_bytes(r.ssid@) == spec_truncate_bytes(ssid.spec_bytes(), MAX_SHORT_STRING as int),
            r.password == self.password,
            r.enabled == self.enabled,
    {
        Self { ssid: short_string(ssid), ..self }
    }

    /// Set the network password.
    pub fn with_password(self, password: &str) -> (r: Self)
        ensures
            utf8_bytes(r.password@) == spec_truncate_bytes(
                password.spec_bytes(),
                MAX_SHORT_STRING as int,
            ),
            r.ssid == self.ssid,
    {
        Self { password: short_string(password), ..self }
    }

    /// Set the connection timeout.
    pub fn with_connect_timeout_ms(self, ms: u32) -> (r: Self)
        ensures
            r.connect_timeout_ms == ms,
            r.ssid == self.ssid,
    {
        Self { connect_timeout_ms: ms, ..self }
    }

    /// Enable or disable the radio.
    pub fn with_enabled(self, enabled: bool) -> (r: Self)
        ensures
            r.enabled == enabled,
            r.ssid == self.ssid,
    {
        Self { enabled, ..self }
    }

    /// Set the maximum connection attempts.
    pub fn with_max_retries(self, retries: u8) -> (r: Self)
        ensures
            r.max_retries == retries,
            r.ssid == self.ssid,
    {
        Self { max_retries: retries, ..self }
    }

    /// Whether credentials are configured.
    pub fn is_configured(&self) -> (r: bool)
        ensures
            r == (self.ssid@.len() != 0),
    {
        !self.ssid.as_str().is_empty()
    }
}

// ============================================================================
// Device identification
// ============================================================================

/// Device identification.
#[derive(Clone, Debug)]
pub struct DeviceConfig {
    /// Human-readable device name.
    pub name: ShortString,
    /// Device identifier, for multi-train setups.
    pub id: ShortString,
}

impl Default for DeviceConfig {
    /// The conventional name and first locomotive identifier.
    fn default() -> (r: Self)
        ensures
            r.name@ == "rs-trainz"@,
            r.id@ == "loco1"@,
    {
        Self { name: "rs-trainz".to_owned(), id: "loco1".to_owned() }
    }
}

impl DeviceConfig {
    /// Set the device name.
    pub fn with_name(self, name: &str) -> (r: Self)
        ensures
            utf8_bytes(r.name@) == spec_truncate_bytes(name.spec_bytes(), MAX_SHORT_STRING as int),
            r.id == self.id,
    {
        Self { name: short_string(name), ..self }
    }

    /// Set the device identifier.
    pub fn with_id(self, id: &str) -> (r: Self)
        ensures
            utf8_bytes(r.id@) == spec_truncate_bytes(id.spec_bytes(), MAX_SHORT_STRING as int),
            r.name == self.name,
    {
        Self { id: short_string(id), ..self }
    }
}

} // verus!
