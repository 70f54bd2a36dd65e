//! Test doubles for the hardware and network capabilities, so the
//! engine can be exercised on a desk: a motor that records what it
//! was told, a scriptable encoder, a controllable clock, a fault
//! injector, a display that remembers its last frame, and in-memory
//! pub/sub and HTTP ends.

use vstd::prelude::*;
use crate::display::ThrottleDisplay;
use crate::hardware::{Clock, Direction, EncoderInput, FaultDetector};
use crate::network::{HttpRequest, HttpResponse, MqttClient, MqttMessage};
use crate::throttle::ThrottleState;

verus! {

// ============================================================================
// Hardware doubles
// ============================================================================

/// A motor that records the last speed and direction it was set to.
#[derive(Debug)]
pub struct MockMotor {
    /// The last commanded speed, in fixed-point units.
    pub speed: u16,
    /// The last commanded direction.
    pub direction: Direction,
    /// The simulated current draw in milliamps.
    pub current_ma: u32,
    /// How many times the speed was set.
    pub call_count: usize,
}

impl MockMotor {
    /// A motor at rest.
    pub fn new() -> (r: Self)
        ensures
            r.speed == 0,
            r.direction == Direction::Stopped,
            r.current_ma == 0,
            r.call_count == 0,
    {
        Self { speed: 0, direction: Direction::Stopped, current_ma: 0, call_count: 0 }
    }

    /// The same motor reporting the given current draw.
    pub fn with_current(self, current_ma: u32) -> (r: Self)
        ensures
            r.speed == self.speed,
            r.direction == self.direction,
            r.current_ma == current_ma,
            r.call_count == self.call_count,
    {
        Self { current_ma, ..self }
    }
}

impl crate::hardware::MotorController for MockMotor {
    type Error = ();

    fn set_speed(&mut self, speed: u16) -> Result<(), ()> {
        self.speed = speed;
        if self.call_count < usize::MAX {
            self.call_count = self.call_count + 1;
        }
        Ok(())
    }

    fn set_direction(&mut self, dir: Direction) -> Result<(), ()> {
        self.direction = dir;
        Ok(())
    }

    fn read_current_ma(&self) -> Result<Option<u32>, ()> {
        Ok(Some(self.current_ma))
    }
}

impl Default for MockMotor {
    /// A motor at rest.
    fn default() -> (r: Self)
        ensures
            r.speed == 0,
            r.direction == Direction::Stopped,
            r.current_ma == 0,
            r.call_count == 0,
    {
        Self::new()
    }
}

/// A scriptable rotary encoder: queue deltas, press the button.
#[derive(Debug)]
pub struct MockEncoder {
    /// Deltas waiting to be read, served last-in first-out.
    pub delta_queue: Vec<i32>,
    /// Whether the button is held down.
    pub button_state: bool,
    /// Whether a press edge is pending.
    pub button_just_pressed_state: bool,
}

impl MockEncoder {
    /// An encoder with no pending input.
    pub fn new() -> (r: Self)
        ensures
            r.delta_queue@.len() == 0,
            !r.button_state,
            !r.button_just_pressed_state,
    {
        Self { delta_queue: Vec::new(), button_state: false, button_just_pressed_state: false }
    }

    /// Queue one delta to be read.
    pub fn queue_delta(&mut self, delta: i32)
        ensures
            final(self).delta_queue@ == old(self).delta_queue@.push(delta),
            final(self).button_state == old(self).button_state,
            final(self).button_just_pressed_state == old(self).button_just_pressed_state,
    {
        self.delta_queue.push(delta);
    }

    /// Queue several deltas to be read.
    pub fn queue_deltas(&mut self, deltas: &[i32])
        ensures
            final(self).delta_queue@ == old(self).delta_queue@ + deltas@,
            final(self).button_state == old(self).button_state,
            final(self).button_just_pressed_state == old(self).button_just_pressed_state,
    {
        self.delta_queue.extend_from_slice(deltas);
    }

    /// Set the held state of the button.
    pub fn set_button(&mut self, pressed: bool)
        ensures
            final(self).button_state == pressed,
            final(self).delta_queue@ == old(self).delta_queue@,
            final(self).button_just_pressed_state == old(self).button_just_pressed_state,
    {
        self.button_state = pressed;
    }

    /// Simulate a press: the edge fires exactly once.
    pub fn press_button(&mut self)
        ensures
            final(self).button_state,
            final(self).button_just_pressed_state,
            final(self).delta_queue@ == old(self).delta_queue@,
    {
        self.button_state = true;
        self.button_just_pressed_state = true;
    }
}

impl EncoderInput for MockEncoder {
    fn read_delta(&mut self) -> i32 {
        match self.delta_queue.pop() {
            Some(d) => d,
            None => 0,
        }
    }

    fn button_pressed(&self) -> bool {
        self.button_state
    }

    fn button_just_pressed(&mut self) -> bool {
        let was_pressed = self.button_just_pressed_state;
        self.button_just_pressed_state = false;
        was_pressed
    }
}

impl Default for MockEncoder {
    /// An encoder with no pending input.
    fn default() -> (r: Self)
        ensures
            r.delta_queue@.len() == 0,
            !r.button_state,
            !r.button_just_pressed_state,
    {
        Self::new()
    }
}

/// A fault injector.
#[derive(Debug)]
pub struct MockFault {
    /// Whether a short circuit is raised.
    pub short_circuit: bool,
    /// Whether an overcurrent is raised.
    pub overcurrent: bool,
    /// The simulated fault current, if any.
    pub current_ma: Option<u32>,
}

impl MockFault {
    /// A detector with no active fault.
    pub fn new() -> (r: Self)
        ensures
            !r.short_circuit,
            !r.overcurrent,
            r.current_ma is None,
    {
        Self { short_circuit: false, overcurrent: false, current_ma: None }
    }

    /// Raise a short circuit.
    pub fn trigger_short(&mut self)
        ensures
            final(self).short_circuit,
            final(self).overcurrent == old(self).overcurrent,
            final(self).current_ma == old(self).current_ma,
    {
        self.short_circuit = true;
    }

    /// Raise an overcurrent at the given reading.
    pub fn trigger_overcurrent(&mut self, current_ma: u32)
        ensures
            final(self).overcurrent,
            final(self).current_ma == Some(current_ma),
            final(self).short_circuit == old(self).short_circuit,
    {
        self.overcurrent = true;
        self.current_ma = Some(current_ma);
    }

    /// Clear every fault.
    pub fn clear(&mut self)
        ensures
            !final(self).short_circuit,
            !final(self).overcurrent,
            final(self).current_ma is None,
    {
        self.short_circuit = false;
        self.overcurrent = false;
        self.current_ma = None;
    }
}

impl FaultDetector for MockFault {
    open spec fn spec_short_circuit(&self) -> bool {
        self.short_circuit
    }

    open spec fn spec_overcurrent(&self) -> bool {
        self.overcurrent
    }

    fn is_short_circuit(&self) -> bool {
        self.short_circuit
    }

    fn is_overcurrent(&self) -> bool {
        self.overcurrent
    }

    fn fault_current_ma(&self) -> Option<u32> {
        self.current_ma
    }
}

impl Default for MockFault {
    /// A detector with no active fault.
    fn default() -> (r: Self)
        ensures
            !r.short_circuit,
            !r.overcurrent,
            r.current_ma is None,
    {
        Self::new()
    }
}

/// A clock whose time is set by the test.
#[derive(Debug)]
pub struct MockClock {
    /// The current time in milliseconds.
    pub current_ms: u64,
}

impl MockClock {
    /// A clock at zero.
    pub fn new() -> (r: Self)
        ensures
            r.current_ms == 0,
    {
        Self { current_ms: 0 }
    }

    /// Set the current time.
    pub fn set(&mut self, ms: u64)
        ensures
            final(self).current_ms == ms,
    {
        self.current_ms = ms;
    }

    /// Advance the clock.
    pub fn advance(&mut self, ms: u64)
        requires
            old(self).current_ms + ms <= u64::MAX,
        ensures
            final(self).current_ms == old(self).current_ms + ms,
    {
        self.current_ms = self.current_ms + ms;
    }
}

impl Clock for MockClock {
    fn now_ms(&self) -> u64 {
        self.current_ms
    }
}

impl Default for MockClock {
    /// A clock at zero.
    fn default() -> (r: Self)
        ensures
            r.current_ms == 0,
    {
        Self::new()
    }
}

// ============================================================================
// Network doubles
// ============================================================================

/// An in-memory pub/sub client that records publishes and serves
/// queued messages.
#[derive(Debug)]
pub struct MockMqtt {
    /// Messages published so far: topic, payload, retain flag.
    pub published: Vec<(String, Vec<u8>, bool)>,
    /// Topics subscribed so far.
    pub subscriptions: Vec<String>,
    /// Incoming messages waiting to be received.
    pub incoming: Vec<MqttMessage>,
    /// Whether the double reports itself connected.
    pub connected: bool,
}

impl MockMqtt {
    /// A connected client with nothing queued.
    pub fn new() -> (r: Self)
        ensures
            r.published@.len() == 0,
            r.subscriptions@.len() == 0,
            r.incoming@.len() == 0,
            r.connected,
    {
        Self { published: Vec::new(), subscriptions: Vec::new(), incoming: Vec::new(), connected: true }
    }

    /// Queue an incoming message.
    pub fn queue_message(&mut self, topic: &str, payload: Vec<u8>)
        ensures
            final(self).incoming@.len() == old(self).incoming@.len() + 1,
            final(self).incoming@.last().topic@ == topic@,
            final(self).incoming@.last().payload == payload,
            final(self).published == old(self).published,
            final(self).subscriptions == old(self).subscriptions,
            final(self).connected == old(self).connected,
    {
        self.incoming.push(MqttMessage { topic: topic.to_owned(), payload });
    }

    /// Whether the given topic was subscribed.
    pub fn is_subscribed(&self, topic: &str) -> (r: bool)
        ensures
            r == (exists|i: int|
                0 <= i < self.subscriptions@.len() && (#[trigger] self.subscriptions@[i])@
                    == topic@),
    {
        let mut i: usize = 0;
        while i < self.subscriptions.len()
            invariant
                i <= self.subscriptions@.len(),
                forall|j: int| 0 <= j < i ==> (#[trigger] self.subscriptions@[j])@ != topic@,
            decreases self.subscriptions@.len() - i,
        {
            if crate::text::slice_eq(self.subscriptions[i].as_str().as_bytes(), topic.as_bytes()) {
                proof {
                    crate::hal::lemma_bytes_eq_chars(self.subscriptions@[i as int]@, topic@);
                }
                return true;
            }
            proof {
                crate::hal::lemma_bytes_eq_chars(self.subscriptions@[i as int]@, topic@);
            }
            i = i + 1;
        }
        false
    }

    /// The published entries for one topic.
    pub fn published_to(&self, topic: &str) -> (r: Vec<&(String, Vec<u8>, bool)>)
        ensures
            forall|j: int| 0 <= j < r@.len() ==> (#[trigger] r@[j]).0@ == topic@,
            r@.len() == self.published@.filter(
                |e: (String, Vec<u8>, bool)| e.0@ == topic@,
            ).len(),
    {
        let ghost pred = |e: (String, Vec<u8>, bool)| e.0@ == topic@;
        let mut out: Vec<&(String, Vec<u8>, bool)> = Vec::new();
        let mut i: usize = 0;
        proof {
            assert(self.published@.subrange(0, 0) =~= Seq::<(String, Vec<u8>, bool)>::empty());
        }
        while i < self.published.len()
            invariant
                i <= self.published@.len(),
                pred == (|e: (String, Vec<u8>, bool)| e.0@ == topic@),
                forall|j: int| 0 <= j < out@.len() ==> (#[trigger] out@[j]).0@ == topic@,
                out@.len() == self.published@.subrange(0, i as int).filter(pred).len(),
            decreases self.published@.len() - i,
        {
            let entry = &self.published[i];
            let matches_topic = crate::text::slice_eq(
                entry.0.as_str().as_bytes(),
                topic.as_bytes(),
            );
            proof {
                crate::hal::lemma_bytes_eq_chars(self.published@[i as int].0@, topic@);
                let prefix = self.published@.subrange(0, i as int);
                let next = self.published@.subrange(0, i + 1);
                assert(next.drop_last() =~= prefix);
                assert(next.last() == self.published@[i as int]);
                reveal_with_fuel(Seq::filter, 2);
            }
            if matches_topic {
                out.push(entry);
            }
            i = i + 1;
        }
        proof {
            assert(self.published@.subrange(0, self.published@.len() as int) =~= self.published@);
        }
        out
    }
}

/// Two strings over the same characters have the same encoded bytes,
/// and conversely.
pub proof fn lemma_bytes_eq_chars(a: Seq<char>, b: Seq<char>)
    ensures
        (vstd::utf8::encode_utf8(a) == vstd::utf8::encode_utf8(b)) == (a == b),
{
    vstd::utf8::encode_utf8_decode_utf8(a);
    vstd::utf8::encode_utf8_decode_utf8(b);
}

impl MqttClient for MockMqtt {
    type Error = ();

    fn publish(&mut self, topic: &str, payload: &[u8], retain: bool) -> Result<(), ()> {
        let entry = (topic.to_owned(), crate::network::bytes_to_vec(payload), retain);
        self.published.push(entry);
        Ok(())
    }

    fn subscribe(&mut self, topic: &str) -> Result<(), ()> {
        self.subscriptions.push(topic.to_owned());
        Ok(())
    }

    fn try_recv(&mut self) -> Option<MqttMessage> {
        if self.incoming.len() == 0 {
            None
        } else {
            Some(self.incoming.remove(0))
        }
    }

    fn is_connected(&self) -> bool {
        self.connected
    }
}

/// An in-memory HTTP end: queued requests and recorded responses.
#[derive(Debug)]
pub struct MockHttp {
    /// Requests waiting to be served.
    pub requests: Vec<HttpRequest>,
    /// Responses recorded so far.
    pub responses: Vec<HttpResponse>,
}

impl MockHttp {
    /// An HTTP end with nothing queued.
    pub fn new() -> (r: Self)
        ensures
            r.requests@.len() == 0,
            r.responses@.len() == 0,
    {
        Self { requests: Vec::new(), responses: Vec::new() }
    }

    /// Queue a request to be served.
    pub fn queue_request(&mut self, request: HttpRequest)
        ensures
            final(self).requests@ == old(self).requests@.push(request),
            final(self).responses == old(self).responses,
    {
        self.requests.push(request);
    }
}

impl Default for MockHttp {
    /// An HTTP end with nothing queued.
    fn default() -> (r: Self)
        ensures
            r.requests@.len() == 0,
            r.responses@.len() == 0,
    {
        Self::new()
    }
}

// ============================================================================
// Display double
// ============================================================================

/// A display that remembers its last frame and message.
#[derive(Debug)]
pub struct MockDisplay {
    /// The last state rendered.
    pub last_state: Option<ThrottleState>,
    /// How many frames were rendered.
    pub render_count: usize,
    /// The last message shown.
    pub last_message: Option<(String, Option<String>)>,
    /// Whether the display was initialized.
    pub initialized: bool,
}

impl MockDisplay {
    /// A blank display.
    pub fn new() -> (r: Self)
        ensures
            r.last_state is None,
            r.render_count == 0,
            r.last_message is None,
            !r.initialized,
    {
        Self { last_state: None, render_count: 0, last_message: None, initialized: false }
    }
}

impl ThrottleDisplay for MockDisplay {
    type Error = ();

    fn init(&mut self) -> Result<(), ()> {
        self.initialized = true;
        Ok(())
    }

    fn clear(&mut self) -> Result<(), ()> {
        self.last_state = None;
        Ok(())
    }

    fn render(&mut self, state: &ThrottleState) -> Result<(), ()> {
        self.last_state = Some(*state);
        if self.render_count < usize::MAX {
            self.render_count = self.render_count + 1;
        }
        Ok(())
    }

    fn show_message(&mut self, line1: &str, line2: Option<&str>) -> Result<(), ()> {
        let second = match line2 {
            Some(l) => Some(l.to_owned()),
            None => None,
        };
        self.last_message = Some((line1.to_owned(), second));
        Ok(())
    }
}

impl Default for MockDisplay {
    /// A blank display.
    fn default() -> (r: Self)
        ensures
            r.last_state is None,
            r.render_count == 0,
            r.last_message is None,
            !r.initialized,
    {
        Self::new()
    }
}

} // verus!
