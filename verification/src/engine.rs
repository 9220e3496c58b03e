//! The synchronization engine: the decision core of the worker that owns
//! the device.
//!
//! The engine holds the authoritative device state and decides, for every
//! event the surrounding loop hands it — a submitted command, a decoded
//! response, the outcome of an open attempt, a transport failure — how the
//! state changes, what must be sent to the device, and what is published
//! to the control surface. The loop around it performs the actual I/O and
//! owns the device handle; nothing here touches hardware.
//!
//! The heart is the reconciliation policy for inbound responses, which
//! prevents flicker from write/read races: a response flagged as
//! hardware-originated is always accepted; an acknowledgement of a
//! software write to brightness or temperature is discarded while a
//! pending write to the same field is younger than the 300 ms debounce
//! window, accepted (clearing the marker) once the window has elapsed, and
//! accepted unconditionally when no write is pending.

use vstd::prelude::*;

use crate::protocol::{Command, Response, MIN_BRIGHTNESS, MIN_TEMPERATURE};

verus! {

/// How long, in milliseconds, a non-hardware-sourced response to a field
/// with an in-flight software write is presumed stale.
pub const PENDING_TIMEOUT_MS: u64 = 300;

/// A command submitted to the engine by the control surface. `Retry` only
/// wakes the disconnected loop and changes nothing.
#[derive(Debug, Clone, Copy, PartialEq, Eq, Structural)]
pub enum DeviceCommand {
    Retry,
    SetPower(bool),
    SetBrightness(u16),
    SetTemperature(u16),
}

/// A consolidated notification the engine publishes to the control
/// surface.
#[derive(Debug, Clone, PartialEq, Eq)]
pub enum DeviceEvent {
    Connected,
    Power(bool),
    Brightness(u16),
    Temperature(u16),
    Error(String),
}

/// The engine's authoritative view of the device. Brightness and
/// temperature are in device units. A pending field holds the time, in
/// milliseconds, at which a software write to that field was issued and
/// not yet confirmed.
#[derive(Debug, Clone, Copy, PartialEq, Eq)]
pub struct DeviceState {
    pub power: bool,
    pub brightness: u16,
    pub temperature: u16,
    pub pending_brightness: Option<u64>,
    pub pending_temperature: Option<u64>,
}

/// Every pending stamp in `s` lies at or before `now`: true whenever the
/// stamps were taken from the same monotonic clock that produced `now`.
pub open spec fn pending_not_after(s: DeviceState, now: u64) -> bool {
    &&& (s.pending_brightness matches Some(stamp) ==> stamp <= now)
    &&& (s.pending_temperature matches Some(stamp) ==> stamp <= now)
}

/// Whether a response to a field whose pending marker is `pending` is
/// accepted at time `now`: always when hardware-originated, otherwise
/// only when no write is pending or the pending write has aged past the
/// debounce window.
pub open spec fn accepts(pending: Option<u64>, is_hardware: bool, now: u64) -> bool {
    is_hardware || match pending {
        Some(stamp) => now >= stamp + PENDING_TIMEOUT_MS,
        None => true,
    }
}

/// The state a command leaves behind: set commands overwrite their field,
/// and a brightness or temperature write stamps its pending marker with
/// the submission time.
pub open spec fn applied(s: DeviceState, cmd: DeviceCommand, now: u64) -> DeviceState {
    match cmd {
        DeviceCommand::Retry => s,
        DeviceCommand::SetPower(on) => DeviceState { power: on, ..s },
        DeviceCommand::SetBrightness(level) => DeviceState {
            brightness: level,
            pending_brightness: Some(now),
            ..s
        },
        DeviceCommand::SetTemperature(level) => DeviceState {
            temperature: level,
            pending_temperature: Some(now),
            ..s
        },
    }
}

/// The wire command a submitted command forwards to the device: nothing
/// while disconnected, nothing for `Retry`, else the matching set command.
pub open spec fn forwarded(cmd: DeviceCommand, connected: bool) -> Option<Command> {
    if !connected {
        None
    } else {
        match cmd {
            DeviceCommand::Retry => None,
            DeviceCommand::SetPower(on) => Some(Command::SetPower(on)),
            DeviceCommand::SetBrightness(level) => Some(Command::SetBrightness(level)),
            DeviceCommand::SetTemperature(level) => Some(Command::SetTemperature(level)),
        }
    }
}

/// The outcome of reconciling one response against the state at time
/// `now`: the new state and the event published for it, if accepted.
/// Power is accepted unconditionally and touches no pending marker; an
/// accepted non-hardware brightness or temperature response clears its
/// field's marker, while a hardware-originated one leaves it in place.
pub open spec fn reconciled(s: DeviceState, r: Response, now: u64) -> (DeviceState, Option<
    DeviceEvent,
>) {
    match r {
        Response::Power(on, _) => (
            DeviceState { power: on, ..s },
            Some(DeviceEvent::Power(on)),
        ),
        Response::Brightness(level, is_hardware) => {
            if accepts(s.pending_brightness, is_hardware, now) {
                (
                    DeviceState {
                        brightness: level,
                        pending_brightness: if is_hardware {
                            s.pending_brightness
                        } else {
                            None
                        },
                        ..s
                    },
                    Some(DeviceEvent::Brightness(level)),
                )
            } else {
                (s, None)
            }
        },
        Response::Temperature(level, is_hardware) => {
            if accepts(s.pending_temperature, is_hardware, now) {
                (
                    DeviceState {
                        temperature: level,
                        pending_temperature: if is_hardware {
                            s.pending_temperature
                        } else {
                            None
                        },
                        ..s
                    },
                    Some(DeviceEvent::Temperature(level)),
                )
            } else {
                (s, None)
            }
        },
    }
}

/// Whether a response reports a change that originated from a physical
/// control on the device rather than from software.
pub open spec fn is_hardware_sourced(r: Response) -> bool {
    match r {
        Response::Power(_, is_hardware) => is_hardware,
        Response::Brightness(_, is_hardware) => is_hardware,
        Response::Temperature(_, is_hardware) => is_hardware,
    }
}

/// The event that publishes the value a response carries.
pub open spec fn value_event(r: Response) -> DeviceEvent {
    match r {
        Response::Power(on, _) => DeviceEvent::Power(on),
        Response::Brightness(level, _) => DeviceEvent::Brightness(level),
        Response::Temperature(level, _) => DeviceEvent::Temperature(level),
    }
}

/// A hardware-originated response is accepted and published whatever
/// writes are pending: its field takes the reported value, its event is
/// emitted, and no pending marker is disturbed.
pub proof fn lemma_hardware_response_accepted(s: DeviceState, r: Response, now: u64)
    requires
        is_hardware_sourced(r),
    ensures
        reconciled(s, r, now).1 == Some(value_event(r)),
        match r {
            Response::Power(on, _) => reconciled(s, r, now).0.power == on,
            Response::Brightness(level, _) => reconciled(s, r, now).0.brightness == level,
            Response::Temperature(level, _) => reconciled(s, r, now).0.temperature == level,
        },
        reconciled(s, r, now).0.pending_brightness == s.pending_brightness,
        reconciled(s, r, now).0.pending_temperature == s.pending_temperature,
{
}

/// With no write pending on its field, a non-hardware-sourced brightness
/// or temperature response is accepted and published unconditionally.
pub proof fn lemma_unpended_response_accepted(s: DeviceState, r: Response, now: u64)
    requires
        r matches Response::Brightness(_, _) ==> s.pending_brightness is None,
        r matches Response::Temperature(_, _) ==> s.pending_temperature is None,
    ensures
        reconciled(s, r, now).1 == Some(value_event(r)),
        match r {
            Response::Power(on, _) => reconciled(s, r, now).0.power == on,
            Response::Brightness(level, _) => reconciled(s, r, now).0.brightness == level,
            Response::Temperature(level, _) => reconciled(s, r, now).0.temperature == level,
        },
{
}

/// While a software write to a field is pending and younger than the
/// debounce window, a non-hardware-sourced response to the same field is
/// discarded: no event, and the state — pending marker included — is
/// exactly what it was.
pub proof fn lemma_stale_echo_rejected(s: DeviceState, r: Response, now: u64)
    requires
        !is_hardware_sourced(r),
        match r {
            Response::Power(_, _) => false,
            Response::Brightness(_, _) => s.pending_brightness matches Some(stamp)
                && now < stamp + PENDING_TIMEOUT_MS,
            Response::Temperature(_, _) => s.pending_temperature matches Some(stamp)
                && now < stamp + PENDING_TIMEOUT_MS,
        },
    ensures
        reconciled(s, r, now) == (s, None::<DeviceEvent>),
{
}

/// Once the debounce window of a pending write has elapsed, the next
/// non-hardware-sourced response to that field is accepted and clears the
/// pending marker.
pub proof fn lemma_settled_echo_accepted(s: DeviceState, r: Response, now: u64)
    requires
        !is_hardware_sourced(r),
        match r {
            Response::Power(_, _) => false,
            Response::Brightness(_, _) => s.pending_brightness matches Some(stamp)
                && now >= stamp + PENDING_TIMEOUT_MS,
            Response::Temperature(_, _) => s.pending_temperature matches Some(stamp)
                && now >= stamp + PENDING_TIMEOUT_MS,
        },
    ensures
        reconciled(s, r, now).1 == Some(value_event(r)),
        r matches Response::Brightness(level, _) ==> {
            &&& reconciled(s, r, now).0.brightness == level
            &&& reconciled(s, r, now).0.pending_brightness is None
        },
        r matches Response::Temperature(level, _) ==> {
            &&& reconciled(s, r, now).0.temperature == level
            &&& reconciled(s, r, now).0.pending_temperature is None
        },
{
}

/// Submitting `SetPower(true)` twice leaves the same single state value a
/// single submission leaves — power on, everything else untouched — and
/// each of the two submissions forwards at most one device write.
pub proof fn lemma_set_power_idempotent(s: DeviceState, connected: bool, now1: u64, now2: u64)
    ensures
        ({
            let once = applied(s, DeviceCommand::SetPower(true), now1);
            let twice = applied(once, DeviceCommand::SetPower(true), now2);
            &&& twice == once
            &&& twice.power
            &&& twice.brightness == s.brightness
            &&& twice.temperature == s.temperature
            &&& twice.pending_brightness == s.pending_brightness
            &&& twice.pending_temperature == s.pending_temperature
        }),
        forwarded(DeviceCommand::SetPower(true), connected) == (if connected {
            Some(Command::SetPower(true))
        } else {
            None::<Command>
        }),
{
}

/// The engine: device state, connection status, and the text of the last
/// connect failure published, kept to deduplicate repeated failures.
#[derive(Debug)]
pub struct Engine {
    pub state: DeviceState,
    pub connected: bool,
    pub last_error: Option<String>,
}

impl Engine {
    /// A fresh engine: disconnected, no failure published yet, every
    /// field at its startup value and no write pending.
    pub fn new() -> (e: Engine)
        ensures
            e.state == (DeviceState {
                power: false,
                brightness: MIN_BRIGHTNESS,
                temperature: MIN_TEMPERATURE,
                pending_brightness: None,
                pending_temperature: None,
            }),
            !e.connected,
            e.last_error is None,
    {
        Engine {
            state: DeviceState {
                power: false,
                brightness: MIN_BRIGHTNESS,
                temperature: MIN_TEMPERATURE,
                pending_brightness: None,
                pending_temperature: None,
            },
            connected: false,
            last_error: None,
        }
    }

    /// Apply one submitted command at time `now_ms`: update the owned
    /// state as `applied` says and hand back the wire command to forward,
    /// if any, as `forwarded` says. The caller sends it and reports a
    /// failure through `on_transport_error`.
    pub fn on_command(&mut self, cmd: DeviceCommand, now_ms: u64) -> (send: Option<Command>)
        ensures
            final(self).state == applied(old(self).state, cmd, now_ms),
            final(self).connected == old(self).connected,
            final(self).last_error == old(self).last_error,
            send == forwarded(cmd, old(self).connected),
    {
        match cmd {
            DeviceCommand::Retry => None,
            DeviceCommand::SetPower(on) => {
                self.state.power = on;
                if self.connected {
                    Some(Command::SetPower(on))
                } else {
                    None
                }
            }
            DeviceCommand::SetBrightness(level) => {
                self.state.brightness = level;
                self.state.pending_brightness = Some(now_ms);
                if self.connected {
                    Some(Command::SetBrightness(level))
                } else {
                    None
                }
            }
            DeviceCommand::SetTemperature(level) => {
                self.state.temperature = level;
                self.state.pending_temperature = Some(now_ms);
                if self.connected {
                    Some(Command::SetTemperature(level))
                } else {
                    None
                }
            }
        }
    }

    /// Reconcile one decoded response received at time `now_ms` against
    /// the pending writes, exactly as `reconciled` says; the returned
    /// event, if any, is what the control surface is told.
    pub fn on_response(&mut self, r: Response, now_ms: u64) -> (evt: Option<DeviceEvent>)
        requires
            pending_not_after(old(self).state, now_ms),
        ensures
            final(self).state == reconciled(old(self).state, r, now_ms).0,
            evt == reconciled(old(self).state, r, now_ms).1,
            final(self).connected == old(self).connected,
            final(self).last_error == old(self).last_error,
    {
        match r {
            Response::Power(on, _) => {
                self.state.power = on;
                Some(DeviceEvent::Power(on))
            }
            Response::Brightness(level, is_hardware) => {
                let accept: bool = if is_hardware {
                    true
                } else {
                    match self.state.pending_brightness {
                        Some(stamp) => {
                            if now_ms - stamp < PENDING_TIMEOUT_MS {
                                false
                            } else {
                                self.state.pending_brightness = None;
                                true
                            }
                        }
                        None => true,
                    }
                };
                if accept {
                    self.state.brightness = level;
                    Some(DeviceEvent::Brightness(level))
                } else {
                    None
                }
            }
            Response::Temperature(level, is_hardware) => {
                let accept: bool = if is_hardware {
                    true
                } else {
                    match self.state.pending_temperature {
                        Some(stamp) => {
                            if now_ms - stamp < PENDING_TIMEOUT_MS {
                                false
                            } else {
                                self.state.pending_temperature = None;
                                true
                            }
                        }
                        None => true,
                    }
                };
                if accept {
                    self.state.temperature = level;
                    Some(DeviceEvent::Temperature(level))
                } else {
                    None
                }
            }
        }
    }

    /// Record a successful open: the engine is now connected, the failure
    /// deduplication resets, and the caller must send the returned three
    /// queries — power, brightness, temperature, in that order — so the
    /// freshly connected device reports its state.
    pub fn on_open_success(&mut self) -> (r: (DeviceEvent, Vec<Command>))
        ensures
            final(self).state == old(self).state,
            final(self).connected,
            final(self).last_error is None,
            r.0 == DeviceEvent::Connected,
            r.1@ == seq![Command::GetPower, Command::GetBrightness, Command::GetTemperature],
    {
        self.connected = true;
        self.last_error = None;
        let queries: Vec<Command> = vec![
            Command::GetPower,
            Command::GetBrightness,
            Command::GetTemperature,
        ];
        proof {
            assert(queries@ =~= seq![
                Command::GetPower,
                Command::GetBrightness,
                Command::GetTemperature,
            ]);
        }
        (DeviceEvent::Connected, queries)
    }

    /// Record a failed open attempt. The failure text is published only
    /// when it differs from the last one published, so an unchanged
    /// failure repeated across retries yields a single event.
    pub fn on_open_failure(&mut self, message: String) -> (evt: Option<DeviceEvent>)
        ensures
            final(self).state == old(self).state,
            final(self).connected == old(self).connected,
            final(self).last_error matches Some(m) && m@ == message@,
            match evt {
                Some(e) => {
                    &&& e matches DeviceEvent::Error(m) && m@ == message@
                    &&& !(old(self).last_error matches Some(prev) && prev@ == message@)
                },
                None => old(self).last_error matches Some(prev) && prev@ == message@,
            },
    {
        let duplicate: bool = match &self.last_error {
            Some(prev) => *prev == message,
            None => false,
        };
        if duplicate {
            None
        } else {
            self.last_error = Some(message.clone());
            Some(DeviceEvent::Error(message))
        }
    }

    /// Record a read or write failure on the open handle: the engine
    /// drops to disconnected and the control surface is told the device
    /// is gone. The caller must drop the handle and return to the retry
    /// path.
    pub fn on_transport_error(&mut self) -> (evt: DeviceEvent)
        ensures
            final(self).state == old(self).state,
            !final(self).connected,
            final(self).last_error == old(self).last_error,
            evt matches DeviceEvent::Error(m) && m@ == "Device disconnected"@,
    {
        self.connected = false;
        DeviceEvent::Error("Device disconnected".to_owned())
    }
}

} // verus!
