//! Helpers for consumers of the engine's events and for the headless
//! one-shot query path: collecting the three queried fields as their
//! replies trickle in, and deciding when enough of them have reported for
//! the control surface to count itself initialized.

use vstd::prelude::*;
use vstd::string::StringExecFns;

use crate::engine::DeviceEvent;
use crate::protocol::Response;

verus! {

/// How many field reports the control surface waits for before it counts
/// itself initialized and starts forwarding user input.
pub const INIT_REPORTS_NEEDED: u8 = 2;

/// What the headless one-shot path has heard back so far of the three
/// queried fields; a field that never arrives stays `None`.
#[derive(Debug, Clone, Copy, PartialEq, Eq)]
pub struct StatusReport {
    pub power: Option<bool>,
    pub brightness: Option<u16>,
    pub temperature: Option<u16>,
}

impl StatusReport {
    /// A report with nothing heard yet.
    pub fn new() -> (r: StatusReport)
        ensures
            r.power is None,
            r.brightness is None,
            r.temperature is None,
    {
        StatusReport { power: None, brightness: None, temperature: None }
    }

    /// Note one reply: the reported field takes the reported value,
    /// whoever originated it; the other fields keep what they had.
    pub fn record(&mut self, r: Response)
        ensures
            match r {
                Response::Power(on, _) => *final(self) == (StatusReport {
                    power: Some(on),
                    ..*old(self)
                }),
                Response::Brightness(level, _) => *final(self) == (StatusReport {
                    brightness: Some(level),
                    ..*old(self)
                }),
                Response::Temperature(level, _) => *final(self) == (StatusReport {
                    temperature: Some(level),
                    ..*old(self)
                }),
            },
    {
        match r {
            Response::Power(on, _) => self.power = Some(on),
            Response::Brightness(level, _) => self.brightness = Some(level),
            Response::Temperature(level, _) => self.temperature = Some(level),
        }
    }

    /// Whether every queried field has reported, so the one-shot path can
    /// stop polling early.
    pub fn is_complete(&self) -> (r: bool)
        ensures
            r == (self.power is Some && self.brightness is Some && self.temperature is Some),
    {
        self.power.is_some() && self.brightness.is_some() && self.temperature.is_some()
    }
}

/// Whether an event reports a field value, as opposed to a connection
/// status change or a failure.
pub open spec fn is_field_event(evt: DeviceEvent) -> bool {
    match evt {
        DeviceEvent::Power(_) => true,
        DeviceEvent::Brightness(_) => true,
        DeviceEvent::Temperature(_) => true,
        _ => false,
    }
}

/// The tracker one published event leaves behind: field events count
/// until the needed number of reports is reached, which flips the tracker
/// to initialized for good; other events change nothing.
pub open spec fn noted(t: InitTracker, evt: DeviceEvent) -> InitTracker {
    if t.initialized {
        t
    } else if is_field_event(evt) {
        let n = ((t.observed + 1) as u8);
        InitTracker { observed: n, initialized: n >= INIT_REPORTS_NEEDED }
    } else {
        t
    }
}

/// Counts field-update events until enough have arrived to call the
/// control surface initialized: with three fields queried at connect
/// time, two reports suffice.
#[derive(Debug, Clone, Copy, PartialEq, Eq)]
pub struct InitTracker {
    pub initialized: bool,
    pub observed: u8,
}

impl InitTracker {
    /// The counter never passes the threshold, and reaching it always
    /// comes with the initialized flag: counting stops the moment the
    /// tracker is initialized.
    pub open spec fn wf(self) -> bool {
        &&& self.observed <= INIT_REPORTS_NEEDED
        &&& self.observed >= INIT_REPORTS_NEEDED ==> self.initialized
    }

    /// A fresh tracker: nothing observed, not initialized.
    pub fn new() -> (t: InitTracker)
        ensures
            !t.initialized,
            t.observed == 0,
            t.wf(),
    {
        InitTracker { initialized: false, observed: 0 }
    }

    /// Note one published event; exactly the function `noted`.
    pub fn note_event(&mut self, evt: &DeviceEvent)
        requires
            old(self).wf(),
        ensures
            *final(self) == noted(*old(self), *evt),
            final(self).wf(),
    {
        if self.initialized {
            return;
        }
        let counts: bool = match evt {
            DeviceEvent::Power(_) => true,
            DeviceEvent::Brightness(_) => true,
            DeviceEvent::Temperature(_) => true,
            _ => false,
        };
        if counts {
            self.observed = self.observed + 1;
            if self.observed >= INIT_REPORTS_NEEDED {
                self.initialized = true;
            }
        }
    }
}

/// The character a decimal digit prints as.
pub open spec fn spec_digit(d: int) -> char {
    if d == 0 {
        '0'
    } else if d == 1 {
        '1'
    } else if d == 2 {
        '2'
    } else if d == 3 {
        '3'
    } else if d == 4 {
        '4'
    } else if d == 5 {
        '5'
    } else if d == 6 {
        '6'
    } else if d == 7 {
        '7'
    } else if d == 8 {
        '8'
    } else {
        '9'
    }
}

/// The usual decimal rendering of a non-negative number: no sign, no
/// leading zeros except for zero itself.
pub open spec fn spec_decimal(n: int) -> Seq<char>
    decreases n,
{
    if n < 10 {
        seq![spec_digit(n)]
    } else {
        spec_decimal(n / 10) + seq![spec_digit(n % 10)]
    }
}

/// The JSON rendering of an optionally-known boolean.
pub open spec fn spec_opt_bool_text(v: Option<bool>) -> Seq<char> {
    match v {
        Some(true) => "true"@,
        Some(false) => "false"@,
        None => "null"@,
    }
}

/// The JSON rendering of an optionally-known number.
pub open spec fn spec_opt_u16_text(v: Option<u16>) -> Seq<char> {
    match v {
        Some(n) => spec_decimal(n as int),
        None => "null"@,
    }
}

/// The single JSON line the headless one-shot path prints: the three
/// fields in a fixed order, each `null` when its reply never arrived.
pub open spec fn spec_status_json(
    power: Option<bool>,
    brightness_percent: Option<u16>,
    temperature: Option<u16>,
) -> Seq<char> {
    "{\"power\":"@ + spec_opt_bool_text(power) + ",\"brightness\":"@ + spec_opt_u16_text(
        brightness_percent,
    ) + ",\"temperature\":"@ + spec_opt_u16_text(temperature) + "}"@
}

/// Append the decimal rendering of `n`, exactly `spec_decimal`.
fn append_decimal(out: &mut String, n: u16)
    ensures
        final(out)@ == old(out)@ + spec_decimal(n as int),
    decreases n,
{
    if n >= 10 {
        append_decimal(out, n / 10);
    }
    let d: u16 = n % 10;
    let digit: &str = match d {
        0 => "0",
        1 => "1",
        2 => "2",
        3 => "3",
        4 => "4",
        5 => "5",
        6 => "6",
        7 => "7",
        8 => "8",
        _ => "9",
    };
    proof {
        reveal_strlit("0");
        reveal_strlit("1");
        reveal_strlit("2");
        reveal_strlit("3");
        reveal_strlit("4");
        reveal_strlit("5");
        reveal_strlit("6");
        reveal_strlit("7");
        reveal_strlit("8");
        reveal_strlit("9");
        assert(digit@ =~= seq![spec_digit(d as int)]);
    }
    out.append(digit);
    proof {
        assert(out@ =~= old(out)@ + spec_decimal(n as int));
    }
}

/// Build the status line of the headless one-shot path, exactly
/// `spec_status_json`; printing it is the caller's business.
pub fn status_json(
    power: Option<bool>,
    brightness_percent: Option<u16>,
    temperature: Option<u16>,
) -> (r: String)
    ensures
        r@ == spec_status_json(power, brightness_percent, temperature),
{
    let mut out = String::new();
    out.append("{\"power\":");
    match power {
        Some(true) => out.append("true"),
        Some(false) => out.append("false"),
        None => out.append("null"),
    }
    out.append(",\"brightness\":");
    match brightness_percent {
        Some(n) => append_decimal(&mut out, n),
        None => out.append("null"),
    }
    out.append(",\"temperature\":");
    match temperature {
        Some(n) => append_decimal(&mut out, n),
        None => out.append("null"),
    }
    out.append("}");
    proof {
        assert(out@ =~= spec_status_json(power, brightness_percent, temperature));
    }
    out
}

/// From a fresh tracker, one field-update event is not enough to reach
/// the initialized state, and any second one — whatever fields the two
/// report — is.
pub proof fn lemma_two_reports_initialize(t: InitTracker, e1: DeviceEvent, e2: DeviceEvent)
    requires
        !t.initialized,
        t.observed == 0,
        is_field_event(e1),
        is_field_event(e2),
    ensures
        !noted(t, e1).initialized,
        noted(noted(t, e1), e2).initialized,
{
}

} // verus!
