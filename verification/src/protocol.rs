//! Binary protocol codec for the key light.
//!
//! Outbound commands serialize to fixed 20-byte reports: a big-endian
//! 32-bit opcode in bytes 0..4, then a 1-byte boolean payload (power) or a
//! 2-byte big-endian payload (brightness/temperature) at offset 4; the rest
//! is zero. Inbound reports of at least 6 bytes carry a tag byte at offset 3
//! that selects the field and tells a device-initiated change apart from the
//! acknowledgement of a software write; unknown tags decode to nothing.

use vstd::prelude::*;

verus! {

/// USB vendor identifier of the device.
pub const VENDOR_ID: u16 = 0x046d;

/// USB product identifier of the device.
pub const PRODUCT_ID: u16 = 0xc900;

/// Lowest brightness the device accepts, in device units.
pub const MIN_BRIGHTNESS: u16 = 0x14;

/// Highest brightness the device accepts, in device units.
pub const MAX_BRIGHTNESS: u16 = 0xfa;

/// Lowest color temperature the device accepts, in Kelvin.
pub const MIN_TEMPERATURE: u16 = 2700;

/// Highest color temperature the device accepts, in Kelvin.
pub const MAX_TEMPERATURE: u16 = 6500;

/// Granularity of the color temperature scale, in Kelvin.
pub const TEMPERATURE_STEP: u16 = 100;

/// An outbound intent: set a field or query its current value.
#[derive(Debug, Clone, Copy, PartialEq, Eq, Structural)]
pub enum Command {
    SetPower(bool),
    SetBrightness(u16),
    SetTemperature(u16),
    GetPower,
    GetBrightness,
    GetTemperature,
}

/// An inbound observation of one field. The second flag is true when the
/// change originated from a physical control on the device itself rather
/// than from a software command.
#[derive(Debug, Clone, Copy, PartialEq, Eq, Structural)]
pub enum Response {
    Power(bool, bool),
    Brightness(u16, bool),
    Temperature(u16, bool),
}

/// The 32-bit opcode of a command, sent big-endian in bytes 0..4.
pub open spec fn opcode(c: Command) -> u32 {
    match c {
        Command::SetPower(_) => 0x11FF041C,
        Command::SetBrightness(_) => 0x11FF044C,
        Command::SetTemperature(_) => 0x11FF049C,
        Command::GetPower => 0x11FF0401,
        Command::GetBrightness => 0x11FF0431,
        Command::GetTemperature => 0x11FF0481,
    }
}

/// The two payload bytes at offsets 4 and 5 of an encoded command.
pub open spec fn payload(c: Command) -> Seq<u8> {
    match c {
        Command::SetPower(on) => seq![if on { 1u8 } else { 0u8 }, 0u8],
        Command::SetBrightness(level) => seq![(level / 256) as u8, (level % 256) as u8],
        Command::SetTemperature(kelvin) => seq![(kelvin / 256) as u8, (kelvin % 256) as u8],
        Command::GetPower => seq![0u8, 0u8],
        Command::GetBrightness => seq![0u8, 0u8],
        Command::GetTemperature => seq![0u8, 0u8],
    }
}

/// The exact 20-byte wire image of a command: big-endian opcode, payload,
/// zero padding.
pub open spec fn encoded(c: Command) -> Seq<u8> {
    seq![
        (opcode(c) / 0x1000000) as u8,
        ((opcode(c) / 0x10000) % 0x100) as u8,
        ((opcode(c) / 0x100) % 0x100) as u8,
        (opcode(c) % 0x100) as u8,
    ] + payload(c) + Seq::new(14, |i: int| 0u8)
}

impl Command {
    /// Serialize to the fixed 20-byte report laid out by `encoded`.
    pub fn to_bytes(&self) -> (buf: [u8; 20])
        ensures
            buf@ == encoded(*self),
    {
        let mut buf = [0u8; 20];
        match self {
            Command::SetPower(on) => {
                buf[0] = 0x11;
                buf[1] = 0xFF;
                buf[2] = 0x04;
                buf[3] = 0x1C;
                buf[4] = if *on { 1 } else { 0 };
            }
            Command::SetBrightness(level) => {
                buf[0] = 0x11;
                buf[1] = 0xFF;
                buf[2] = 0x04;
                buf[3] = 0x4C;
                buf[4] = (*level / 256) as u8;
                buf[5] = (*level % 256) as u8;
            }
            Command::SetTemperature(kelvin) => {
                buf[0] = 0x11;
                buf[1] = 0xFF;
                buf[2] = 0x04;
                buf[3] = 0x9C;
                buf[4] = (*kelvin / 256) as u8;
                buf[5] = (*kelvin % 256) as u8;
            }
            Command::GetPower => {
                buf[0] = 0x11;
                buf[1] = 0xFF;
                buf[2] = 0x04;
                buf[3] = 0x01;
            }
            Command::GetBrightness => {
                buf[0] = 0x11;
                buf[1] = 0xFF;
                buf[2] = 0x04;
                buf[3] = 0x31;
            }
            Command::GetTemperature => {
                buf[0] = 0x11;
                buf[1] = 0xFF;
                buf[2] = 0x04;
                buf[3] = 0x81;
            }
        }
        proof {
            assert(buf@ =~= encoded(*self));
        }
        buf
    }
}

/// The response, if any, that a report decodes to: reports shorter than
/// 6 bytes and unknown tag bytes at offset 3 decode to nothing. The value
/// sits at offset 4 (power, one byte, nonzero meaning on), offset 5
/// (brightness, one byte) or offsets 4..6 big-endian (temperature).
pub open spec fn decoded(data: Seq<u8>) -> Option<Response> {
    if data.len() < 6 {
        None
    } else if data[3] == 0x00 {
        Some(Response::Power(data[4] != 0, true))
    } else if data[3] == 0x01 {
        Some(Response::Power(data[4] != 0, false))
    } else if data[3] == 0x10 {
        Some(Response::Brightness(data[5] as u16, true))
    } else if data[3] == 0x31 {
        Some(Response::Brightness(data[5] as u16, false))
    } else if data[3] == 0x20 {
        Some(Response::Temperature(((data[4] as int) * 256 + (data[5] as int)) as u16, true))
    } else if data[3] == 0x81 {
        Some(Response::Temperature(((data[4] as int) * 256 + (data[5] as int)) as u16, false))
    } else {
        None
    }
}

impl Response {
    /// Decode one inbound report; exactly the function `decoded`.
    pub fn from_bytes(data: &[u8]) -> (r: Option<Response>)
        ensures
            r == decoded(data@),
    {
        if data.len() < 6 {
            return None;
        }
        match data[3] {
            0x00 => Some(Response::Power(data[4] != 0, true)),
            0x01 => Some(Response::Power(data[4] != 0, false)),
            0x10 => Some(Response::Brightness(data[5] as u16, true)),
            0x31 => Some(Response::Brightness(data[5] as u16, false)),
            0x20 => {
                let temp: u16 = (data[4] as u16) * 256 + (data[5] as u16);
                Some(Response::Temperature(temp, true))
            }
            0x81 => {
                let temp: u16 = (data[4] as u16) * 256 + (data[5] as u16);
                Some(Response::Temperature(temp, false))
            }
            _ => None,
        }
    }
}

/// The synthetic inbound report with which the device would acknowledge a
/// set command: the field's acknowledgement tag at offset 3 and the written
/// value in the field's value bytes. Query commands have no echo.
pub open spec fn response_echo(c: Command) -> Option<Seq<u8>> {
    match c {
        Command::SetPower(on) => Some(
            seq![0u8, 0u8, 0u8, 0x01u8, if on { 1u8 } else { 0u8 }, 0u8],
        ),
        Command::SetBrightness(level) => Some(
            seq![0u8, 0u8, 0u8, 0x31u8, (level / 256) as u8, (level % 256) as u8],
        ),
        Command::SetTemperature(kelvin) => Some(
            seq![0u8, 0u8, 0u8, 0x81u8, (kelvin / 256) as u8, (kelvin % 256) as u8],
        ),
        _ => None,
    }
}

/// Build the report a device acknowledgement of `c` would arrive as, or
/// `None` when `c` is a query. Exactly the function `response_echo`.
pub fn encode_as_response_echo(c: &Command) -> (r: Option<Vec<u8>>)
    ensures
        match r {
            Some(bytes) => response_echo(*c) == Some(bytes@),
            None => response_echo(*c) is None,
        },
{
    match c {
        Command::SetPower(on) => {
            let bytes: Vec<u8> = vec![0, 0, 0, 0x01, if *on { 1 } else { 0 }, 0];
            proof {
                assert(bytes@ =~= response_echo(*c).unwrap());
            }
            Some(bytes)
        }
        Command::SetBrightness(level) => {
            let bytes: Vec<u8> = vec![0, 0, 0, 0x31, (*level / 256) as u8, (*level % 256) as u8];
            proof {
                assert(bytes@ =~= response_echo(*c).unwrap());
            }
            Some(bytes)
        }
        Command::SetTemperature(kelvin) => {
            let bytes: Vec<u8> = vec![0, 0, 0, 0x81, (*kelvin / 256) as u8, (*kelvin % 256) as u8];
            proof {
                assert(bytes@ =~= response_echo(*c).unwrap());
            }
            Some(bytes)
        }
        Command::GetPower => None,
        Command::GetBrightness => None,
        Command::GetTemperature => None,
    }
}

/// Whether a response reports the field a set command writes, carries the
/// very value the command wrote, and is flagged as the acknowledgement of a
/// software write rather than a hardware-originated change.
pub open spec fn echoes(c: Command, r: Response) -> bool {
    match c {
        Command::SetPower(on) => r == Response::Power(on, false),
        Command::SetBrightness(level) => r == Response::Brightness(level, false),
        Command::SetTemperature(kelvin) => r == Response::Temperature(kelvin, false),
        _ => false,
    }
}

/// Decoding the acknowledgement report of any set command round-trips the
/// written field value exactly. Brightness travels in a single byte, so the
/// law asks the brightness value to fit one byte; the device's whole
/// brightness range does.
pub proof fn lemma_echo_round_trip(c: Command)
    requires
        c matches Command::SetBrightness(level) ==> level <= 0xff,
    ensures
        match c {
            Command::SetPower(_) | Command::SetBrightness(_) | Command::SetTemperature(_) => {
                &&& response_echo(c) matches Some(bytes)
                &&& decoded(response_echo(c).unwrap()) matches Some(r) && echoes(c, r)
            },
            _ => response_echo(c) is None,
        },
{
    match c {
        Command::SetPower(on) => {
            let bytes = response_echo(c).unwrap();
            assert(bytes[3] == 0x01);
            assert((bytes[4] != 0) == on);
        }
        Command::SetBrightness(level) => {
            let bytes = response_echo(c).unwrap();
            assert(bytes[3] == 0x31);
            assert(level / 256 == 0) by (nonlinear_arith)
                requires level <= 0xff;
            assert(level % 256 == level) by (nonlinear_arith)
                requires level <= 0xff;
            assert(bytes[5] == level as u8);
        }
        Command::SetTemperature(kelvin) => {
            let bytes = response_echo(c).unwrap();
            assert(bytes[3] == 0x81);
            assert((kelvin / 256) * 256 + kelvin % 256 == kelvin) by (nonlinear_arith);
            assert(((bytes[4] as int) * 256 + (bytes[5] as int)) as u16 == kelvin);
        }
        _ => {}
    }
}

} // verus!
