//! The lighting command model: effects, zone colors, numeric ranges,
//! and the validation that every encoder input must pass.

use vstd::prelude::*;

use crate::parse::{all_segments_valid, parse_bytes_arg, parsed_values};
use vstd::string::StringSliceAdditionalSpecFns;

verus! {

/// Speed used when the option is absent.
pub const DEFAULT_SPEED: u8 = 2;

/// Brightness used when the option is absent.
pub const DEFAULT_BRIGHTNESS: u8 = 2;

/// A lighting effect the device firmware can render.
///
/// `SolidColor` and `Breathe` take one color applied to every zone;
/// `ZoneColor` and `ZoneBreathe` take one color per zone (four zones);
/// `Smooth`, `WaveLeft` and `WaveRight` take no colors at all.
#[derive(Clone, Copy, Debug, PartialEq, Eq, Structural)]
pub enum Effect {
    SolidColor,
    ZoneColor,
    Breathe,
    ZoneBreathe,
    Smooth,
    WaveLeft,
    WaveRight,
}

/// One RGB triplet: an 8-bit value per channel.
#[derive(Clone, Copy, Debug, PartialEq, Eq, Structural)]
pub struct Rgb {
    pub red: u8,
    pub green: u8,
    pub blue: u8,
}

/// Everything that can go wrong before a feature report is sent:
/// malformed or out-of-range numeric input, a wrong number of color
/// triplets for the chosen effect, or no attached device matching the
/// fixed identity.
#[derive(Clone, Copy, Debug, PartialEq, Eq, Structural)]
pub enum Error {
    /// A channel, speed or brightness argument is not a decimal number
    /// in range (for channels: 0-255).
    MalformedNumber,
    /// The number of supplied triplets differs from what the effect
    /// requires; the payload is the required count.
    WrongTripletCount(u8),
    /// Brightness outside [1, 2].
    InvalidBrightness,
    /// Speed outside [1, 4].
    InvalidSpeed,
    /// No attached HID device matches the fixed identity tuple.
    DeviceNotFound,
}

impl Error {
    /// The human-readable message reported to the user.
    pub open spec fn spec_message(self) -> Seq<char> {
        match self {
            Error::MalformedNumber => "Invalid number. See help"@,
            Error::WrongTripletCount(n) => if n == 0 {
                "Expected 0 RGB triplets"@
            } else if n == 1 {
                "Expected 1 RGB triplet"@
            } else {
                "Expected 4 RGB triplets"@
            },
            Error::InvalidBrightness => "Invalid Brightness. See help"@,
            Error::InvalidSpeed => "Invalid Speed. See help"@,
            Error::DeviceNotFound => "Error: Couldn't find device"@,
        }
    }

    /// The human-readable message reported to the user.
    pub fn message(&self) -> (r: &'static str)
        ensures
            r@ == self.spec_message(),
    {
        match self {
            Error::MalformedNumber => "Invalid number. See help",
            Error::WrongTripletCount(n) => {
                if *n == 0 {
                    "Expected 0 RGB triplets"
                } else if *n == 1 {
                    "Expected 1 RGB triplet"
                } else {
                    "Expected 4 RGB triplets"
                }
            },
            Error::InvalidBrightness => "Invalid Brightness. See help",
            Error::InvalidSpeed => "Invalid Speed. See help",
            Error::DeviceNotFound => "Error: Couldn't find device",
        }
    }
}

/// How many RGB triplets the effect requires.
pub open spec fn spec_required_triplets(effect: Effect) -> nat {
    match effect {
        Effect::SolidColor | Effect::Breathe => 1,
        Effect::ZoneColor | Effect::ZoneBreathe => 4,
        Effect::Smooth | Effect::WaveLeft | Effect::WaveRight => 0,
    }
}

/// How many RGB triplets the effect requires.
pub fn required_triplets(effect: Effect) -> (n: u8)
    ensures
        n as nat == spec_required_triplets(effect),
{
    match effect {
        Effect::SolidColor | Effect::Breathe => 1,
        Effect::ZoneColor | Effect::ZoneBreathe => 4,
        Effect::Smooth | Effect::WaveLeft | Effect::WaveRight => 0,
    }
}

/// A validated lighting command, ready for encoding.
#[derive(Debug)]
pub struct LightingCommand {
    pub effect: Effect,
    pub colors: Vec<Rgb>,
    pub speed: u8,
    pub brightness: u8,
}

impl LightingCommand {
    /// The invariant every encoder input satisfies: the triplet count
    /// matches the effect, speed lies in [1, 4] and brightness in [1, 2].
    pub open spec fn valid(self) -> bool {
        &&& self.colors@.len() == spec_required_triplets(self.effect)
        &&& 1 <= self.speed <= 4
        &&& 1 <= self.brightness <= 2
    }

    /// Validates the pieces of a command and assembles them.
    ///
    /// Checks run in a fixed order: triplet count first, then
    /// brightness, then speed. Succeeds exactly when all three hold.
    pub fn new(effect: Effect, colors: Vec<Rgb>, speed: u8, brightness: u8) -> (r: Result<
        LightingCommand,
        Error,
    >)
        ensures
            match r {
                Ok(cmd) => {
                    &&& cmd.effect == effect
                    &&& cmd.colors@ == colors@
                    &&& cmd.speed == speed
                    &&& cmd.brightness == brightness
                    &&& cmd.valid()
                },
                Err(e) => {
                    &&& !(LightingCommand { effect, colors, speed, brightness }).valid()
                    &&& e == (if colors@.len() != spec_required_triplets(effect) {
                        Error::WrongTripletCount(spec_required_triplets(effect) as u8)
                    } else if !(1 <= brightness <= 2) {
                        Error::InvalidBrightness
                    } else {
                        Error::InvalidSpeed
                    })
                },
            },
    {
        let required = required_triplets(effect);
        if colors.len() != required as usize {
            return Err(Error::WrongTripletCount(required));
        }
        if brightness < 1 || brightness > 2 {
            return Err(Error::InvalidBrightness);
        }
        if speed < 1 || speed > 4 {
            return Err(Error::InvalidSpeed);
        }
        Ok(LightingCommand { effect, colors, speed, brightness })
    }
}

/// A flat channel list grouped into RGB triplets, three channels per
/// triplet, in input order.
pub open spec fn spec_triplets(flat: Seq<u8>) -> Seq<Rgb> {
    Seq::new(
        (flat.len() / 3) as nat,
        |z: int| Rgb { red: flat[3 * z], green: flat[3 * z + 1], blue: flat[3 * z + 2] },
    )
}

/// Parses a color argument into the triplets the effect requires.
///
/// The channel list is parsed first; a malformed or out-of-range value
/// is reported before the count is checked. A channel count other than
/// three per required triplet is rejected naming the required triplet
/// count.
pub fn parse_colors(effect: Effect, arg: &str) -> (r: Result<Vec<Rgb>, Error>)
    ensures
        match r {
            Ok(v) => {
                &&& all_segments_valid(arg.spec_bytes())
                &&& parsed_values(arg.spec_bytes()).len() == 3 * spec_required_triplets(effect)
                &&& v@ == spec_triplets(parsed_values(arg.spec_bytes()))
                &&& v@.len() == spec_required_triplets(effect)
            },
            Err(e) => if !all_segments_valid(arg.spec_bytes()) {
                e == Error::MalformedNumber
            } else {
                &&& parsed_values(arg.spec_bytes()).len() != 3 * spec_required_triplets(effect)
                &&& e == Error::WrongTripletCount(spec_required_triplets(effect) as u8)
            },
        },
{
    let flat = match parse_bytes_arg(arg) {
        Ok(v) => v,
        Err(e) => {
            return Err(e);
        },
    };
    let required = required_triplets(effect);
    if flat.len() != 3 * (required as usize) {
        return Err(Error::WrongTripletCount(required));
    }
    let n = required as usize;
    let mut out: Vec<Rgb> = Vec::new();
    let mut z: usize = 0;
    while z < n
        invariant
            0 <= z <= n <= 4,
            flat@.len() == 3 * n,
            out@.len() == z,
            forall|k: int|
                0 <= k < z ==> out@[k] == (Rgb {
                    red: flat@[3 * k],
                    green: flat@[3 * k + 1],
                    blue: flat@[3 * k + 2],
                }),
        decreases n - z,
    {
        let color = Rgb { red: flat[3 * z], green: flat[3 * z + 1], blue: flat[3 * z + 2] };
        out.push(color);
        z += 1;
    }
    proof {
        assert(out@ =~= spec_triplets(flat@));
    }
    Ok(out)
}

} // verus!
