//! Controller library for an RGB-backlit HID peripheral.
//!
//! The heart of the crate is a verified encoder that turns a validated
//! lighting command (effect, zone colors, speed, brightness) into the
//! fixed 33-byte feature-report buffer the device firmware expects.
//! Parsing of the numeric command-line arguments and the selection of
//! the target device among enumerated HID endpoints are verified here
//! as well; the actual USB transport is left to the host interface.

use vstd::prelude::*;

pub mod codec;
pub mod command;
pub mod device;
pub mod parse;

use crate::codec::{encode, spec_payload};
use crate::command::{
    parse_colors, required_triplets, spec_required_triplets, spec_triplets, Effect, Error,
    LightingCommand, Rgb, DEFAULT_BRIGHTNESS, DEFAULT_SPEED,
};
use crate::parse::{all_segments_valid, parse_u8_arg_or, parsed_values, spec_u8_arg_or};
use vstd::string::StringSliceAdditionalSpecFns;

verus! {

/// The triplets a color argument yields for an effect: for an absent
/// argument, the empty list (accepted exactly by the colorless
/// effects); for a supplied one, the parsed and grouped channel list.
pub open spec fn spec_colors_arg(effect: Effect, arg: Option<&str>) -> Result<Seq<Rgb>, Error> {
    match arg {
        None => if spec_required_triplets(effect) == 0 {
            Ok(Seq::<Rgb>::empty())
        } else {
            Err(Error::WrongTripletCount(spec_required_triplets(effect) as u8))
        },
        Some(s) => if !all_segments_valid(s.spec_bytes()) {
            Err(Error::MalformedNumber)
        } else if parsed_values(s.spec_bytes()).len() != 3 * spec_required_triplets(effect) {
            Err(Error::WrongTripletCount(spec_required_triplets(effect) as u8))
        } else {
            Ok(spec_triplets(parsed_values(s.spec_bytes())))
        },
    }
}

/// The full pipeline from raw argument strings to a feature-report
/// buffer: colors first, then brightness (parsed, then range-checked),
/// then speed, then the encoding of the validated command.
pub open spec fn spec_build_payload(
    effect: Effect,
    color_arg: Option<&str>,
    speed_arg: Option<&str>,
    brightness_arg: Option<&str>,
) -> Result<Seq<u8>, Error> {
    match spec_colors_arg(effect, color_arg) {
        Err(e) => Err(e),
        Ok(colors) => match spec_u8_arg_or(brightness_arg, DEFAULT_BRIGHTNESS) {
            Err(e) => Err(e),
            Ok(brightness) => if !(1 <= brightness <= 2) {
                Err(Error::InvalidBrightness)
            } else {
                match spec_u8_arg_or(speed_arg, DEFAULT_SPEED) {
                    Err(e) => Err(e),
                    Ok(speed) => if !(1 <= speed <= 4) {
                        Err(Error::InvalidSpeed)
                    } else {
                        Ok(spec_payload(effect, colors, speed, brightness))
                    },
                }
            },
        },
    }
}

/// Builds the feature-report buffer for one invocation: parses the
/// color, speed and brightness arguments, validates them against the
/// chosen effect, and encodes the command. Returns the first error the
/// pipeline meets, in the fixed order colors, brightness, speed.
pub fn build_payload(
    effect: Effect,
    color_arg: Option<&str>,
    speed_arg: Option<&str>,
    brightness_arg: Option<&str>,
) -> (r: Result<Vec<u8>, Error>)
    ensures
        match r {
            Ok(v) => spec_build_payload(effect, color_arg, speed_arg, brightness_arg)
                == Ok::<Seq<u8>, Error>(v@),
            Err(e) => spec_build_payload(effect, color_arg, speed_arg, brightness_arg)
                == Err::<Seq<u8>, Error>(e),
        },
{
    let colors: Vec<Rgb> = match color_arg {
        Some(a) => match parse_colors(effect, a) {
            Ok(v) => v,
            Err(e) => {
                return Err(e);
            },
        },
        None => {
            let required = required_triplets(effect);
            if required != 0 {
                return Err(Error::WrongTripletCount(required));
            }
            Vec::new()
        },
    };
    let brightness = match parse_u8_arg_or(brightness_arg, DEFAULT_BRIGHTNESS) {
        Ok(v) => v,
        Err(e) => {
            return Err(e);
        },
    };
    if brightness < 1 || brightness > 2 {
        return Err(Error::InvalidBrightness);
    }
    let speed = match parse_u8_arg_or(speed_arg, DEFAULT_SPEED) {
        Ok(v) => v,
        Err(e) => {
            return Err(e);
        },
    };
    if speed < 1 || speed > 4 {
        return Err(Error::InvalidSpeed);
    }
    let cmd = match LightingCommand::new(effect, colors, speed, brightness) {
        Ok(c) => c,
        Err(e) => {
            return Err(e);
        },
    };
    Ok(encode(&cmd))
}

} // verus!
