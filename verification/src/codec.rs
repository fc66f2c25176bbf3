//! The command encoder: the bit-exact mapping from a validated
//! [`LightingCommand`](crate::command::LightingCommand) to the 33-byte
//! feature-report buffer the device firmware consumes.
//!
//! Buffer layout (all unused bytes zero):
//! byte 0 the protocol marker, byte 1 the "set lighting" sub-marker,
//! byte 2 the effect opcode, byte 3 the speed, byte 4 the brightness,
//! bytes 5..17 four 3-byte RGB zone slots, byte 18 the wave-right flag,
//! byte 19 the wave-left flag, bytes 20..33 reserved.

use vstd::prelude::*;

use crate::command::{Effect, LightingCommand, Rgb};

verus! {

/// Length of every feature-report buffer.
pub const PAYLOAD_LEN: usize = 33;

/// Fixed marker identifying this command class (byte 0).
pub const PROTOCOL_MARKER: u8 = 0xcc;

/// Fixed sub-marker identifying the "set lighting" request (byte 1).
pub const LIGHTING_SUBMARKER: u8 = 0x16;

/// The effect opcode placed at byte 2.
///
/// Uniform and per-zone variants of the same visual effect share an
/// opcode on purpose: the device tells them apart by the color pattern.
pub open spec fn spec_opcode(effect: Effect) -> u8 {
    match effect {
        Effect::SolidColor | Effect::ZoneColor => 0x01,
        Effect::Breathe | Effect::ZoneBreathe => 0x03,
        Effect::Smooth => 0x06,
        Effect::WaveLeft | Effect::WaveRight => 0x04,
    }
}

/// The effect opcode placed at byte 2.
pub fn opcode(effect: Effect) -> (op: u8)
    ensures
        op == spec_opcode(effect),
{
    match effect {
        Effect::SolidColor | Effect::ZoneColor => 0x01,
        Effect::Breathe | Effect::ZoneBreathe => 0x03,
        Effect::Smooth => 0x06,
        Effect::WaveLeft | Effect::WaveRight => 0x04,
    }
}

/// The color written into a zone slot: uniform effects replicate the
/// single triplet into every zone, per-zone effects use the triplet of
/// that zone, and colorless effects leave the slot black.
pub open spec fn spec_zone_color(effect: Effect, colors: Seq<Rgb>, zone: int) -> Rgb {
    match effect {
        Effect::SolidColor | Effect::Breathe => colors[0],
        Effect::ZoneColor | Effect::ZoneBreathe => colors[zone],
        Effect::Smooth | Effect::WaveLeft | Effect::WaveRight => Rgb {
            red: 0,
            green: 0,
            blue: 0,
        },
    }
}

/// Channel `chan` (0 = red, 1 = green, 2 = blue) of a triplet.
pub open spec fn spec_channel(color: Rgb, chan: int) -> u8 {
    if chan == 0 {
        color.red
    } else if chan == 1 {
        color.green
    } else {
        color.blue
    }
}

/// The byte at offset `i` of the encoded buffer.
pub open spec fn spec_payload_byte(
    effect: Effect,
    colors: Seq<Rgb>,
    speed: u8,
    brightness: u8,
    i: int,
) -> u8 {
    if i == 0 {
        PROTOCOL_MARKER
    } else if i == 1 {
        LIGHTING_SUBMARKER
    } else if i == 2 {
        spec_opcode(effect)
    } else if i == 3 {
        speed
    } else if i == 4 {
        brightness
    } else if 5 <= i < 17 {
        spec_channel(spec_zone_color(effect, colors, (i - 5) / 3), (i - 5) % 3)
    } else if i == 18 {
        if effect == Effect::WaveRight {
            1
        } else {
            0
        }
    } else if i == 19 {
        if effect == Effect::WaveLeft {
            1
        } else {
            0
        }
    } else {
        0
    }
}

/// The full 33-byte buffer a command encodes to.
pub open spec fn spec_payload(effect: Effect, colors: Seq<Rgb>, speed: u8, brightness: u8) -> Seq<
    u8,
> {
    Seq::new(PAYLOAD_LEN as nat, |i: int| spec_payload_byte(effect, colors, speed, brightness, i))
}

/// Encodes a validated command into its feature-report buffer.
///
/// The result is fully determined, byte for byte, by the command.
pub fn encode(cmd: &LightingCommand) -> (buf: Vec<u8>)
    requires
        cmd.valid(),
    ensures
        buf@ == spec_payload(cmd.effect, cmd.colors@, cmd.speed, cmd.brightness),
        buf@.len() == PAYLOAD_LEN,
{
    let mut buf: Vec<u8> = vec![0u8; PAYLOAD_LEN];
    buf[0] = PROTOCOL_MARKER;
    buf[1] = LIGHTING_SUBMARKER;
    buf[2] = opcode(cmd.effect);
    buf[3] = cmd.speed;
    buf[4] = cmd.brightness;
    match cmd.effect {
        Effect::SolidColor | Effect::Breathe => {
            let c = cmd.colors[0];
            buf[5] = c.red;
            buf[6] = c.green;
            buf[7] = c.blue;
            buf[8] = c.red;
            buf[9] = c.green;
            buf[10] = c.blue;
            buf[11] = c.red;
            buf[12] = c.green;
            buf[13] = c.blue;
            buf[14] = c.red;
            buf[15] = c.green;
            buf[16] = c.blue;
        },
        Effect::ZoneColor | Effect::ZoneBreathe => {
            let c0 = cmd.colors[0];
            let c1 = cmd.colors[1];
            let c2 = cmd.colors[2];
            let c3 = cmd.colors[3];
            buf[5] = c0.red;
            buf[6] = c0.green;
            buf[7] = c0.blue;
            buf[8] = c1.red;
            buf[9] = c1.green;
            buf[10] = c1.blue;
            buf[11] = c2.red;
            buf[12] = c2.green;
            buf[13] = c2.blue;
            buf[14] = c3.red;
            buf[15] = c3.green;
            buf[16] = c3.blue;
        },
        Effect::Smooth => {},
        Effect::WaveLeft => {
            buf[19] = 1;
        },
        Effect::WaveRight => {
            buf[18] = 1;
        },
    }
    proof {
        assert(buf@ =~= spec_payload(cmd.effect, cmd.colors@, cmd.speed, cmd.brightness));
    }
    buf
}

/// A uniform effect (solid color or breathe) replicates its single
/// triplet into all four zone slots, and leaves both wave flags at 0.
pub proof fn lemma_uniform_replicates(
    effect: Effect,
    colors: Seq<Rgb>,
    speed: u8,
    brightness: u8,
    zone: int,
    chan: int,
)
    requires
        effect == Effect::SolidColor || effect == Effect::Breathe,
        colors.len() == 1,
        0 <= zone < 4,
        0 <= chan < 3,
    ensures
        spec_payload(effect, colors, speed, brightness)[5 + 3 * zone + chan] == spec_channel(
            colors[0],
            chan,
        ),
        spec_payload(effect, colors, speed, brightness)[18] == 0,
        spec_payload(effect, colors, speed, brightness)[19] == 0,
{
    assert((3 * zone + chan) / 3 == zone && (3 * zone + chan) % 3 == chan) by (nonlinear_arith)
        requires
            0 <= zone,
            0 <= chan < 3,
    ;
}

/// A per-zone effect (zone color or zone breathe) writes input triplet
/// `zone` into zone slot `zone`, in input order, unchanged.
pub proof fn lemma_zone_order(
    effect: Effect,
    colors: Seq<Rgb>,
    speed: u8,
    brightness: u8,
    zone: int,
    chan: int,
)
    requires
        effect == Effect::ZoneColor || effect == Effect::ZoneBreathe,
        colors.len() == 4,
        0 <= zone < 4,
        0 <= chan < 3,
    ensures
        spec_payload(effect, colors, speed, brightness)[5 + 3 * zone + chan] == spec_channel(
            colors[zone],
            chan,
        ),
{
    assert((3 * zone + chan) / 3 == zone && (3 * zone + chan) % 3 == chan) by (nonlinear_arith)
        requires
            0 <= zone,
            0 <= chan < 3,
    ;
}

/// Encoding is deterministic and pure: two commands that agree on
/// effect, colors, speed and brightness encode to byte-identical
/// buffers, whatever else happened before either call.
pub proof fn lemma_encode_deterministic(a: LightingCommand, b: LightingCommand)
    requires
        a.effect == b.effect,
        a.colors@ == b.colors@,
        a.speed == b.speed,
        a.brightness == b.brightness,
    ensures
        spec_payload(a.effect, a.colors@, a.speed, a.brightness) == spec_payload(
            b.effect,
            b.colors@,
            b.speed,
            b.brightness,
        ),
{
}

/// Byte 2 carries the effect opcode from the fixed table, and the two
/// wave flags at bytes 18 and 19 are set exactly for their own wave
/// direction — never both.
pub proof fn lemma_opcode_assignment(effect: Effect, colors: Seq<Rgb>, speed: u8, brightness: u8)
    ensures
        spec_payload(effect, colors, speed, brightness)[2] == spec_opcode(effect),
        effect == Effect::SolidColor || effect == Effect::ZoneColor ==> spec_payload(
            effect,
            colors,
            speed,
            brightness,
        )[2] == 1,
        effect == Effect::Breathe || effect == Effect::ZoneBreathe ==> spec_payload(
            effect,
            colors,
            speed,
            brightness,
        )[2] == 3,
        effect == Effect::Smooth ==> spec_payload(effect, colors, speed, brightness)[2] == 6,
        effect == Effect::WaveLeft || effect == Effect::WaveRight ==> spec_payload(
            effect,
            colors,
            speed,
            brightness,
        )[2] == 4,
        spec_payload(effect, colors, speed, brightness)[19] == 1 <==> effect == Effect::WaveLeft,
        spec_payload(effect, colors, speed, brightness)[18] == 1 <==> effect == Effect::WaveRight,
        !(spec_payload(effect, colors, speed, brightness)[18] == 1 && spec_payload(
            effect,
            colors,
            speed,
            brightness,
        )[19] == 1),
{
}

} // verus!
