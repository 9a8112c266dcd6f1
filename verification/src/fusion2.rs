//! Packet-based ARGB LED controller, static-colour mode.
//!
//! The controller exchanges fixed 64-byte feature-report packets whose
//! first byte is always the report identifier.  Construction sends a fixed
//! reset sequence of short command packets; a colour change sends one
//! "effect" packet addressing every zone followed by an apply command.
//! The driver keeps a persistent effect mask, a bitfield of enabled
//! zones and streams accumulated across calls and only reset when the
//! device is re-initialised.  This module builds all packets as plain
//! bytes; an I/O shell sends them.

use vstd::prelude::*;

verus! {

/// First byte of every packet.
pub const REPORT_ID: u8 = 0xCC;

/// Length of every packet.
pub const PACKET_LEN: usize = 64;

/// Effect type of a solid, non-animated colour.
pub const EFFECT_STATIC: u8 = 1;

/// Header byte of an effect packet.
pub const EFFECT_HEADER: u8 = 0x20;

/// Zone bitmask covering every LED zone.
pub const ALL_ZONES: u32 = 0x07FF;

/// Register that applies pending changes.
pub const REG_APPLY: u8 = 0x28;

/// Register of the audio-reactive "beat" mode.
pub const REG_BEAT: u8 = 0x31;

/// Register holding the per-stream disable bitmask.
pub const REG_DISABLE_BITS: u8 = 0x32;

/// Register holding the packed per-bus LED counts.
pub const REG_LED_COUNTS: u8 = 0x34;

/// Zone bits and stream bits a colour change enables in the effect mask.
pub const COLOUR_MASK_BITS: u8 = 0x1B;

/// Low byte of a 32-bit value.
pub open spec fn u32_b0(v: u32) -> u8 {
    (v & 0xFF) as u8
}

/// Second byte of a 32-bit value.
pub open spec fn u32_b1(v: u32) -> u8 {
    ((v >> 8) & 0xFF) as u8
}

/// Third byte of a 32-bit value.
pub open spec fn u32_b2(v: u32) -> u8 {
    ((v >> 16) & 0xFF) as u8
}

/// High byte of a 32-bit value.
pub open spec fn u32_b3(v: u32) -> u8 {
    ((v >> 24) & 0xFF) as u8
}

/// Low byte of a 16-bit value.
pub open spec fn u16_lo(v: u16) -> u8 {
    (v & 0xFF) as u8
}

/// High byte of a 16-bit value.
pub open spec fn u16_hi(v: u16) -> u8 {
    ((v >> 8) & 0xFF) as u8
}

/// A 32-bit value in little-endian byte order.
pub open spec fn spec_le32(v: u32) -> Seq<u8> {
    seq![u32_b0(v), u32_b1(v), u32_b2(v), u32_b3(v)]
}

/// A 16-bit value in little-endian byte order.
pub open spec fn spec_le16(v: u16) -> Seq<u8> {
    seq![u16_lo(v), u16_hi(v)]
}

/// `n` zero bytes.
pub open spec fn spec_zeros(n: int) -> Seq<u8> {
    Seq::new(n as nat, |j: int| 0u8)
}

/// Append a 32-bit value in little-endian order.
fn push_u32_le(buf: &mut Vec<u8>, v: u32)
    ensures
        final(buf)@ == old(buf)@ + spec_le32(v),
{
    buf.push((v & 0xFF) as u8);
    buf.push(((v >> 8) & 0xFF) as u8);
    buf.push(((v >> 16) & 0xFF) as u8);
    buf.push(((v >> 24) & 0xFF) as u8);
    proof {
        assert(buf@ =~= old(buf)@ + spec_le32(v));
    }
}

/// Append a 16-bit value in little-endian order.
fn push_u16_le(buf: &mut Vec<u8>, v: u16)
    ensures
        final(buf)@ == old(buf)@ + spec_le16(v),
{
    buf.push((v & 0xFF) as u8);
    buf.push(((v >> 8) & 0xFF) as u8);
    proof {
        assert(buf@ =~= old(buf)@ + spec_le16(v));
    }
}

/// Pad a packet under construction with zeros up to the packet length.
pub fn pad_to_packet(buf: &mut Vec<u8>)
    requires
        old(buf)@.len() <= PACKET_LEN,
    ensures
        final(buf)@ == old(buf)@ + spec_zeros(PACKET_LEN - old(buf)@.len()),
        final(buf)@.len() == PACKET_LEN,
{
    let start = buf.len();
    while buf.len() < PACKET_LEN
        invariant
            start <= buf@.len() <= PACKET_LEN,
            buf@ == old(buf)@ + spec_zeros(buf@.len() - start as int),
            start == old(buf)@.len(),
        decreases PACKET_LEN - buf@.len(),
    {
        buf.push(0);
        proof {
            assert(buf@ =~= old(buf)@ + spec_zeros(buf@.len() - start as int));
        }
    }
    proof {
        assert(buf@ =~= old(buf)@ + spec_zeros(PACKET_LEN - old(buf)@.len()));
    }
}

/// A short command packet: the report identifier, a register and two
/// argument bytes, zero-padded to the packet length.
pub open spec fn spec_command_packet(a: u8, b: u8, c: u8) -> Seq<u8> {
    seq![REPORT_ID, a, b, c] + spec_zeros(60)
}

/// Build a short command packet.
pub fn command_packet(a: u8, b: u8, c: u8) -> (pkt: Vec<u8>)
    ensures
        pkt@ == spec_command_packet(a, b, c),
        pkt@.len() == PACKET_LEN,
{
    let mut pkt: Vec<u8> = Vec::new();
    pkt.push(REPORT_ID);
    pkt.push(a);
    pkt.push(b);
    pkt.push(c);
    pad_to_packet(&mut pkt);
    proof {
        assert(pkt@ =~= spec_command_packet(a, b, c));
    }
    pkt
}

/// The whole-device effect packet.
pub struct PktEffect {
    /// Report identifier transmitted first.
    pub report_id: u8,
    /// Packet header byte.
    pub header: u8,
    /// Bitmask of the zones the effect addresses, low word.
    pub zone0: u32,
    /// Bitmask of the zones the effect addresses, high word.
    pub zone1: u32,
    /// Reserved, transmitted as given.
    pub reserved0: u8,
    /// Effect type selector.
    pub effect_type: u8,
    /// Upper brightness bound of the effect.
    pub max_brightness: u8,
    /// Lower brightness bound of the effect.
    pub min_brightness: u8,
    /// Primary colour as a 24-bit packed RGB value.
    pub color0: u32,
    /// Companion colour as a 24-bit packed RGB value.
    pub color1: u32,
    /// First effect period.
    pub period0: u16,
    /// Second effect period.
    pub period1: u16,
    /// Third effect period.
    pub period2: u16,
    /// Fourth effect period.
    pub period3: u16,
    /// First effect parameter.
    pub effect_param0: u8,
    /// Second effect parameter.
    pub effect_param1: u8,
    /// Third effect parameter.
    pub effect_param2: u8,
    /// Fourth effect parameter.
    pub effect_param3: u8,
}

/// The wire layout of an effect packet: header fields in order, multi-byte
/// fields little-endian, zero-padded to the packet length.
pub open spec fn spec_effect_bytes(p: PktEffect) -> Seq<u8> {
    seq![p.report_id, p.header] + spec_le32(p.zone0) + spec_le32(p.zone1)
        + seq![p.reserved0, p.effect_type, p.max_brightness, p.min_brightness]
        + spec_le32(p.color0) + spec_le32(p.color1) + spec_le16(p.period0) + spec_le16(p.period1)
        + spec_le16(p.period2) + spec_le16(p.period3)
        + seq![p.effect_param0, p.effect_param1, p.effect_param2, p.effect_param3] + spec_zeros(30)
}

impl PktEffect {
    /// An effect packet with every field zeroed except the defaults:
    /// static effect type and full brightness range.
    pub fn blank() -> (p: PktEffect)
        ensures
            p == Self::blank_spec(),
    {
        PktEffect {
            report_id: 0,
            header: 0,
            zone0: 0,
            zone1: 0,
            reserved0: 0,
            effect_type: EFFECT_STATIC,
            max_brightness: 255,
            min_brightness: 0,
            color0: 0,
            color1: 0,
            period0: 0,
            period1: 0,
            period2: 0,
            period3: 0,
            effect_param0: 0,
            effect_param1: 0,
            effect_param2: 0,
            effect_param3: 0,
        }
    }

    /// A blank effect packet addressing every zone of the device.
    pub fn all_leds(report_id: u8) -> (p: PktEffect)
        ensures
            p == (PktEffect {
                report_id: report_id,
                header: EFFECT_HEADER,
                zone0: ALL_ZONES,
                ..Self::blank_spec()
            }),
    {
        let mut p = Self::blank();
        p.report_id = report_id;
        p.header = EFFECT_HEADER;
        p.zone0 = ALL_ZONES;
        p
    }

    /// The blank packet as a specification value.
    pub open spec fn blank_spec() -> PktEffect {
        PktEffect {
            report_id: 0,
            header: 0,
            zone0: 0,
            zone1: 0,
            reserved0: 0,
            effect_type: EFFECT_STATIC,
            max_brightness: 255,
            min_brightness: 0,
            color0: 0,
            color1: 0,
            period0: 0,
            period1: 0,
            period2: 0,
            period3: 0,
            effect_param0: 0,
            effect_param1: 0,
            effect_param2: 0,
            effect_param3: 0,
        }
    }

    /// The same packet with the given effect type.
    pub fn with_effect_type(self, ty: u8) -> (p: PktEffect)
        ensures
            p == (PktEffect { effect_type: ty, ..self }),
    {
        let mut p = self;
        p.effect_type = ty;
        p
    }

    /// The same packet with the given brightness bounds.
    pub fn with_brightness(self, max: u8, min: u8) -> (p: PktEffect)
        ensures
            p == (PktEffect { max_brightness: max, min_brightness: min, ..self }),
    {
        let mut p = self;
        p.max_brightness = max;
        p.min_brightness = min;
        p
    }

    /// The same packet with the primary colour set to the packed RGB
    /// triple and the companion colour to full white.
    pub fn with_color0_rgb(self, r: u8, g: u8, b: u8) -> (p: PktEffect)
        ensures
            p == (PktEffect {
                color0: (((r as u32) << 16) | ((g as u32) << 8) | (b as u32)) as u32,
                color1: 0x00FF_FFFF,
                ..self
            }),
    {
        let mut p = self;
        p.color0 = ((r as u32) << 16) | ((g as u32) << 8) | (b as u32);
        p.color1 = 0x00FF_FFFF;
        p
    }

    /// Serialise the packet to its wire bytes.
    pub fn to_bytes(&self) -> (pkt: Vec<u8>)
        ensures
            pkt@ == spec_effect_bytes(*self),
            pkt@.len() == PACKET_LEN,
    {
        let mut pkt: Vec<u8> = Vec::new();
        pkt.push(self.report_id);
        pkt.push(self.header);
        push_u32_le(&mut pkt, self.zone0);
        push_u32_le(&mut pkt, self.zone1);
        pkt.push(self.reserved0);
        pkt.push(self.effect_type);
        pkt.push(self.max_brightness);
        pkt.push(self.min_brightness);
        push_u32_le(&mut pkt, self.color0);
        push_u32_le(&mut pkt, self.color1);
        push_u16_le(&mut pkt, self.period0);
        push_u16_le(&mut pkt, self.period1);
        push_u16_le(&mut pkt, self.period2);
        push_u16_le(&mut pkt, self.period3);
        pkt.push(self.effect_param0);
        pkt.push(self.effect_param1);
        pkt.push(self.effect_param2);
        pkt.push(self.effect_param3);
        pad_to_packet(&mut pkt);
        proof {
            assert(pkt@ =~= spec_effect_bytes(*self));
        }
        pkt
    }
}

/// The fixed reset sequence sent at construction: a reset probe, zeroing
/// of the eight zone registers, of the disable bitmask, of the counts
/// register and of three further registers, an apply command with a fixed
/// non-zero payload, and disabling of the audio-reactive beat mode.
pub open spec fn spec_init_packets() -> Seq<Seq<u8>> {
    seq![
        spec_command_packet(0x60, 0x00, 0x00),
        spec_command_packet(0x20, 0x00, 0x00),
        spec_command_packet(0x21, 0x00, 0x00),
        spec_command_packet(0x22, 0x00, 0x00),
        spec_command_packet(0x23, 0x00, 0x00),
        spec_command_packet(0x24, 0x00, 0x00),
        spec_command_packet(0x25, 0x00, 0x00),
        spec_command_packet(0x26, 0x00, 0x00),
        spec_command_packet(0x27, 0x00, 0x00),
        spec_command_packet(REG_DISABLE_BITS, 0x00, 0x00),
        spec_command_packet(REG_LED_COUNTS, 0x00, 0x00),
        spec_command_packet(0x90, 0x00, 0x00),
        spec_command_packet(0x91, 0x00, 0x00),
        spec_command_packet(0x92, 0x00, 0x00),
        spec_command_packet(REG_APPLY, 0xFF, 0x07),
        spec_command_packet(REG_BEAT, 0x00, 0x00),
    ]
}

/// The packet-based ARGB controller: its persistent effect mask.
pub struct Fusion2Argb {
    /// Bitfield of enabled zones and streams, accumulated across calls.
    pub effect_mask: u8,
}

impl Fusion2Argb {
    /// A freshly initialised controller: no zone enabled yet.
    pub fn new() -> (d: Fusion2Argb)
        ensures
            d.effect_mask == 0,
    {
        Fusion2Argb { effect_mask: 0 }
    }

    /// The construction-time reset packets, in sending order.
    pub fn init_packets() -> (pkts: Vec<Vec<u8>>)
        ensures
            pkts.deep_view() == spec_init_packets(),
    {
        let mut pkts: Vec<Vec<u8>> = Vec::new();
        pkts.push(command_packet(0x60, 0x00, 0x00));
        pkts.push(command_packet(0x20, 0x00, 0x00));
        pkts.push(command_packet(0x21, 0x00, 0x00));
        pkts.push(command_packet(0x22, 0x00, 0x00));
        pkts.push(command_packet(0x23, 0x00, 0x00));
        pkts.push(command_packet(0x24, 0x00, 0x00));
        pkts.push(command_packet(0x25, 0x00, 0x00));
        pkts.push(command_packet(0x26, 0x00, 0x00));
        pkts.push(command_packet(0x27, 0x00, 0x00));
        pkts.push(command_packet(REG_DISABLE_BITS, 0x00, 0x00));
        pkts.push(command_packet(REG_LED_COUNTS, 0x00, 0x00));
        pkts.push(command_packet(0x90, 0x00, 0x00));
        pkts.push(command_packet(0x91, 0x00, 0x00));
        pkts.push(command_packet(0x92, 0x00, 0x00));
        pkts.push(command_packet(REG_APPLY, 0xFF, 0x07));
        pkts.push(command_packet(REG_BEAT, 0x00, 0x00));
        proof {
            assert(pkts.deep_view() =~~= spec_init_packets());
        }
        pkts
    }

    /// The effect packet a colour change sends: every zone addressed, the
    /// static effect, extreme brightness bounds, the colour as a packed
    /// 24-bit value and a full-white companion colour.
    pub open spec fn spec_colour_effect(r: u8, g: u8, b: u8) -> PktEffect {
        PktEffect {
            report_id: REPORT_ID,
            header: EFFECT_HEADER,
            zone0: ALL_ZONES,
            color0: (((r as u32) << 16) | ((g as u32) << 8) | (b as u32)) as u32,
            color1: 0x00FF_FFFF,
            max_brightness: 0xFF,
            min_brightness: 0xFF,
            ..PktEffect::blank_spec()
        }
    }

    /// Set the whole device to one colour: enable the colour zones and
    /// streams in the persistent effect mask, then send the static effect
    /// packet followed by the apply command.
    pub fn set_led_colour(&mut self, r: u8, g: u8, b: u8) -> (pkts: Vec<Vec<u8>>)
        ensures
            final(self).effect_mask == old(self).effect_mask | COLOUR_MASK_BITS,
            pkts.deep_view() == seq![
                spec_effect_bytes(Self::spec_colour_effect(r, g, b)),
                spec_command_packet(REG_APPLY, 0xFF, 0x00),
            ],
    {
        self.effect_mask = self.effect_mask | COLOUR_MASK_BITS;
        let effect = PktEffect::all_leds(REPORT_ID).with_effect_type(EFFECT_STATIC)
            .with_brightness(0xFF, 0xFF).with_color0_rgb(r, g, b);
        let mut pkts: Vec<Vec<u8>> = Vec::new();
        pkts.push(effect.to_bytes());
        pkts.push(command_packet(REG_APPLY, 0xFF, 0x00));
        proof {
            assert(pkts.deep_view() =~~= seq![
                spec_effect_bytes(Self::spec_colour_effect(r, g, b)),
                spec_command_packet(REG_APPLY, 0xFF, 0x00),
            ]);
        }
        pkts
    }
}

} // verus!
