//! Packet-based ARGB LED controller, addressable-streaming mode.
//!
//! In this mode the controller drives per-LED buffers on several LED
//! buses.  Construction reads back a feature report holding, at fixed
//! offsets, two 32-bit little-endian fields that each encode the byte
//! order in which a bus expects its red, green and blue bytes; an invalid
//! encoding falls back to identity order.  Per-bus LED counts are
//! quantized into one of five size classes, packed two per byte.  A solid
//! fill streams each bus in chunks of up to [`CHUNK_LEDS`] LEDs, each
//! chunk carrying a 16-bit little-endian byte offset into the bus's LED
//! buffer, a LED count, and the per-LED colour bytes laid out in the
//! bus's negotiated byte order.

use vstd::prelude::*;
use crate::fusion2::{
    EFFECT_STATIC, Fusion2Argb, PACKET_LEN, PktEffect, REG_APPLY, REG_DISABLE_BITS,
    REG_LED_COUNTS, REPORT_ID, command_packet, pad_to_packet, spec_command_packet,
    spec_effect_bytes, spec_zeros, u16_hi, u16_lo, u32_b0, u32_b1, u32_b2,
};

verus! {

/// Most LEDs one streaming packet can carry: with the packet header,
/// three colour bytes for each of 19 LEDs still fit the packet length.
pub const CHUNK_LEDS: u16 = 19;

/// Bytes of a streaming packet taken by its header.
pub const STREAM_HEADER_LEN: u16 = 5;

/// A channel byte order: the byte position, within a LED's three colour
/// bytes, of red, green and blue respectively.
#[derive(Clone, Copy, Debug, PartialEq, Eq, Structural)]
pub struct ByteOrder {
    /// Position of the red byte.
    pub red: u8,
    /// Position of the green byte.
    pub green: u8,
    /// Position of the blue byte.
    pub blue: u8,
}

/// The identity byte order: red, green, blue in that order.
pub open spec fn spec_identity_order() -> ByteOrder {
    ByteOrder { red: 0, green: 1, blue: 2 }
}

/// Whether a byte order is a permutation of the three positions: every
/// entry in range and the three mutually distinct.
pub open spec fn spec_valid_order(p: ByteOrder) -> bool {
    &&& p.red < 3
    &&& p.green < 3
    &&& p.blue < 3
    &&& p.red != p.green
    &&& p.red != p.blue
    &&& p.green != p.blue
}

/// The three low bytes of a 32-bit little-endian field, read as a byte
/// order.
pub fn byte_order_from_field(v: u32) -> (p: ByteOrder)
    ensures
        p == (ByteOrder { red: u32_b0(v), green: u32_b1(v), blue: u32_b2(v) }),
{
    ByteOrder {
        red: (v & 0xFF) as u8,
        green: ((v >> 8) & 0xFF) as u8,
        blue: ((v >> 16) & 0xFF) as u8,
    }
}

/// Accept a byte order only if it is a permutation of the three
/// positions; anything with a repeated or out-of-range entry falls back
/// to the identity order.
pub fn validate_byte_order(p: ByteOrder) -> (q: ByteOrder)
    ensures
        q == if spec_valid_order(p) {
            p
        } else {
            spec_identity_order()
        },
        spec_valid_order(q),
{
    if p.red < 3 && p.green < 3 && p.blue < 3 && p.red != p.green && p.red != p.blue && p.green
        != p.blue {
        p
    } else {
        ByteOrder { red: 0, green: 1, blue: 2 }
    }
}

/// Offset, within the read-back feature report, of the 32-bit field that
/// encodes the first bus's byte order.
pub const ORDER_FIELD0_OFFSET: usize = 8;

/// Offset of the field that encodes the second bus's byte order.
pub const ORDER_FIELD1_OFFSET: usize = 12;

/// The 32-bit little-endian value at a byte offset of a report.
pub open spec fn spec_u32_le_at(report: Seq<u8>, off: int) -> u32 {
    (report[off] + report[off + 1] * 0x100 + report[off + 2] * 0x1_0000 + report[off + 3]
        * 0x100_0000) as u32
}

/// Read a 32-bit little-endian value out of a report.
pub fn read_u32_le(report: &Vec<u8>, off: usize) -> (v: u32)
    requires
        off + 4 <= report@.len(),
    ensures
        v == spec_u32_le_at(report@, off as int),
{
    let len = report.len();
    proof {
        assert(off + 4 <= len);
    }
    let b0 = report[off] as u32;
    let b1 = report[off + 1] as u32;
    let b2 = report[off + 2] as u32;
    let b3 = report[off + 3] as u32;
    let v = b0 | (b1 << 8) | (b2 << 16) | (b3 << 24);
    proof {
        assert(v == b0 + b1 * 0x100 + b2 * 0x1_0000 + b3 * 0x100_0000) by (bit_vector)
            requires
                b0 < 0x100,
                b1 < 0x100,
                b2 < 0x100,
                b3 < 0x100,
                v == b0 | (b1 << 8) | (b2 << 16) | (b3 << 24),
        ;
    }
    v
}

/// The byte order a report field negotiates for its bus: the field's
/// three low bytes where they form a permutation, identity order
/// otherwise.
pub open spec fn spec_negotiated_order(field: u32) -> ByteOrder {
    let raw = ByteOrder { red: u32_b0(field), green: u32_b1(field), blue: u32_b2(field) };
    if spec_valid_order(raw) {
        raw
    } else {
        spec_identity_order()
    }
}

/// Extract the two negotiated byte orders from a read-back feature
/// report: one 32-bit little-endian field per bus, each validated with
/// fallback to identity order.
pub fn negotiated_byte_orders(report: &Vec<u8>) -> (orders: (ByteOrder, ByteOrder))
    requires
        report@.len() >= ORDER_FIELD1_OFFSET + 4,
    ensures
        orders.0 == spec_negotiated_order(spec_u32_le_at(report@, ORDER_FIELD0_OFFSET as int)),
        orders.1 == spec_negotiated_order(spec_u32_le_at(report@, ORDER_FIELD1_OFFSET as int)),
        spec_valid_order(orders.0),
        spec_valid_order(orders.1),
{
    let f0 = read_u32_le(report, ORDER_FIELD0_OFFSET);
    let f1 = read_u32_le(report, ORDER_FIELD1_OFFSET);
    (
        validate_byte_order(byte_order_from_field(f0)),
        validate_byte_order(byte_order_from_field(f1)),
    )
}

/// The size class a per-bus LED count is quantized into.
pub open spec fn spec_size_class(n: int) -> u8 {
    if n <= 32 {
        0
    } else if n <= 64 {
        1
    } else if n <= 256 {
        2
    } else if n <= 512 {
        3
    } else {
        4
    }
}

/// Quantize a per-bus LED count into its size class.
pub fn led_size_class(n: u16) -> (c: u8)
    ensures
        c == spec_size_class(n as int),
        c < 5,
{
    if n <= 32 {
        0
    } else if n <= 64 {
        1
    } else if n <= 256 {
        2
    } else if n <= 512 {
        3
    } else {
        4
    }
}

/// Pack two size classes into one counts-register byte, the first in the
/// low nibble and the second in the high nibble.
pub fn pack_size_classes(lo: u8, hi: u8) -> (packed: u8)
    requires
        lo < 16,
        hi < 16,
    ensures
        packed == lo + hi * 16,
{
    lo + hi * 16
}

/// The counts-register packet for three streamed buses: each bus's LED
/// count quantized into its size class, the classes packed two per byte
/// into the register's argument bytes.
pub fn counts_register_packet(n0: u16, n1: u16, n2: u16) -> (pkt: Vec<u8>)
    ensures
        pkt@ == spec_command_packet(
            REG_LED_COUNTS,
            (spec_size_class(n0 as int) + spec_size_class(n1 as int) * 16) as u8,
            spec_size_class(n2 as int),
        ),
        pkt@.len() == PACKET_LEN,
{
    let c0 = led_size_class(n0);
    let c1 = led_size_class(n1);
    let c2 = led_size_class(n2);
    command_packet(REG_LED_COUNTS, pack_size_classes(c0, c1), pack_size_classes(c2, 0))
}

/// One chunk of a streamed bus fill.
#[derive(Clone, Copy, Debug, PartialEq, Eq, Structural)]
pub struct LedChunk {
    /// Byte offset into the bus's LED buffer where this chunk starts.
    pub offset: u16,
    /// Number of LEDs this chunk carries.
    pub count: u8,
}

/// Number of chunks needed for `n` LEDs: `n / 19` rounded up.
pub open spec fn spec_chunk_count(n: int) -> int {
    (n + 18) / 19
}

/// Sum of the per-chunk LED counts.
pub open spec fn spec_sum_counts(s: Seq<LedChunk>) -> int
    decreases s.len(),
{
    if s.len() == 0 {
        0
    } else {
        spec_sum_counts(s.drop_last()) + s.last().count
    }
}

/// Split `n` LEDs into streaming chunks: every chunk full except possibly
/// the last, offsets advancing by three bytes for every LED already
/// streamed, and the counts summing to `n` again.
pub fn chunk_plan(n: u16) -> (chunks: Vec<LedChunk>)
    requires
        3 * n <= u16::MAX,
    ensures
        chunks@.len() == spec_chunk_count(n as int),
        forall|i: int| 0 <= i < chunks@.len() ==> (#[trigger] chunks@[i]).offset == 57 * i,
        forall|i: int|
            0 <= i < chunks@.len() - 1 ==> (#[trigger] chunks@[i]).count == CHUNK_LEDS,
        n > 0 ==> chunks@.last().count == n - CHUNK_LEDS * (chunks@.len() - 1),
        spec_sum_counts(chunks@) == n,
        forall|i: int|
            0 <= i < chunks@.len() ==> (#[trigger] chunks@[i]).offset == 3 * spec_sum_counts(
                chunks@.take(i),
            ),
{
    let mut chunks: Vec<LedChunk> = Vec::new();
    let mut done: u16 = 0;
    while done < n
        invariant
            3 * n <= u16::MAX,
            done <= n,
            spec_sum_counts(chunks@) == done,
            forall|i: int| 0 <= i < chunks@.len() ==> (#[trigger] chunks@[i]).offset == 57 * i,
            forall|i: int|
                0 <= i < chunks@.len() - 1 ==> (#[trigger] chunks@[i]).count == CHUNK_LEDS,
            done < n ==> done == CHUNK_LEDS * chunks@.len(),
            done < n ==> forall|i: int|
                0 <= i < chunks@.len() ==> (#[trigger] chunks@[i]).count == CHUNK_LEDS,
            done == n ==> chunks@.len() == spec_chunk_count(n as int),
            done == n && n > 0 ==> chunks@.last().count == n - CHUNK_LEDS * (chunks@.len() - 1),
        decreases n - done,
    {
        let remaining = n - done;
        let count: u8 = if remaining > CHUNK_LEDS {
            19
        } else {
            remaining as u8
        };
        proof {
            assert(3 * done <= 3 * n) by (nonlinear_arith)
                requires
                    done <= n,
            ;
        }
        let chunk = LedChunk { offset: 3 * done, count };
        let ghost prior = chunks@;
        chunks.push(chunk);
        done = done + count as u16;
        proof {
            assert(chunks@.drop_last() =~= prior);
            if done == n {
                lemma_chunk_step(n as int, prior.len() as int, count as int);
            }
        }
    }
    proof {
        if n == 0 {
            assert(chunks@.len() == 0);
        }
        assert forall|i: int| 0 <= i < chunks@.len() implies (#[trigger] chunks@[i]).offset == 3
            * spec_sum_counts(chunks@.take(i)) by {
            lemma_full_prefix_sum(chunks@, i);
        }
    }
    chunks
}

/// Closing a plan with a final chunk of up to 19 LEDs makes the chunk
/// count the rounded-up quotient.
proof fn lemma_chunk_step(n: int, placed: int, count: int)
    requires
        0 < count <= 19,
        0 <= placed,
        n == 19 * placed + count,
    ensures
        placed + 1 == spec_chunk_count(n),
{
    assert((19 * placed + count + 18) / 19 == placed + 1) by (nonlinear_arith)
        requires
            0 < count <= 19,
            0 <= placed,
    ;
}

/// Chunk offsets are strictly increasing through a plan.
pub proof fn lemma_chunk_offsets_increase(chunks: Seq<LedChunk>, i: int, j: int)
    requires
        forall|t: int| 0 <= t < chunks.len() ==> (#[trigger] chunks[t]).offset == 57 * t,
        0 <= i < j < chunks.len(),
    ensures
        chunks[i].offset < chunks[j].offset,
{
}

/// In a plan whose chunks are all full before the last, the counts of the
/// first `i` chunks sum to `19 * i`.
proof fn lemma_full_prefix_sum(chunks: Seq<LedChunk>, i: int)
    requires
        0 <= i < chunks.len(),
        forall|j: int| 0 <= j < chunks.len() - 1 ==> (#[trigger] chunks[j]).count == 19,
    ensures
        spec_sum_counts(chunks.take(i)) == 19 * i,
    decreases i,
{
    if i == 0 {
        assert(chunks.take(0) =~= Seq::empty());
    } else {
        lemma_full_prefix_sum(chunks, i - 1);
        assert(chunks.take(i).drop_last() =~= chunks.take(i - 1));
        assert(chunks.take(i).last() == chunks[i - 1]);
    }
}

/// The three colour bytes of one LED, in the bus's byte order.
pub open spec fn spec_led_block(order: ByteOrder, r: u8, g: u8, b: u8) -> Seq<u8> {
    Seq::new(
        3,
        |j: int|
            if j == order.red {
                r
            } else if j == order.green {
                g
            } else {
                b
            },
    )
}

/// The colour bytes of `k` LEDs of the same colour, in LED order.
pub open spec fn spec_led_fill(k: int, order: ByteOrder, r: u8, g: u8, b: u8) -> Seq<u8>
    decreases k,
{
    if k <= 0 {
        Seq::empty()
    } else {
        spec_led_fill(k - 1, order, r, g, b) + spec_led_block(order, r, g, b)
    }
}

/// The colour bytes of `k` LEDs are `3 * k` bytes.
pub proof fn lemma_led_fill_len(k: int, order: ByteOrder, r: u8, g: u8, b: u8)
    requires
        k >= 0,
    ensures
        spec_led_fill(k, order, r, g, b).len() == 3 * k,
    decreases k,
{
    if k > 0 {
        lemma_led_fill_len(k - 1, order, r, g, b);
    }
}

/// One streaming packet: the report identifier, the bus command byte, the
/// chunk's byte offset little-endian, its LED count, then the colour
/// bytes, zero-padded to the packet length.
pub open spec fn spec_stream_packet(
    bus_cmd: u8,
    offset: u16,
    count: u8,
    order: ByteOrder,
    r: u8,
    g: u8,
    b: u8,
) -> Seq<u8> {
    seq![REPORT_ID, bus_cmd, u16_lo(offset), u16_hi(offset), count] + spec_led_fill(
        count as int,
        order,
        r,
        g,
        b,
    ) + spec_zeros(PACKET_LEN - STREAM_HEADER_LEN - 3 * count)
}

/// Build one streaming packet for a solid fill chunk.
pub fn stream_packet(bus_cmd: u8, offset: u16, count: u8, order: ByteOrder, r: u8, g: u8, b: u8)
    -> (pkt: Vec<u8>)
    requires
        count <= CHUNK_LEDS,
        spec_valid_order(order),
    ensures
        pkt@ == spec_stream_packet(bus_cmd, offset, count, order, r, g, b),
        pkt@.len() == PACKET_LEN,
{
    let mut pkt: Vec<u8> = Vec::new();
    pkt.push(REPORT_ID);
    pkt.push(bus_cmd);
    pkt.push((offset & 0xFF) as u8);
    pkt.push(((offset >> 8) & 0xFF) as u8);
    pkt.push(count);
    let ghost header = pkt@;
    proof {
        assert(pkt@ =~= header + spec_led_fill(0, order, r, g, b));
    }
    let mut k: u8 = 0;
    while k < count
        invariant
            k <= count,
            pkt@ == header + spec_led_fill(k as int, order, r, g, b),
            header.len() == 5,
            spec_valid_order(order),
        decreases count - k,
    {
        proof {
            assert(pkt@ =~= header + spec_led_fill(k as int, order, r, g, b) + spec_led_block(
                order,
                r,
                g,
                b,
            ).take(0));
        }
        let mut j: u8 = 0;
        while j < 3
            invariant
                j <= 3,
                spec_valid_order(order),
                pkt@ == header + spec_led_fill(k as int, order, r, g, b) + spec_led_block(
                    order,
                    r,
                    g,
                    b,
                ).take(j as int),
            decreases 3 - j,
        {
            let byte = if j == order.red {
                r
            } else if j == order.green {
                g
            } else {
                b
            };
            pkt.push(byte);
            j = j + 1;
            proof {
                assert(spec_led_block(order, r, g, b)[j - 1] == byte);
                assert(pkt@ =~= header + spec_led_fill(k as int, order, r, g, b) + spec_led_block(
                    order,
                    r,
                    g,
                    b,
                ).take(j as int));
            }
        }
        k = k + 1;
        proof {
            assert(spec_led_block(order, r, g, b).take(3) =~= spec_led_block(order, r, g, b));
            assert(pkt@ =~= header + spec_led_fill(k as int, order, r, g, b));
        }
    }
    proof {
        lemma_led_fill_len(count as int, order, r, g, b);
    }
    pad_to_packet(&mut pkt);
    proof {
        assert(pkt@ =~= spec_stream_packet(bus_cmd, offset, count, order, r, g, b));
    }
    pkt
}

/// Number of LEDs carried by chunk `i` of a plan for `n` LEDs.
pub open spec fn spec_chunk_size(n: int, i: int) -> int {
    if i < spec_chunk_count(n) - 1 {
        19
    } else {
        n - 19 * (spec_chunk_count(n) - 1)
    }
}

/// The packets that stream a solid fill to one bus of `n` LEDs: one
/// packet per chunk, in chunk order.
pub fn stream_fill_packets(bus_cmd: u8, n: u16, order: ByteOrder, r: u8, g: u8, b: u8) -> (pkts:
    Vec<Vec<u8>>)
    requires
        3 * n <= u16::MAX,
        spec_valid_order(order),
    ensures
        pkts@.len() == spec_chunk_count(n as int),
        forall|i: int|
            0 <= i < pkts@.len() ==> (#[trigger] pkts@[i])@ == spec_stream_packet(
                bus_cmd,
                (57 * i) as u16,
                spec_chunk_size(n as int, i) as u8,
                order,
                r,
                g,
                b,
            ),
{
    let chunks = chunk_plan(n);
    let mut pkts: Vec<Vec<u8>> = Vec::new();
    let mut i: usize = 0;
    while i < chunks.len()
        invariant
            i <= chunks@.len(),
            pkts@.len() == i,
            chunks@.len() == spec_chunk_count(n as int),
            n > 0 ==> chunks@.last().count == n - CHUNK_LEDS * (chunks@.len() - 1),
            spec_valid_order(order),
            forall|t: int| 0 <= t < chunks@.len() ==> (#[trigger] chunks@[t]).offset == 57 * t,
            forall|t: int|
                0 <= t < chunks@.len() - 1 ==> (#[trigger] chunks@[t]).count == CHUNK_LEDS,
            forall|t: int|
                0 <= t < i ==> (#[trigger] pkts@[t])@ == spec_stream_packet(
                    bus_cmd,
                    (57 * t) as u16,
                    spec_chunk_size(n as int, t) as u8,
                    order,
                    r,
                    g,
                    b,
                ),
        decreases chunks@.len() - i,
    {
        let chunk = chunks[i];
        proof {
            assert(chunk.count == spec_chunk_size(n as int, i as int));
        }
        let pkt = stream_packet(bus_cmd, chunk.offset, chunk.count, order, r, g, b);
        pkts.push(pkt);
        i = i + 1;
    }
    pkts
}

/// Bus command byte of the first streamed LED bus; the two further buses
/// follow at the next two command bytes.
pub const STREAM_BUS_FIRST: u8 = 0x58;

/// Command byte of the dedicated single-LED port written after the buses.
pub const DIRECT_PORT_CMD: u8 = 0x5B;

/// Zone bit of the dedicated single-LED port in an effect packet.
pub const DIRECT_PORT_ZONE: u32 = 0x0400;

/// Default number of LEDs driven on each streamed bus.
pub const DEFAULT_BUS_LEDS: u16 = 32;

/// The packet-based ARGB controller in addressable-streaming mode: its
/// persistent effect mask, the negotiated byte order of each bus, and the
/// fixed per-bus LED count.
pub struct ArgbStream {
    /// Bitfield of enabled streams, accumulated across calls.
    pub effect_mask: u8,
    /// Negotiated byte order of the first bus.
    pub order0: ByteOrder,
    /// Negotiated byte order of the second bus.
    pub order1: ByteOrder,
    /// Byte order of the third bus, for which the report negotiates
    /// nothing: identity.
    pub order2: ByteOrder,
    /// LEDs driven per bus; fixed after initialisation.
    pub bus_leds: u16,
}

/// The static-effect packet that accompanies the single-LED direct write:
/// the colour-change effect aimed at the dedicated port's zone alone.
pub open spec fn spec_port_effect(r: u8, g: u8, b: u8) -> PktEffect {
    PktEffect { zone0: DIRECT_PORT_ZONE, ..Fusion2Argb::spec_colour_effect(r, g, b) }
}

impl ArgbStream {
    /// Every byte order is a permutation and the per-bus LED buffer fits
    /// the 16-bit byte offsets of the streaming packets.
    pub open spec fn wf(self) -> bool {
        &&& spec_valid_order(self.order0)
        &&& spec_valid_order(self.order1)
        &&& spec_valid_order(self.order2)
        &&& 3 * self.bus_leds <= u16::MAX
    }

    /// A freshly initialised streaming controller: byte orders taken from
    /// the read-back feature report, the default LED count on every bus,
    /// and no stream enabled yet.
    pub fn new(report: &Vec<u8>) -> (d: ArgbStream)
        requires
            report@.len() >= ORDER_FIELD1_OFFSET + 4,
        ensures
            d.wf(),
            d.effect_mask == 0,
            d.bus_leds == DEFAULT_BUS_LEDS,
            d.order0 == spec_negotiated_order(spec_u32_le_at(report@, ORDER_FIELD0_OFFSET as int)),
            d.order1 == spec_negotiated_order(spec_u32_le_at(report@, ORDER_FIELD1_OFFSET as int)),
            d.order2 == spec_identity_order(),
    {
        let (order0, order1) = negotiated_byte_orders(report);
        ArgbStream {
            effect_mask: 0,
            order0,
            order1,
            order2: ByteOrder { red: 0, green: 1, blue: 2 },
            bus_leds: DEFAULT_BUS_LEDS,
        }
    }

    /// Stream a solid fill to the whole device: each bus in turn in
    /// chunks, the accumulated effect mask written to the disable-bitmask
    /// register after each bus — progressively enabling the streams —
    /// then one single-LED direct write to the dedicated port, a
    /// static-effect packet aimed at that port, and the global apply
    /// command.
    pub fn set_led_colour(&mut self, r: u8, g: u8, b: u8) -> (pkts: Vec<Vec<u8>>)
        requires
            old(self).wf(),
        ensures
            final(self).wf(),
            final(self).effect_mask == old(self).effect_mask | 0x07,
            final(self).order0 == old(self).order0,
            final(self).order1 == old(self).order1,
            final(self).order2 == old(self).order2,
            final(self).bus_leds == old(self).bus_leds,
            pkts@.len() == 3 * spec_chunk_count(old(self).bus_leds as int) + 6,
            forall|t: int|
                0 <= t < spec_chunk_count(old(self).bus_leds as int) ==> (#[trigger] pkts@[t])@
                    == spec_stream_packet(
                    STREAM_BUS_FIRST,
                    (57 * t) as u16,
                    spec_chunk_size(old(self).bus_leds as int, t) as u8,
                    old(self).order0,
                    r,
                    g,
                    b,
                ),
            (pkts@[spec_chunk_count(old(self).bus_leds as int)])@ == spec_command_packet(
                REG_DISABLE_BITS,
                old(self).effect_mask | 0x01,
                0,
            ),
            forall|t: int|
                spec_chunk_count(old(self).bus_leds as int) + 1 <= t < 2 * spec_chunk_count(
                    old(self).bus_leds as int,
                ) + 1 ==> (#[trigger] pkts@[t])@ == spec_stream_packet(
                    (STREAM_BUS_FIRST + 1) as u8,
                    (57 * (t - spec_chunk_count(old(self).bus_leds as int) - 1)) as u16,
                    spec_chunk_size(
                        old(self).bus_leds as int,
                        t - spec_chunk_count(old(self).bus_leds as int) - 1,
                    ) as u8,
                    old(self).order1,
                    r,
                    g,
                    b,
                ),
            (pkts@[2 * spec_chunk_count(old(self).bus_leds as int) + 1])@ == spec_command_packet(
                REG_DISABLE_BITS,
                old(self).effect_mask | 0x03,
                0,
            ),
            forall|t: int|
                2 * spec_chunk_count(old(self).bus_leds as int) + 2 <= t < 3 * spec_chunk_count(
                    old(self).bus_leds as int,
                ) + 2 ==> (#[trigger] pkts@[t])@ == spec_stream_packet(
                    (STREAM_BUS_FIRST + 2) as u8,
                    (57 * (t - 2 * spec_chunk_count(old(self).bus_leds as int) - 2)) as u16,
                    spec_chunk_size(
                        old(self).bus_leds as int,
                        t - 2 * spec_chunk_count(old(self).bus_leds as int) - 2,
                    ) as u8,
                    old(self).order2,
                    r,
                    g,
                    b,
                ),
            (pkts@[3 * spec_chunk_count(old(self).bus_leds as int) + 2])@ == spec_command_packet(
                REG_DISABLE_BITS,
                old(self).effect_mask | 0x07,
                0,
            ),
            (pkts@[3 * spec_chunk_count(old(self).bus_leds as int) + 3])@ == spec_stream_packet(
                DIRECT_PORT_CMD,
                0,
                1,
                spec_identity_order(),
                r,
                g,
                b,
            ),
            (pkts@[3 * spec_chunk_count(old(self).bus_leds as int) + 4])@ == spec_effect_bytes(
                spec_port_effect(r, g, b),
            ),
            (pkts@[3 * spec_chunk_count(old(self).bus_leds as int) + 5])@ == spec_command_packet(
                REG_APPLY,
                0xFF,
                0x00,
            ),
    {
        let ghost k = spec_chunk_count(self.bus_leds as int);
        let mut pkts = stream_fill_packets(STREAM_BUS_FIRST, self.bus_leds, self.order0, r, g, b);
        self.effect_mask = self.effect_mask | 0x01;
        pkts.push(command_packet(REG_DISABLE_BITS, self.effect_mask, 0));

        let mut segment = stream_fill_packets(
            STREAM_BUS_FIRST + 1,
            self.bus_leds,
            self.order1,
            r,
            g,
            b,
        );
        let ghost seg1 = segment@;
        pkts.append(&mut segment);
        self.effect_mask = self.effect_mask | 0x02;
        pkts.push(command_packet(REG_DISABLE_BITS, self.effect_mask, 0));

        let mut segment = stream_fill_packets(
            STREAM_BUS_FIRST + 2,
            self.bus_leds,
            self.order2,
            r,
            g,
            b,
        );
        let ghost seg2 = segment@;
        pkts.append(&mut segment);
        self.effect_mask = self.effect_mask | 0x04;
        pkts.push(command_packet(REG_DISABLE_BITS, self.effect_mask, 0));

        pkts.push(
            stream_packet(DIRECT_PORT_CMD, 0, 1, ByteOrder { red: 0, green: 1, blue: 2 }, r, g, b),
        );
        let mut port_effect = PktEffect::all_leds(REPORT_ID).with_effect_type(EFFECT_STATIC)
            .with_brightness(0xFF, 0xFF).with_color0_rgb(r, g, b);
        port_effect.zone0 = DIRECT_PORT_ZONE;
        pkts.push(port_effect.to_bytes());
        pkts.push(command_packet(REG_APPLY, 0xFF, 0x00));

        proof {
            let m = old(self).effect_mask;
            assert(((m | 0x01) | 0x02) == (m | 0x03)) by (bit_vector);
            assert(((m | 0x03) | 0x04) == (m | 0x07)) by (bit_vector);
            assert forall|t: int| k + 1 <= t < 2 * k + 1 implies (#[trigger] pkts@[t])@
                == spec_stream_packet(
                (STREAM_BUS_FIRST + 1) as u8,
                (57 * (t - k - 1)) as u16,
                spec_chunk_size(old(self).bus_leds as int, t - k - 1) as u8,
                old(self).order1,
                r,
                g,
                b,
            ) by {
                assert(pkts@[t] == seg1[t - k - 1]);
            }
            assert forall|t: int| 2 * k + 2 <= t < 3 * k + 2 implies (#[trigger] pkts@[t])@
                == spec_stream_packet(
                (STREAM_BUS_FIRST + 2) as u8,
                (57 * (t - 2 * k - 2)) as u16,
                spec_chunk_size(old(self).bus_leds as int, t - 2 * k - 2) as u8,
                old(self).order2,
                r,
                g,
                b,
            ) by {
                assert(pkts@[t] == seg2[t - 2 * k - 2]);
            }
        }
        pkts
    }
}

} // verus!
