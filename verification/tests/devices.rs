use rgbman::addressable::{
    ArgbStream, ByteOrder, byte_order_from_field, chunk_plan, counts_register_packet,
    led_size_class, negotiated_byte_orders, pack_size_classes, stream_fill_packets, stream_packet,
    validate_byte_order,
};
use rgbman::bus::{BusCmd, register_read_cmds, register_write_cmds, select_word};
use rgbman::colour::{dram_colour, fan_colour};
use rgbman::dram::{DramInit, I2cDram};
use rgbman::fusion2::{Fusion2Argb, PktEffect, command_packet};

#[test]
fn colour_channels_scale_and_stay_in_range() {
    assert_eq!(fan_colour(0), (0, 0, 0));
    assert_eq!(fan_colour(1000), (54, 28, 15));
    assert_eq!(dram_colour(0), (0, 0, 0));
    assert_eq!(dram_colour(1000), (89, 60, 46));
    assert_eq!(dram_colour(500), (44, 30, 23));
    let mut previous_fan = (0, 0, 0);
    let mut previous_dram = (0, 0, 0);
    for x in 0..=1000u16 {
        let f = fan_colour(x);
        let d = dram_colour(x);
        assert!(f.0 >= previous_fan.0 && f.1 >= previous_fan.1 && f.2 >= previous_fan.2);
        assert!(d.0 >= previous_dram.0 && d.1 >= previous_dram.1 && d.2 >= previous_dram.2);
        assert!(f.0 <= 54 && f.1 <= 28 && f.2 <= 15);
        assert!(d.0 <= 89 && d.1 <= 60 && d.2 <= 46);
        previous_fan = f;
        previous_dram = d;
    }
}

#[test]
fn select_word_swaps_register_bytes() {
    assert_eq!(select_word(0x8020), 0x2080);
    assert_eq!(select_word(0x1C00), 0x001C);
    assert_eq!(select_word(0x00FF), 0xFF00);
}

#[test]
fn register_transactions_select_then_transfer() {
    let read = register_read_cmds(0x1C02);
    assert_eq!(
        read,
        vec![
            BusCmd::WriteWordData(0x00, 0x021C),
            BusCmd::ReadByteData(0x81),
        ]
    );
    let write = register_write_cmds(0x80A0, 1);
    assert_eq!(
        write,
        vec![
            BusCmd::WriteWordData(0x00, 0xA080),
            BusCmd::WriteByteData(0x01, 1),
        ]
    );
}

#[test]
fn dram_construction_succeeds_on_matching_probe_bytes() {
    let mut init = DramInit::new(vec![0x71, 0x73]);
    // First address: select, presence probe, three identification reads.
    let batch = init.next_batch();
    assert_eq!(
        batch,
        vec![
            BusCmd::SetSlave(0x71),
            BusCmd::ReceiveByte,
            BusCmd::ReadByteData(0xAD),
            BusCmd::ReadByteData(0xAE),
            BusCmd::ReadByteData(0xAF),
        ]
    );
    // Each probe register answers its address minus the fixed base.
    init.on_replies(&vec![0x00, 0x0D, 0x0E, 0x0F]);
    assert!(!init.failed());
    let batch = init.next_batch();
    assert_eq!(
        batch,
        vec![
            BusCmd::WriteWordData(0x00, 0x2080),
            BusCmd::WriteByteData(0x01, 1),
            BusCmd::WriteWordData(0x00, 0xA080),
            BusCmd::WriteByteData(0x01, 1),
        ]
    );
    init.on_replies(&vec![]);
    // Second address, same exchange.
    let batch = init.next_batch();
    assert_eq!(batch[0], BusCmd::SetSlave(0x73));
    init.on_replies(&vec![0x00, 0x0D, 0x0E, 0x0F]);
    assert!(!init.failed());
    init.on_replies(&vec![]);
    // Configuration block: one select-and-read pair per byte.
    let batch = init.next_batch();
    assert_eq!(batch.len(), 128);
    assert_eq!(batch[0], BusCmd::WriteWordData(0x00, 0x001C));
    assert_eq!(batch[1], BusCmd::ReadByteData(0x81));
    assert_eq!(batch[2], BusCmd::WriteWordData(0x00, 0x011C));
    let mut config = vec![0u8; 64];
    config[2] = 7;
    init.on_replies(&config);
    assert!(init.done());
    assert!(!init.failed());
    let dram = init.finish();
    assert_eq!(dram.addresses, vec![0x71, 0x73]);
    assert_eq!(dram.led_count, 7);
}

#[test]
fn dram_construction_fails_on_any_mismatched_probe_byte() {
    for bad in 0..3usize {
        let mut init = DramInit::new(vec![0x71]);
        let _ = init.next_batch();
        let mut replies = vec![0x00, 0x0D, 0x0E, 0x0F];
        replies[1 + bad] ^= 0xFF;
        init.on_replies(&replies);
        assert!(init.failed());
        assert!(init.done());
    }
}

#[test]
fn dram_colour_plan_rearms_and_writes_swapped_channels() {
    let dram = I2cDram::new(vec![0x71], 2);
    let cmds = dram.set_led_colour(10, 20, 30);
    assert_eq!(
        cmds,
        vec![
            BusCmd::SetSlave(0x71),
            BusCmd::WriteWordData(0x00, 0x2080),
            BusCmd::WriteByteData(0x01, 1),
            BusCmd::WriteWordData(0x00, 0xA080),
            BusCmd::WriteByteData(0x01, 1),
            // LED 0 at the colour base register, channels (r, b, g).
            BusCmd::WriteWordData(0x00, 0x0081),
            BusCmd::WriteBlockData3(0x03, 10, 30, 20),
            // LED 1 three bytes further on.
            BusCmd::WriteWordData(0x00, 0x0381),
            BusCmd::WriteBlockData3(0x03, 10, 30, 20),
        ]
    );
    // Two modules double the plan, in address order.
    let dram = I2cDram::new(vec![0x71, 0x73], 1);
    let cmds = dram.set_led_colour(1, 2, 3);
    assert_eq!(cmds.len(), 14);
    assert_eq!(cmds[0], BusCmd::SetSlave(0x71));
    assert_eq!(cmds[7], BusCmd::SetSlave(0x73));
}

#[test]
fn command_packet_is_report_id_register_arguments_then_zeros() {
    let pkt = command_packet(0x60, 0x12, 0x34);
    assert_eq!(pkt.len(), 64);
    assert_eq!(&pkt[..4], &[0xCC, 0x60, 0x12, 0x34]);
    assert!(pkt[4..].iter().all(|&b| b == 0));
}

#[test]
fn fusion2_init_packets_follow_the_reset_sequence() {
    let pkts = Fusion2Argb::init_packets();
    assert_eq!(pkts.len(), 16);
    let registers: Vec<u8> = pkts.iter().map(|p| p[1]).collect();
    assert_eq!(
        registers,
        vec![
            0x60, 0x20, 0x21, 0x22, 0x23, 0x24, 0x25, 0x26, 0x27, 0x32, 0x34, 0x90, 0x91, 0x92,
            0x28, 0x31
        ]
    );
    // The apply command carries its fixed non-zero payload.
    assert_eq!(&pkts[14][..4], &[0xCC, 0x28, 0xFF, 0x07]);
    // Every other reset packet has zero arguments.
    assert_eq!(&pkts[15][..4], &[0xCC, 0x31, 0x00, 0x00]);
}

#[test]
fn fusion2_colour_builds_effect_and_apply_packets() {
    let mut dev = Fusion2Argb::new();
    assert_eq!(dev.effect_mask, 0);
    let pkts = dev.set_led_colour(1, 2, 3);
    assert_eq!(dev.effect_mask, 0x1B);
    assert_eq!(pkts.len(), 2);
    let effect = &pkts[0];
    assert_eq!(effect.len(), 64);
    assert_eq!(effect[0], 0xCC);
    assert_eq!(effect[1], 0x20);
    // Zone mask 0x07FF, little-endian.
    assert_eq!(&effect[2..6], &[0xFF, 0x07, 0x00, 0x00]);
    assert_eq!(&effect[6..10], &[0x00, 0x00, 0x00, 0x00]);
    assert_eq!(effect[10], 0x00);
    assert_eq!(effect[11], 0x01);
    assert_eq!(effect[12], 0xFF);
    assert_eq!(effect[13], 0xFF);
    // Packed colour 0x010203 and full-white companion, little-endian.
    assert_eq!(&effect[14..18], &[0x03, 0x02, 0x01, 0x00]);
    assert_eq!(&effect[18..22], &[0xFF, 0xFF, 0xFF, 0x00]);
    assert!(effect[22..].iter().all(|&b| b == 0));
    assert_eq!(&pkts[1][..4], &[0xCC, 0x28, 0xFF, 0x00]);
    // The effect mask accumulates and never resets between calls.
    dev.effect_mask |= 0x20;
    let _ = dev.set_led_colour(9, 9, 9);
    assert_eq!(dev.effect_mask, 0x3B);
}

#[test]
fn effect_packet_builders_compose() {
    let pkt = PktEffect::all_leds(0xCC)
        .with_effect_type(1)
        .with_brightness(0xFF, 0x00)
        .with_color0_rgb(0xAA, 0xBB, 0xCC)
        .to_bytes();
    assert_eq!(pkt.len(), 64);
    assert_eq!(pkt[12], 0xFF);
    assert_eq!(pkt[13], 0x00);
    assert_eq!(&pkt[14..18], &[0xCC, 0xBB, 0xAA, 0x00]);
    let blank = PktEffect::blank().to_bytes();
    assert_eq!(blank[0], 0x00);
    assert_eq!(blank[11], 1);
    assert_eq!(blank[12], 255);
}

#[test]
fn byte_order_validator_accepts_exactly_the_permutations() {
    for r in 0..=3u8 {
        for g in 0..=3u8 {
            for b in 0..=3u8 {
                let p = ByteOrder { red: r, green: g, blue: b };
                let q = validate_byte_order(p);
                let valid = r < 3 && g < 3 && b < 3 && r != g && r != b && g != b;
                if valid {
                    assert_eq!(q, p);
                } else {
                    assert_eq!(q, ByteOrder { red: 0, green: 1, blue: 2 });
                }
            }
        }
    }
}

#[test]
fn byte_order_comes_from_the_field_low_bytes() {
    let p = byte_order_from_field(0x0000_0102);
    assert_eq!(p, ByteOrder { red: 2, green: 1, blue: 0 });
    let p = byte_order_from_field(0x7700_0102);
    assert_eq!(p, ByteOrder { red: 2, green: 1, blue: 0 });
    // A field with a repeated entry falls back to identity order.
    let q = validate_byte_order(byte_order_from_field(0x0000_0000));
    assert_eq!(q, ByteOrder { red: 0, green: 1, blue: 2 });
}

#[test]
fn byte_orders_negotiate_from_the_feature_report() {
    let mut report = vec![0u8; 64];
    // First bus: a valid permutation, little-endian at its fixed offset.
    report[8] = 2;
    report[9] = 0;
    report[10] = 1;
    // Second bus: a repeated entry; the driver falls back to identity.
    report[12] = 1;
    report[13] = 1;
    report[14] = 0;
    let (first, second) = negotiated_byte_orders(&report);
    assert_eq!(first, ByteOrder { red: 2, green: 0, blue: 1 });
    assert_eq!(second, ByteOrder { red: 0, green: 1, blue: 2 });
}

#[test]
fn counts_register_packs_two_classes_per_byte() {
    let pkt = counts_register_packet(32, 100, 600);
    assert_eq!(&pkt[..4], &[0xCC, 0x34, 0x20, 0x04]);
    assert!(pkt[4..].iter().all(|&b| b == 0));
}

#[test]
fn size_classes_quantize_led_counts() {
    assert_eq!(led_size_class(0), 0);
    assert_eq!(led_size_class(32), 0);
    assert_eq!(led_size_class(33), 1);
    assert_eq!(led_size_class(64), 1);
    assert_eq!(led_size_class(65), 2);
    assert_eq!(led_size_class(256), 2);
    assert_eq!(led_size_class(257), 3);
    assert_eq!(led_size_class(512), 3);
    assert_eq!(led_size_class(513), 4);
    assert_eq!(pack_size_classes(2, 3), 0x32);
}

#[test]
fn chunk_plan_covers_all_leds_in_increasing_offsets() {
    let chunks = chunk_plan(100);
    assert_eq!(chunks.len(), 6); // ceil(100 / 19)
    let counts: Vec<u8> = chunks.iter().map(|c| c.count).collect();
    assert_eq!(counts, vec![19, 19, 19, 19, 19, 5]);
    let offsets: Vec<u16> = chunks.iter().map(|c| c.offset).collect();
    assert_eq!(offsets, vec![0, 57, 114, 171, 228, 285]);
    assert_eq!(counts.iter().map(|&c| c as u32).sum::<u32>(), 100);
    for w in offsets.windows(2) {
        assert!(w[0] < w[1]);
    }

    assert_eq!(chunk_plan(0).len(), 0);
    let exact = chunk_plan(38);
    assert_eq!(exact.len(), 2);
    assert_eq!(exact[1].count, 19);
    let single = chunk_plan(7);
    assert_eq!(single.len(), 1);
    assert_eq!(single[0].count, 7);
    assert_eq!(single[0].offset, 0);
}

#[test]
fn stream_packet_lays_colours_in_negotiated_order() {
    let order = ByteOrder { red: 1, green: 2, blue: 0 };
    let pkt = stream_packet(0x35, 57, 2, order, 0x11, 0x22, 0x33);
    assert_eq!(pkt.len(), 64);
    assert_eq!(&pkt[..5], &[0xCC, 0x35, 57, 0, 2]);
    assert_eq!(&pkt[5..8], &[0x33, 0x11, 0x22]);
    assert_eq!(&pkt[8..11], &[0x33, 0x11, 0x22]);
    assert!(pkt[11..].iter().all(|&b| b == 0));
}

#[test]
fn streaming_session_covers_buses_mask_port_and_apply() {
    let mut report = vec![0u8; 64];
    // First bus negotiates (blue, red, green) byte order; the second
    // field is no permutation, so that bus falls back to identity.
    report[8] = 1;
    report[9] = 2;
    report[10] = 0;
    let mut dev = ArgbStream::new(&report);
    assert_eq!(dev.effect_mask, 0);
    assert_eq!(dev.bus_leds, 32);
    assert_eq!(dev.order0, ByteOrder { red: 1, green: 2, blue: 0 });
    assert_eq!(dev.order1, ByteOrder { red: 0, green: 1, blue: 2 });

    let pkts = dev.set_led_colour(10, 20, 30);
    assert_eq!(dev.effect_mask, 0x07);
    // Two chunks per 32-LED bus, a mask write per bus, then the
    // single-LED port write, its effect packet, and the apply command.
    assert_eq!(pkts.len(), 12);
    assert_eq!(&pkts[0][..5], &[0xCC, 0x58, 0, 0, 19]);
    assert_eq!(&pkts[0][5..8], &[30, 10, 20]);
    assert_eq!(&pkts[1][..5], &[0xCC, 0x58, 57, 0, 13]);
    assert_eq!(&pkts[2][..4], &[0xCC, 0x32, 0x01, 0x00]);
    assert_eq!(&pkts[3][..5], &[0xCC, 0x59, 0, 0, 19]);
    assert_eq!(&pkts[3][5..8], &[10, 20, 30]);
    assert_eq!(&pkts[4][..5], &[0xCC, 0x59, 57, 0, 13]);
    assert_eq!(&pkts[5][..4], &[0xCC, 0x32, 0x03, 0x00]);
    assert_eq!(&pkts[6][..5], &[0xCC, 0x5A, 0, 0, 19]);
    assert_eq!(&pkts[7][..5], &[0xCC, 0x5A, 57, 0, 13]);
    assert_eq!(&pkts[8][..4], &[0xCC, 0x32, 0x07, 0x00]);
    assert_eq!(&pkts[9][..5], &[0xCC, 0x5B, 0, 0, 1]);
    assert_eq!(&pkts[9][5..8], &[10, 20, 30]);
    let effect = &pkts[10];
    assert_eq!(effect[0], 0xCC);
    assert_eq!(effect[1], 0x20);
    assert_eq!(&effect[2..6], &[0x00, 0x04, 0x00, 0x00]);
    assert_eq!(effect[11], 0x01);
    assert_eq!(&effect[14..18], &[30, 20, 10, 0]);
    assert_eq!(&pkts[11][..4], &[0xCC, 0x28, 0xFF, 0x00]);
}

#[test]
fn stream_fill_chunks_a_whole_bus() {
    let order = ByteOrder { red: 0, green: 1, blue: 2 };
    let pkts = stream_fill_packets(0x36, 40, order, 1, 2, 3);
    assert_eq!(pkts.len(), 3);
    assert_eq!(&pkts[0][..5], &[0xCC, 0x36, 0, 0, 19]);
    assert_eq!(&pkts[1][..5], &[0xCC, 0x36, 57, 0, 19]);
    assert_eq!(&pkts[2][..5], &[0xCC, 0x36, 114, 0, 2]);
    assert_eq!(&pkts[2][5..11], &[1, 2, 3, 1, 2, 3]);
    assert!(pkts[2][11..].iter().all(|&b| b == 0));
}
