use rusty_lights::output::artnet::ArtNetEncoder;
use rusty_lights::output::ddp::{ddp_packet, DdpEncoder, DDP_MAX_DATA};
use rusty_lights::output::e131::{e131_packet, multicast_target, universe_to_multicast, E131Encoder};
use rusty_lights::output::{FramePlan, IdleAction, IdleTimer, MultiUniverseOutput, RateLimiter};
use rusty_lights::web::protocol::encode_frame;
use rusty_lights::web::request::is_websocket_request;
use rusty_lights::Rgb;

#[test]
fn test_ddp_max_leds() {
    // Check that we can handle the maximum LEDs per packet
    let max_leds = DDP_MAX_DATA / 3;
    assert!(
        max_leds >= 400,
        "Should support at least 400 LEDs per packet"
    );
}

#[test]
fn test_multicast_address() {
    assert_eq!(universe_to_multicast(1), [239, 255, 0, 1]);
    assert_eq!(universe_to_multicast(256), [239, 255, 1, 0]);
    assert_eq!(universe_to_multicast(63999), [239, 255, 249, 255]);
}

#[test]
fn test_rate_limiter_creation() {
    let limiter = RateLimiter::new(60);
    assert_eq!(limiter.fps(), 60);
}

#[test]
fn test_rate_limiter_bounds() {
    let limiter = RateLimiter::new(0);
    assert_eq!(limiter.fps(), 1);

    let limiter = RateLimiter::new(1000);
    assert_eq!(limiter.fps(), 240);
}

#[test]
fn rate_limiter_reads_back_every_rate() {
    let mut limiter = RateLimiter::new(30);
    for fps in 1..=240u32 {
        limiter.set_fps(fps);
        assert_eq!(limiter.fps(), fps);
    }
}

#[test]
fn rate_limiter_plans_sleep_or_counts_missed_periods() {
    let mut limiter = RateLimiter::new(100); // 10 ms period
    assert_eq!(limiter.plan_frame(4_000_000), FramePlan::Sleep { nanos: 6_000_000 });
    assert_eq!(limiter.plan_frame(10_000_000), FramePlan::Late { frames_behind: 1 });
    assert_eq!(limiter.plan_frame(35_000_000), FramePlan::Late { frames_behind: 3 });
    assert!(limiter.complete_frame(FramePlan::Sleep { nanos: 6_000_000 }));
    assert!(limiter.is_on_time());
    assert!(!limiter.complete_frame(FramePlan::Late { frames_behind: 1 }));
    assert_eq!(limiter.dropped_frames(), 0);
    assert!(!limiter.complete_frame(FramePlan::Late { frames_behind: 3 }));
    assert_eq!(limiter.dropped_frames(), 2);
    assert_eq!(limiter.frame_count(), 3);
    assert!(!limiter.is_on_time());
    limiter.reset();
    assert_eq!(limiter.frame_count(), 0);
    assert_eq!(limiter.dropped_frames(), 0);
    assert_eq!(limiter.fps(), 100);
    let _ = limiter.elapsed_nanos();
}

#[test]
fn ddp_packet_header_and_data() {
    let data = [1u8, 2, 3, 4, 5, 6];
    let p = ddp_packet(&data, 0x0102_0304, true, 7);
    assert_eq!(p, vec![0x41, 7, 0x01, 0x00, 1, 2, 3, 4, 0, 6, 1, 2, 3, 4, 5, 6]);
    let p = ddp_packet(&data, 0, false, 0);
    assert_eq!(p[0], 0x40);
    let big = vec![9u8; 2000];
    let p = ddp_packet(&big, 0, false, 0);
    assert_eq!(p.len(), 10 + 1440);
    assert_eq!(&p[8..10], &[0x05, 0xA0]);
}

#[test]
fn ddp_frame_is_split_into_fragments() {
    let mut enc = DdpEncoder::new();
    let leds: Vec<Rgb> = (0..1000u32).map(|i| Rgb::new(i as u8, (i >> 8) as u8, 3)).collect();
    let packets = enc.frame_packets(&leds);
    assert_eq!(packets.len(), 3);
    assert_eq!(packets[0].len(), 1450);
    assert_eq!(packets[1].len(), 1450);
    assert_eq!(packets[2].len(), 10 + 3 * 40);
    assert_eq!(packets[0][0], 0x40);
    assert_eq!(packets[1][0], 0x40);
    assert_eq!(packets[2][0], 0x41);
    assert_eq!(&packets[1][4..8], &[0, 0, 0x05, 0xA0]);
    assert_eq!(&packets[2][4..8], &[0, 0, 0x0B, 0x40]);
    // LED 480 starts the second packet.
    assert_eq!(&packets[1][10..13], &[480u32 as u8, 1, 3]);
    assert_eq!(packets[0][1], 0);
    enc.frame_sent();
    let packets = enc.frame_packets(&leds[..1]);
    assert_eq!(packets.len(), 1);
    assert_eq!(packets[0], vec![0x41, 1, 1, 0, 0, 0, 0, 0, 0, 3, 0, 0, 3]);
    assert!(enc.frame_packets(&[]).is_empty());
}

#[test]
fn ddp_sequence_wraps() {
    let mut enc = DdpEncoder::new();
    for _ in 0..256 {
        enc.frame_sent();
    }
    let packets = enc.frame_packets(&[Rgb::black()]);
    assert_eq!(packets[0][1], 0);
}

#[test]
fn e131_packet_layout_for_two_leds() {
    let cid = [0xAAu8; 16];
    let p = e131_packet(&cid, 0x0102, 5, &[1, 2, 3, 4, 5, 6]);
    assert_eq!(p.len(), 126 + 6);
    assert_eq!(&p[0..4], &[0x00, 0x10, 0x00, 0x00]);
    assert_eq!(&p[4..16], b"ASC-E1.17\x00\x00\x00");
    assert_eq!(&p[16..18], &[0x70, 132 - 16]);
    assert_eq!(&p[18..22], &[0, 0, 0, 4]);
    assert_eq!(&p[22..38], &cid);
    assert_eq!(&p[38..40], &[0x70, 132 - 38]);
    assert_eq!(&p[40..44], &[0, 0, 0, 2]);
    assert_eq!(&p[44..55], b"RustyLights");
    assert!(p[55..108].iter().all(|&b| b == 0));
    assert_eq!(p[108], 100);
    assert_eq!(&p[109..111], &[0, 0]);
    assert_eq!(p[111], 5);
    assert_eq!(p[112], 0);
    assert_eq!(&p[113..115], &[0x01, 0x02]);
    assert_eq!(&p[115..117], &[0x70, 132 - 115]);
    assert_eq!(&p[117..119], &[0x02, 0xA1]);
    assert_eq!(&p[119..123], &[0, 0, 0, 1]);
    assert_eq!(&p[123..125], &[0, 7]);
    assert_eq!(p[125], 0);
    assert_eq!(&p[126..], &[1, 2, 3, 4, 5, 6]);
}

#[test]
fn e131_full_universe_lengths() {
    let cid = [0u8; 16];
    let p = e131_packet(&cid, 1, 0, &vec![0xFFu8; 600]);
    assert_eq!(p.len(), 638);
    assert_eq!(&p[16..18], &[0x72, 0x6E]);
    assert_eq!(&p[123..125], &[0x02, 0x01]);
}

#[test]
fn e131_encoder_sequences_and_cid() {
    let mut enc = E131Encoder::new(3);
    assert_eq!(enc.universe(), 3);
    let leds: Vec<Rgb> = (0..200u32).map(|i| Rgb::new(i as u8, 0, 0)).collect();
    let p1 = enc.next_packet(&leds);
    let p2 = enc.next_packet(&leds);
    assert_eq!(p1[111], 1);
    assert_eq!(p2[111], 2);
    assert_eq!(p1.len(), 126 + 510);
    // Version 4 UUID with the RFC 4122 variant.
    assert_eq!(p1[22 + 6] >> 4, 4);
    assert_eq!(p1[22 + 8] >> 6, 2);
    assert_eq!(&p1[22..38], &p2[22..38]);
    let other = E131Encoder::new(3).next_dmx_packet(&[]);
    assert_eq!(other.len(), 126);
    assert_ne!(&other[22..38], &p1[22..38]);
}

#[test]
fn multicast_target_recognition() {
    assert_eq!(multicast_target("multicast", 2), Some([239, 255, 0, 2]));
    assert_eq!(multicast_target("239.255.7.7", 258), Some([239, 255, 1, 2]));
    assert_eq!(multicast_target("192.168.1.100", 1), None);
    assert_eq!(multicast_target("Multicast", 1), None);
    assert_eq!(multicast_target("239.255", 1), None);
}

#[test]
fn multi_universe_splits_strip() {
    let mut out = MultiUniverseOutput::new(10, 400);
    assert_eq!(out.num_universes(), 3);
    assert_eq!(out.base_universe(), 10);
    let leds: Vec<Rgb> = (0..400u32).map(|i| Rgb::new((i % 256) as u8, (i / 256) as u8, 9)).collect();
    assert_eq!(out.frame_universes(leds.len()), 3);
    assert_eq!(out.frame_universes(10), 1);
    assert_eq!(out.frame_universes(1000), 3);
    let p0 = out.universe_packet(0, &leds);
    let p2 = out.universe_packet(2, &leds);
    assert_eq!(&p0[113..115], &[0, 10]);
    assert_eq!(&p2[113..115], &[0, 12]);
    assert_eq!(p0.len(), 126 + 510);
    assert_eq!(p2.len(), 126 + 3 * 60);
    // LED 340 opens universe 12.
    assert_eq!(&p2[126..129], &[(340 % 256) as u8, 1, 9]);
    let empty = MultiUniverseOutput::new(1, 0);
    assert_eq!(empty.num_universes(), 0);
}

#[test]
fn artnet_packet_layout() {
    let mut enc = ArtNetEncoder::new(0x0203);
    let p = enc.packet(&[Rgb::new(1, 2, 3), Rgb::new(4, 5, 6)]);
    assert_eq!(
        p,
        vec![
            b'A', b'r', b't', b'-', b'N', b'e', b't', 0, 0x50, 0x00, 0, 14, 0, 0, 0x03, 0x02, 0, 6,
            1, 2, 3, 4, 5, 6
        ]
    );
    enc.packet_sent();
    let leds = vec![Rgb::white(); 171];
    let p = enc.packet(&leds);
    assert_eq!(p[12], 1);
    assert_eq!(&p[16..18], &[0x02, 0x00]);
    assert_eq!(p.len(), 18 + 512);
    assert_eq!(&p[18 + 510..], &[0, 0]);
    assert_eq!(p[18 + 509], 255);
}

#[test]
fn web_frame_encoding() {
    let mut buf = vec![99u8; 4];
    encode_frame(&[Rgb::new(1, 2, 3)], &[10, 20], true, &mut buf);
    assert_eq!(buf, vec![1, 2, 10, 20, 1, 2, 3]);
    let levels = vec![7u8; 300];
    encode_frame(&[], &levels, false, &mut buf);
    assert_eq!(buf.len(), 2 + 255);
    assert_eq!(&buf[0..2], &[0, 255]);
}

#[test]
fn websocket_requests_are_told_from_page_requests() {
    assert!(is_websocket_request(
        "GET /ws HTTP/1.1\r\nHost: x\r\nConnection: Upgrade\r\nUpgrade: websocket\r\n\r\n"
    ));
    assert!(is_websocket_request("GET /ws HTTP/1.1\r\nCONNECTION: UPGRADE\r\n"));
    assert!(!is_websocket_request("GET /ws HTTP/1.1\r\nHost: x\r\n\r\n"));
    assert!(!is_websocket_request("GET / HTTP/1.1\r\nUpgrade: websocket\r\n"));
    assert!(!is_websocket_request(""));
}

#[test]
fn rate_limiter_period_is_rounded_to_the_nanosecond() {
    // 1 s / 60 = 16_666_666.67 ns, rounded to 16_666_667.
    let limiter = RateLimiter::new(60);
    assert_eq!(limiter.plan_frame(0), FramePlan::Sleep { nanos: 16_666_667 });
    // 1 s / 240 = 4_166_666.67 ns, rounded to 4_166_667.
    let limiter = RateLimiter::new(240);
    assert_eq!(limiter.plan_frame(0), FramePlan::Sleep { nanos: 4_166_667 });
    // 1 s / 7 = 142_857_142.86 ns, rounded to 142_857_143.
    let limiter = RateLimiter::new(7);
    assert_eq!(limiter.plan_frame(0), FramePlan::Sleep { nanos: 142_857_143 });
}

#[test]
fn idle_timer_closes_after_silence_and_reopens_on_sound() {
    let minute: u128 = 60_000_000_000;
    let mut t = IdleTimer::new(2);
    assert_eq!(t.step(true, minute), IdleAction::Send);
    assert_eq!(t.step(false, minute), IdleAction::Send);
    assert_eq!(t.step(true, minute), IdleAction::Send);
    assert_eq!(t.step(true, minute), IdleAction::Close);
    assert!(t.is_closed());
    assert_eq!(t.step(true, minute), IdleAction::Skip);
    assert_eq!(t.step(true, u128::MAX), IdleAction::Skip);
    assert_eq!(t.step(false, 1), IdleAction::Send);
    assert!(!t.is_closed());

    let mut off = IdleTimer::new(0);
    for _ in 0..5 {
        assert_eq!(off.step(true, u128::MAX / 2), IdleAction::Send);
    }
}

#[test]
fn frame_count_counts_booked_frames() {
    let mut limiter = RateLimiter::new(50);
    limiter.complete_frame(FramePlan::Sleep { nanos: 1 });
    limiter.reset();
    assert_eq!(limiter.frame_count(), 0);
    limiter.complete_frame(FramePlan::Sleep { nanos: 5 });
    limiter.set_fps(30);
    limiter.complete_frame(FramePlan::Late { frames_behind: 4 });
    limiter.set_fps(120);
    limiter.complete_frame(FramePlan::Late { frames_behind: 1 });
    assert_eq!(limiter.frame_count(), 3);
    assert_eq!(limiter.dropped_frames(), 3);
    assert!((1..=240).contains(&limiter.fps()));
}
