use loadgen::config::{ConfigError, Mode};
use loadgen::generator::GeneratorState;

fn generator(mode: Mode, size: usize, run_id: u32, nonce: u32) -> GeneratorState {
    match GeneratorState::seeded(mode, size, run_id, nonce) {
        Ok(g) => g,
        Err(e) => panic!("refused: {:?}", e),
    }
}

#[test]
fn sample_payload_has_exact_bytes() {
    let mut g = generator(Mode::Sample, 12, 0x0a0b_0c0d, 77);
    let p = g.next();
    assert_eq!(p.to_vec(), vec![0, 0, 0, 0, 0x0a, 0x0b, 0x0c, 0x0d, 0, 0, 0, 0]);
}

#[test]
fn minimal_payload_is_header_only() {
    let mut g = generator(Mode::Sample, 8, 0x0102_0304, 0);
    let p = g.next();
    assert_eq!(p.to_vec(), vec![0, 0, 0, 0, 1, 2, 3, 4]);
}

#[test]
fn filler_payload_has_exact_bytes() {
    let mut g = generator(Mode::Filler, 10, 9, 0x0102_0304);
    let p = g.next();
    assert_eq!(p.to_vec(), vec![0xff, 0xff, 0xff, 0xff, 1, 2, 3, 5, 0, 0]);
    assert_eq!(g.nonce(), 0x0102_0305);
}

#[test]
fn every_payload_has_configured_size() {
    for &size in &[8usize, 9, 16, 100, 4096] {
        for &mode in &[Mode::Sample, Mode::Filler] {
            let mut g = generator(mode, size, 1, 2);
            for _ in 0..5 {
                assert_eq!(g.next().len(), size);
            }
            g.end_burst();
            assert_eq!(g.next().len(), size);
            assert_eq!(g.size(), size);
        }
    }
}

#[test]
fn payloads_do_not_accumulate() {
    let mut g = generator(Mode::Filler, 9, 0, 0);
    let first = g.next();
    let second = g.next();
    assert_eq!(first.to_vec(), vec![0xff, 0xff, 0xff, 0xff, 0, 0, 0, 1, 0]);
    assert_eq!(second.to_vec(), vec![0xff, 0xff, 0xff, 0xff, 0, 0, 0, 2, 0]);
}

#[test]
fn sample_tag_is_shared_within_a_burst() {
    let mut g = generator(Mode::Sample, 8, 42, 0);
    g.end_burst();
    g.end_burst();
    g.end_burst();
    let a = g.next();
    let b = g.next();
    let c = g.next();
    assert_eq!(a, b);
    assert_eq!(b, c);
    assert_eq!(a.to_vec(), vec![0, 0, 0, 3, 0, 0, 0, 42]);
    assert_eq!(g.burst(), 3);
}

#[test]
fn sample_tag_grows_by_one_per_burst() {
    let mut g = generator(Mode::Sample, 8, 7, 0);
    let mut previous: Option<u32> = None;
    for burst in 0u32..300 {
        let p = g.next();
        let tag = u32::from_be_bytes([p[0], p[1], p[2], p[3]]);
        let discriminator = u32::from_be_bytes([p[4], p[5], p[6], p[7]]);
        assert_eq!(tag, burst);
        assert_eq!(discriminator, 7);
        if let Some(before) = previous {
            assert!(tag >= before);
        }
        previous = Some(tag);
        g.end_burst();
    }
}

#[test]
fn sample_tag_starts_over_after_its_span() {
    let mut g = generator(Mode::Sample, 8, 5, 0);
    for _ in 0..0x00ff_ffffu32 {
        g.end_burst();
    }
    assert_eq!(g.burst(), 0x00ff_ffff);
    assert_eq!(g.next().to_vec(), vec![0, 0xff, 0xff, 0xff, 0, 0, 0, 5]);
    g.end_burst();
    assert_eq!(g.burst(), 0x0100_0000);
    assert_eq!(g.next().to_vec(), vec![0, 0, 0, 0, 0, 0, 0, 5]);
    g.end_burst();
    assert_eq!(g.next().to_vec(), vec![0, 0, 0, 1, 0, 0, 0, 5]);
}

#[test]
fn sample_mode_leaves_nonce_alone() {
    let mut g = generator(Mode::Sample, 8, 5, 99);
    let _ = g.next();
    let _ = g.next();
    g.end_burst();
    assert_eq!(g.nonce(), 99);
    assert_eq!(g.run_id(), 5);
    assert_eq!(g.mode(), Mode::Sample);
}

#[test]
fn filler_discriminator_increases_by_one() {
    let mut g = generator(Mode::Filler, 16, 0, 1000);
    let mut previous = 1000u32;
    for i in 0..250u32 {
        if i % 100 == 99 {
            g.end_burst();
        }
        let p = g.next();
        assert_eq!(&p[0..4], &[0xff, 0xff, 0xff, 0xff]);
        let discriminator = u32::from_be_bytes([p[4], p[5], p[6], p[7]]);
        assert_eq!(discriminator, previous + 1);
        assert!(p[8..].iter().all(|b| *b == 0));
        previous = discriminator;
    }
}

#[test]
fn filler_discriminator_wraps_at_overflow() {
    let mut g = generator(Mode::Filler, 8, 0, u32::MAX - 1);
    assert_eq!(g.next().to_vec(), vec![0xff, 0xff, 0xff, 0xff, 0xff, 0xff, 0xff, 0xff]);
    assert_eq!(g.next().to_vec(), vec![0xff, 0xff, 0xff, 0xff, 0, 0, 0, 0]);
    assert_eq!(g.next().to_vec(), vec![0xff, 0xff, 0xff, 0xff, 0, 0, 0, 1]);
}

#[test]
fn burst_counter_wraps_at_overflow() {
    let mut g = generator(Mode::Filler, 8, 0, 0);
    g.end_burst();
    assert_eq!(g.burst(), 1);
    assert_eq!(g.nonce(), 0);
}

#[test]
fn size_below_header_is_refused() {
    for size in 0usize..8 {
        assert!(matches!(
            GeneratorState::seeded(Mode::Sample, size, 0, 0),
            Err(ConfigError::PayloadTooSmall)
        ));
        assert!(matches!(
            GeneratorState::start(Mode::Filler, size),
            Err(ConfigError::PayloadTooSmall)
        ));
    }
    assert!(GeneratorState::seeded(Mode::Sample, 8, 0, 0).is_ok());
}

#[test]
fn started_generator_keeps_its_run_identifier() {
    let mut g = match GeneratorState::start(Mode::Sample, 24) {
        Ok(g) => g,
        Err(e) => panic!("refused: {:?}", e),
    };
    let id = g.run_id();
    assert_eq!(g.burst(), 0);
    for burst in 0u32..4 {
        for _ in 0..3 {
            let p = g.next();
            assert_eq!(p.len(), 24);
            assert_eq!(u32::from_be_bytes([p[0], p[1], p[2], p[3]]), burst);
            assert_eq!(u32::from_be_bytes([p[4], p[5], p[6], p[7]]), id);
        }
        g.end_burst();
    }
}

#[test]
fn started_filler_counts_from_its_nonce() {
    let mut g = match GeneratorState::start(Mode::Filler, 8) {
        Ok(g) => g,
        Err(e) => panic!("refused: {:?}", e),
    };
    let nonce = g.nonce();
    let p = g.next();
    assert_eq!(u32::from_be_bytes([p[4], p[5], p[6], p[7]]), nonce.wrapping_add(1));
    let q = g.next();
    assert_eq!(u32::from_be_bytes([q[4], q[5], q[6], q[7]]), nonce.wrapping_add(2));
}
