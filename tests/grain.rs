use graindr::engine::GranularCore;
use graindr::grain::GrainScheduler;
use graindr::modes::PlaybackDirection;

/// Runs `n` samples with grains of `output_len` samples and the given stride,
/// writing each resampled block into the grain buffer, and records for each
/// trigger the sample, the voice that restarted and its replay depth.
fn trace(
    max_output: usize,
    stretch: u8,
    output_len: u64,
    stride: i64,
    n: usize,
    forced: &[usize],
) -> Vec<(usize, Option<usize>, u64)> {
    let mut core: GranularCore<f32, f32> = GranularCore::new(max_output, 1, 0.0, 0.0);
    let mut log = Vec::new();
    for t in 0..n {
        let plan = core.schedule(
            output_len,
            stride,
            output_len as f32,
            stretch,
            forced.contains(&t),
            PlaybackDirection::Forward,
        );
        if plan.resample_count > 0 {
            assert_eq!(plan.resample_count, output_len);
            for _ in 0..plan.resample_count {
                core.output_buffer.write(1.0);
            }
            let restarted = match (plan.first, plan.second) {
                (Some(a), _) if a.read_index == 0 => Some((0, a.stretch_multiplier)),
                (_, Some(b)) if b.read_index == 0 => Some((1, b.stretch_multiplier)),
                _ => None,
            };
            log.push((t, restarted.map(|r| r.0), restarted.map(|r| r.1).unwrap_or(0)));
        }
    }
    log
}

#[test]
fn stretch_two_deepens_by_one_every_two_triggers() {
    let log = trace(16, 2, 8, 6, 80, &[]);
    assert_eq!(
        log,
        vec![
            (7, None, 0),
            (14, Some(0), 1),
            (21, Some(1), 2),
            (28, Some(0), 2),
            (35, Some(1), 3),
            (42, Some(0), 3),
            (49, Some(1), 4),
            (56, Some(0), 4),
            (63, Some(1), 5),
            (70, Some(0), 5),
            (77, Some(1), 6),
        ]
    );
}

#[test]
fn stretch_three_deepens_by_one_every_three_triggers() {
    let log = trace(16, 3, 8, 6, 100, &[]);
    let depths: Vec<u64> = log.iter().skip(1).map(|e| e.2).collect();
    assert_eq!(depths, vec![1, 1, 2, 2, 2, 3, 3, 3, 4, 4, 4, 5, 5]);
    for w in depths.windows(4) {
        assert_eq!(w[3] - w[0], 1);
    }
}

#[test]
fn unit_stretch_wraps_on_every_trigger() {
    let log = trace(16, 1, 8, 6, 60, &[]);
    let depths: Vec<u64> = log.iter().skip(1).map(|e| e.2).collect();
    assert_eq!(depths, vec![2, 3, 4, 5, 6, 7, 8]);
    assert_eq!(log.len(), 8);
}

#[test]
fn forced_trigger_restarts_at_depth_one() {
    let log = trace(16, 3, 8, 6, 100, &[40]);
    let depths: Vec<u64> = log.iter().skip(1).map(|e| e.2).collect();
    assert_eq!(depths, vec![1, 1, 2, 2, 1, 1, 1, 1, 2, 2, 2, 3, 3]);
}

#[test]
fn cursor_collision_restarts_at_depth_one() {
    // grains of 10 in a buffer of 64: the seventh block leaves the cursor at 6
    let log = trace(16, 2, 10, 8, 90, &[]);
    let depths: Vec<u64> = log.iter().skip(1).map(|e| e.2).collect();
    assert_eq!(depths, vec![1, 2, 2, 3, 3, 1, 1, 2]);
    assert_eq!(log[6], (63, Some(1), 1));
}

#[test]
fn stride_decides_trigger_samples() {
    let mut s: GrainScheduler<f32> = GrainScheduler::new(0.0);
    let out = graindr::ring::CircularBuffer::new(64, 0.0f32);
    let mut fired = Vec::new();
    for t in 0..12 {
        let plan = s.tick(&out, 5, 2, 5.0, 1, false, PlaybackDirection::Forward);
        if plan.resample_count > 0 {
            fired.push(t);
        }
    }
    assert_eq!(fired, vec![3, 6, 9]);
    // a negative stride triggers on every sample
    let mut s: GrainScheduler<f32> = GrainScheduler::new(0.0);
    for _ in 0..4 {
        assert_eq!(s.tick(&out, 1, -1, 0.5, 1, false, PlaybackDirection::Forward).resample_count, 1);
    }
}

#[test]
fn stretch_factor_takes_effect_at_next_trigger() {
    let mut s: GrainScheduler<f32> = GrainScheduler::new(0.0);
    let out = graindr::ring::CircularBuffer::new(64, 0.0f32);
    assert_eq!(s.current_stretch_factor(), 1);
    s.tick(&out, 8, 6, 8.0, 4, false, PlaybackDirection::Forward);
    assert_eq!(s.current_stretch_factor(), 1);
    assert_eq!(s.next_stretch_factor, 4);
    for _ in 0..7 {
        s.tick(&out, 8, 6, 8.0, 4, false, PlaybackDirection::Forward);
    }
    assert_eq!(s.current_stretch_factor(), 4);
}

#[test]
fn voices_are_staggered_by_one_grain() {
    let mut s: GrainScheduler<f32> = GrainScheduler::new(0.0);
    let out = graindr::ring::CircularBuffer::new(64, 0.0f32);
    for _ in 0..15 {
        s.tick(&out, 8, 6, 8.0, 1, false, PlaybackDirection::Forward);
    }
    // the first voice restarted at sample 14; the second now sits one grain on
    assert_eq!(s.first.read_index, 1);
    assert_eq!(s.first.read_offset, 0.0);
    assert_eq!(s.second.read_offset, 8.0);
}

#[test]
fn alternate_direction_reverses_second_voice() {
    let mut s: GrainScheduler<f32> = GrainScheduler::new(0.0);
    let out = graindr::ring::CircularBuffer::new(64, 0.0f32);
    let plan = s.tick(&out, 8, 6, 8.0, 1, false, PlaybackDirection::Alternate);
    assert!(!plan.first.unwrap().reverse);
    assert!(plan.second.unwrap().reverse);
    let plan = s.tick(&out, 8, 6, 8.0, 1, false, PlaybackDirection::Reverse);
    assert!(plan.first.unwrap().reverse);
    assert_eq!(plan.first.unwrap().read_index, 1);
}

#[test]
fn finished_voice_is_idle() {
    let mut s: GrainScheduler<f32> = GrainScheduler::new(0.0);
    let out = graindr::ring::CircularBuffer::new(64, 0.0f32);
    // a stride longer than the grain: both voices run out before a trigger
    for _ in 0..4 {
        let plan = s.tick(&out, 4, 100, 4.0, 1, false, PlaybackDirection::Forward);
        assert!(plan.first.is_some() && plan.second.is_some());
    }
    let plan = s.tick(&out, 4, 100, 4.0, 1, false, PlaybackDirection::Forward);
    assert!(plan.first.is_none() && plan.second.is_none());
}

#[test]
fn core_sizes_buffers_for_worst_case() {
    let core: GranularCore<f32, f32> = GranularCore::new(100, 2, 0.0, 0.0);
    assert_eq!(core.input_buffer.capacity(), 512);
    assert_eq!(core.output_buffer.capacity(), 512);
    let core: GranularCore<f32, f32> = GranularCore::new(48000, 2, 0.0, 0.0);
    assert_eq!(core.input_buffer.capacity(), 262144);
    assert_eq!(core.output_buffer.capacity(), 262144);
}

#[test]
fn core_reset_returns_to_silence() {
    let mut core: GranularCore<f32, f32> = GranularCore::new(16, 2, 0.0, 0.0);
    for t in 0..40 {
        let plan = core.schedule(8, 6, 8.0, 3, t == 20, PlaybackDirection::Forward);
        for _ in 0..plan.resample_count {
            core.output_buffer.write(0.25);
        }
        core.input_buffer.write(1.0);
    }
    assert_eq!(core.scheduler.stretch_ctr, 1);
    core.reset(0.0);
    for d in 0..100 {
        assert_eq!(core.input_buffer.read(d), 0.0);
        assert_eq!(core.output_buffer.read(d), 0.0);
    }
    assert_eq!(core.scheduler.written_samples_ctr, 0);
    assert_eq!(core.scheduler.stretch_ctr, 0);
    assert_eq!(core.scheduler.current_stretch_factor(), 3);
    assert_eq!(core.scheduler.first.read_index, 0);
    assert_eq!(core.scheduler.first.stretch_multiplier, 1);
    assert_eq!(core.scheduler.second.stretch_multiplier, 1);
    assert!(!core.scheduler.second.trigger_stretch);
    assert_eq!(core.scheduler.next_stretch_factor, core.scheduler.stretch_factor);
}
