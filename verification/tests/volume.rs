use panel_core::volume::compute_volume_delta;
use panel_core::volume::resolve_default_sink;
use panel_core::volume::resolve_sink_query;
use panel_core::volume::resolve_volume_event;
use panel_core::volume::resolve_volume_events;
use panel_core::volume::sink_fraction;
use panel_core::volume::AudioError;
use panel_core::volume::Fraction;
use panel_core::volume::SinkState;
use panel_core::volume::VolumeDelta;

#[test]
fn half_to_three_quarters_is_sixteen_steps_up() {
    let sink = SinkState { level: 32, steps: 64 };
    let target = Fraction::new(75, 100).unwrap();
    assert_eq!(compute_volume_delta(sink, target), VolumeDelta::Increase(16));
}

#[test]
fn half_to_one_quarter_is_sixteen_steps_down() {
    let sink = SinkState { level: 32, steps: 64 };
    let target = Fraction::new(25, 100).unwrap();
    assert_eq!(compute_volume_delta(sink, target), VolumeDelta::Decrease(16));
}

#[test]
fn half_to_half_is_no_write() {
    let sink = SinkState { level: 32, steps: 64 };
    let target = Fraction::new(50, 100).unwrap();
    assert_eq!(compute_volume_delta(sink, target), VolumeDelta::NoChange);
}

#[test]
fn requesting_current_volume_is_no_write() {
    let sink = SinkState { level: 17, steps: 100 };
    let current = sink_fraction(sink);
    assert_eq!(compute_volume_delta(sink, current), VolumeDelta::NoChange);

    let odd = SinkState { level: 3, steps: 7 };
    assert_eq!(compute_volume_delta(odd, sink_fraction(odd)), VolumeDelta::NoChange);
}

#[test]
fn delta_rounds_to_nearest_step() {
    // From silence to one half on a 3-step device: 1.5 steps, rounded up.
    let sink = SinkState { level: 0, steps: 3 };
    let target = Fraction::new(1, 2).unwrap();
    assert_eq!(compute_volume_delta(sink, target), VolumeDelta::Increase(2));

    // From one half to silence: the same magnitude, applied down.
    let sink = SinkState { level: 2, steps: 3 };
    let target = Fraction::new(0, 1).unwrap();
    assert_eq!(compute_volume_delta(sink, target), VolumeDelta::Decrease(2));
}

#[test]
fn tiny_difference_rounds_to_zero_steps() {
    // 50% to 50.2% on 64 steps is 0.128 of a step: a zero-magnitude raise.
    let sink = SinkState { level: 32, steps: 64 };
    let target = Fraction::new(502, 1000).unwrap();
    assert_eq!(compute_volume_delta(sink, target), VolumeDelta::Increase(0));
}

#[test]
fn delta_at_the_largest_device() {
    // Full scale down to silence on the largest representable device.
    let sink = SinkState { level: u32::MAX, steps: u32::MAX };
    let target = Fraction::new(0, 1).unwrap();
    assert_eq!(compute_volume_delta(sink, target), VolumeDelta::Decrease(u32::MAX as u64));
}

#[test]
fn boosted_volume_above_full_scale() {
    // The backend can report a level above the step count (a boosted
    // device); the delta back down to full volume is still exact.
    let sink = SinkState { level: 96, steps: 64 };
    let target = Fraction::new(1, 1).unwrap();
    assert_eq!(compute_volume_delta(sink, target), VolumeDelta::Decrease(32));
}

#[test]
fn fraction_rejects_zero_denominator() {
    assert_eq!(Fraction::new(1, 0), None);
    assert_eq!(Fraction::new_clamped(1, 0), None);
}

#[test]
fn clamped_fraction_pins_overfull_requests() {
    let f = Fraction::new_clamped(7, 4).unwrap();
    assert_eq!(f.num, 4);
    assert_eq!(f.den, 4);

    let g = Fraction::new_clamped(3, 4).unwrap();
    assert_eq!(g.num, 3);
    assert_eq!(g.den, 4);
}

#[test]
fn default_sink_resolution() {
    assert_eq!(
        resolve_default_sink(Ok(Some(String::from("alsa_output.pci")))),
        Ok(String::from("alsa_output.pci"))
    );
    assert_eq!(resolve_default_sink(Ok(None)), Err(AudioError::NoDefaultSink));
    assert_eq!(resolve_default_sink(Err(())), Err(AudioError::QueryFailed));
}

#[test]
fn sink_query_resolution() {
    let sink = SinkState { level: 10, steps: 20 };
    assert_eq!(resolve_sink_query(Ok(Some(sink))), Ok(Fraction { num: 10, den: 20 }));
    assert_eq!(resolve_sink_query(Ok(None)), Err(AudioError::SinkNotFound));
    assert_eq!(resolve_sink_query(Err(())), Err(AudioError::QueryFailed));
}

#[test]
fn failed_query_emits_nothing() {
    assert_eq!(resolve_volume_event(Err(AudioError::QueryFailed)), None);
    assert_eq!(resolve_volume_event(Err(AudioError::NoDefaultSink)), None);
    assert_eq!(resolve_volume_event(Err(AudioError::SinkNotFound)), None);
    let f = Fraction { num: 1, den: 2 };
    assert_eq!(resolve_volume_event(Ok(f)), Some(f));
}

#[test]
fn feed_drops_failures_and_keeps_order() {
    let half = Fraction { num: 1, den: 2 };
    let full = Fraction { num: 1, den: 1 };
    let quarter = Fraction { num: 1, den: 4 };
    let qs = vec![
        Ok(half),
        Err(AudioError::QueryFailed),
        Ok(full),
        Err(AudioError::NoDefaultSink),
        Err(AudioError::SinkNotFound),
        Ok(quarter),
    ];
    assert_eq!(resolve_volume_events(&qs), vec![half, full, quarter]);
}

#[test]
fn feed_of_only_failures_is_empty_but_not_an_error() {
    let qs = vec![Err(AudioError::QueryFailed), Err(AudioError::QueryFailed)];
    assert_eq!(resolve_volume_events(&qs), Vec::<Fraction>::new());
}
