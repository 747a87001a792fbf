use alien_daw::graph::{accumulate, average, mix, Mixer, SynthType};
use alien_daw::synth::{limit, Clip, Silence, Synth};
use alien_daw::volume::VolumeControl;

fn gain(x: f32) -> VolumeControl {
    VolumeControl::try_from(x.to_bits()).unwrap()
}

fn mixed(children: &[(f32, f32)]) -> f32 {
    let plain: Vec<(u32, VolumeControl)> =
        children.iter().map(|(s, w)| (s.to_bits(), gain(*w))).collect();
    f32::from_bits(mix(&plain))
}

fn by_hardware(children: &[(f32, f32)]) -> f32 {
    children.iter().fold(0.0f32, |acc, (s, w)| acc + s * w) / children.len() as f32
}

#[test]
fn silence_gives_zero() {
    let mut s = Silence;
    for _ in 0..4 {
        assert_eq!(s.sample(), 0.0f32.to_bits());
    }
}

#[test]
fn boxed_generator_gives_what_it_holds() {
    let mut b = Box::new(Silence);
    assert_eq!(b.sample(), 0.0f32.to_bits());
}

#[test]
fn limit_clamps_to_the_gain() {
    let m = gain(0.5);
    assert_eq!(f32::from_bits(limit(2.0f32.to_bits(), m)), 0.5);
    assert_eq!(f32::from_bits(limit((-2.0f32).to_bits(), m)), -0.5);
    assert_eq!(f32::from_bits(limit(0.25f32.to_bits(), m)), 0.25);
    assert_eq!(f32::from_bits(limit((-0.25f32).to_bits(), m)), -0.25);
    assert_eq!(f32::from_bits(limit(0.5f32.to_bits(), m)), 0.5);
}

#[test]
fn limit_output_lies_within_the_gain() {
    let samples = [
        0.0f32, -0.0, 1.0, -1.0, 0.3, -0.3, 1.0e20, -1.0e20, f32::MAX, f32::MIN, f32::INFINITY,
        f32::NEG_INFINITY, 1.0e-40,
    ];
    for m in [0.0f32, 0.25, 1.0, 3.5, f32::MAX] {
        for s in samples {
            let out = f32::from_bits(limit(s.to_bits(), gain(m)));
            assert!(-m <= out && out <= m, "{s:?} limited by {m:?} gave {out:?}");
            assert_eq!(out.to_bits(), s.clamp(-m, m).to_bits());
        }
    }
}

#[test]
fn limit_with_zero_gain_gives_zero() {
    assert_eq!(f32::from_bits(limit(0.7f32.to_bits(), gain(0.0))), 0.0);
    assert_eq!(f32::from_bits(limit((-0.7f32).to_bits(), gain(0.0))), 0.0);
}

#[test]
fn limit_passes_a_nan_through() {
    let n = f32::NAN.to_bits();
    assert_eq!(limit(n, gain(1.0)), n);
}

#[test]
fn mixer_of_one_and_minus_one_gives_zero() {
    assert_eq!(mixed(&[(1.0, 1.0), (-1.0, 1.0)]), 0.0);
}

#[test]
fn mixer_of_one_child_gives_sample_times_weight() {
    for (c, w) in [(0.5f32, 0.5f32), (1.0, 1.0), (-0.75, 2.0), (0.1, 0.3), (3.0, 0.0), (1.0e-3, 7.0)] {
        assert_eq!(mixed(&[(c, w)]), c * w, "{c:?} weighted {w:?}");
    }
}

#[test]
fn mixer_without_children_gives_zero() {
    assert_eq!(mixed(&[]).to_bits(), 0.0f32.to_bits());
    let mut m = Mixer::new();
    assert_eq!(m.sample(), 0.0f32.to_bits());
    assert_eq!(average(1.0f32.to_bits(), 0), 0.0f32.to_bits());
}

#[test]
fn mixer_divides_by_the_count_not_by_the_weights() {
    assert_eq!(mixed(&[(1.0, 0.5), (1.0, 0.5)]), 0.5);
    assert_eq!(mixed(&[(1.0, 2.0), (1.0, 2.0), (1.0, 2.0), (1.0, 2.0)]), 2.0);
    assert_eq!(mixed(&[(0.6, 1.0), (0.2, 0.0), (0.4, 0.5)]), (0.6f32 + 0.0 + 0.4 * 0.5) / 3.0);
}

#[test]
fn mixing_agrees_with_the_hardware() {
    let cases: Vec<Vec<(f32, f32)>> = vec![
        vec![(0.1, 0.2)],
        vec![(0.1, 0.2), (0.3, 0.4)],
        vec![(1.0e-3, 3.0), (-2.5, 0.125), (0.333, 0.777)],
        vec![(1.0, 1.0); 7],
        vec![(0.9, 0.1), (-0.9, 0.1), (0.5, 0.25), (-0.125, 4.0), (1.0e-20, 1.0e10)],
        vec![(f32::MAX, 2.0), (1.0, 1.0)],
        vec![(-0.0, 1.0)],
    ];
    for case in cases {
        assert_eq!(mixed(&case).to_bits(), by_hardware(&case).to_bits(), "{case:?}");
    }
}

#[test]
fn accumulate_adds_the_weighted_sample() {
    let got = accumulate(0.25f32.to_bits(), 0.5f32.to_bits(), gain(3.0));
    assert_eq!(f32::from_bits(got), 0.25 + 0.5 * 3.0);
    let got = accumulate(0.1f32.to_bits(), 0.7f32.to_bits(), gain(0.3));
    assert_eq!(got, (0.1f32 + 0.7f32 * 0.3f32).to_bits());
}

#[test]
fn average_divides_by_the_count() {
    assert_eq!(f32::from_bits(average(3.0f32.to_bits(), 2)), 1.5);
    assert_eq!(f32::from_bits(average(1.0f32.to_bits(), 3)), 1.0f32 / 3.0);
    assert_eq!(average(1.0f32.to_bits(), 16_777_217), (1.0f32 / 16_777_217usize as f32).to_bits());
}

#[test]
fn mixer_children_can_be_added_and_removed() {
    let mut m = Mixer::default();
    assert_eq!(m.len(), 0);
    m.push(SynthType::Silence, gain(1.0));
    m.push(SynthType::Mixer(Mixer::new()), gain(0.5));
    assert_eq!(m.len(), 2);
    let taken = m.remove(0).expect("the first child");
    assert!(matches!(taken.0, SynthType::Silence));
    assert_eq!(f32::from_bits(taken.1.value()), 1.0);
    assert_eq!(m.len(), 1);
    assert!(m.remove(5).is_none());
    assert_eq!(m.len(), 1);
}

#[test]
fn mixer_children_can_be_replaced() {
    let mut m = Mixer::new();
    m.push(SynthType::Silence, gain(1.0));
    m.push(SynthType::Silence, gain(2.0));
    m.push(SynthType::Silence, gain(3.0));
    let old = m.replace(0, SynthType::Mixer(Mixer::new()), gain(9.0)).expect("the first child");
    assert_eq!(f32::from_bits(old.1.value()), 1.0);
    assert_eq!(m.len(), 3);
    let first = m.remove(0).unwrap();
    assert!(matches!(first.0, SynthType::Mixer(_)));
    assert_eq!(f32::from_bits(first.1.value()), 9.0);
    assert_eq!(f32::from_bits(m.remove(0).unwrap().1.value()), 2.0);
    assert_eq!(f32::from_bits(m.remove(0).unwrap().1.value()), 3.0);
    let unused = m.replace(4, SynthType::Silence, gain(0.5)).unwrap_err();
    assert_eq!(f32::from_bits(unused.1.value()), 0.5);
}

#[test]
fn nested_graph_gives_zero() {
    let mut inner = Mixer::new();
    inner.push(SynthType::Silence, gain(1.0));
    inner.push(SynthType::Silence, gain(0.25));
    let clip = SynthType::Clip(Clip { inner: Box::new(SynthType::Mixer(inner)), max_vol: gain(0.5) });
    let mut root = Mixer::new();
    root.push(clip, gain(2.0));
    root.push(SynthType::Silence, gain(1.0));
    let mut graph = Clip { inner: root, max_vol: VolumeControl::default() };
    for _ in 0..3 {
        assert_eq!(f32::from_bits(graph.sample()), 0.0);
    }
    assert_eq!(graph.inner.len(), 2);
}

#[test]
fn default_graph_gives_a_steady_stream_of_zero() {
    let mut graph: Clip<Mixer> = Clip::default();
    assert_eq!(f32::from_bits(graph.max_vol.value()), 1.0);
    assert_eq!(graph.inner.len(), 0);
    for _ in 0..64 {
        assert_eq!(graph.sample(), 0.0f32.to_bits());
    }
}

#[test]
fn clones_hold_the_same_graph() {
    let mut m = Mixer::new();
    m.push(SynthType::Silence, gain(0.5));
    m.push(SynthType::Clip(Clip { inner: Box::new(SynthType::Silence), max_vol: gain(2.0) }), gain(1.5));
    let graph = Clip { inner: m, max_vol: gain(0.75) };
    let mut copy = graph.clone();
    assert_eq!(copy.inner.len(), 2);
    assert_eq!(copy.max_vol.value(), graph.max_vol.value());
    let second = copy.inner.remove(1).unwrap();
    assert_eq!(f32::from_bits(second.1.value()), 1.5);
    match second.0 {
        SynthType::Clip(c) => assert_eq!(f32::from_bits(c.max_vol.value()), 2.0),
        _ => panic!("the second child was a limiter"),
    }
    assert_eq!(graph.inner.len(), 2);
}

fn next_random(state: &mut u64) -> u32 {
    *state = state.wrapping_mul(6364136223846793005).wrapping_add(1442695040888963407);
    (*state >> 32) as u32
}

#[test]
fn arithmetic_agrees_with_the_hardware_on_many_encodings() {
    let mut state: u64 = 0x1234_5678_9abc_def0;
    let mut compared = 0usize;
    for _ in 0..60_000 {
        let total = next_random(&mut state);
        let sample = next_random(&mut state);
        let weight_bits = next_random(&mut state) & 0x7fff_ffff;
        let count = (next_random(&mut state) as usize % 4096) + 1;
        let Ok(weight) = VolumeControl::try_from(weight_bits) else {
            continue;
        };
        let (t, s, w) = (f32::from_bits(total), f32::from_bits(sample), f32::from_bits(weight_bits));
        let want = t + s * w;
        let got = f32::from_bits(accumulate(total, sample, weight));
        if want.is_nan() {
            assert!(got.is_nan(), "{t:?} + {s:?} * {w:?}");
        } else {
            assert_eq!(got.to_bits(), want.to_bits(), "{t:?} + {s:?} * {w:?}");
        }
        let want = t / count as f32;
        let got = f32::from_bits(average(total, count));
        if want.is_nan() {
            assert!(got.is_nan(), "{t:?} / {count}");
        } else {
            assert_eq!(got.to_bits(), want.to_bits(), "{t:?} / {count}");
        }
        compared += 1;
    }
    assert!(compared > 50_000);
}

#[test]
fn counts_are_rounded_as_the_hardware_rounds_them() {
    for count in [1usize, 2, 3, 16_777_215, 16_777_216, 16_777_217, 16_777_219, 33_554_433, 4_294_967_295] {
        let got = f32::from_bits(average(1.0f32.to_bits(), count));
        assert_eq!(got.to_bits(), (1.0f32 / count as f32).to_bits(), "count {count}");
    }
}
