use noise_explorer::mode_selector::{ModeChange, ModeIntent, ModeSelector};
use noise_explorer::noise::{new_noise_fn_by_index, NoiseKind, NOISE_FN_COUNT, NOISE_SEED};
use noise_explorer::visualizer::{VisualizerKind, VISUALIZER_COUNT};

#[test]
fn noise_catalog_holds_nine_generators_in_order() {
    assert_eq!(NOISE_FN_COUNT, 9);
    assert_eq!(new_noise_fn_by_index(0), NoiseKind::DomainWarping);
    assert_eq!(new_noise_fn_by_index(1), NoiseKind::Billow);
    assert_eq!(new_noise_fn_by_index(2), NoiseKind::BasicMulti);
    assert_eq!(new_noise_fn_by_index(3), NoiseKind::Fbm);
    assert_eq!(new_noise_fn_by_index(4), NoiseKind::HybridMulti);
    assert_eq!(new_noise_fn_by_index(5), NoiseKind::OpenSimplex);
    assert_eq!(new_noise_fn_by_index(6), NoiseKind::Perlin);
    assert_eq!(new_noise_fn_by_index(7), NoiseKind::Value);
    assert_eq!(new_noise_fn_by_index(8), NoiseKind::Worley);
}

#[test]
fn noise_index_round_trips() {
    for index in 0..NOISE_FN_COUNT {
        assert_eq!(new_noise_fn_by_index(index).index(), index);
    }
}

#[test]
fn only_domain_warping_has_no_seed() {
    assert_eq!(NOISE_SEED, 0);
    assert_eq!(NoiseKind::DomainWarping.seed(), None);
    for index in 1..NOISE_FN_COUNT {
        assert_eq!(new_noise_fn_by_index(index).seed(), Some(0));
    }
}

#[test]
fn visualizers_are_line_segments_and_circles() {
    assert_eq!(VISUALIZER_COUNT, 2);
    assert_eq!(VisualizerKind::from_index(0), VisualizerKind::LineSegments);
    assert_eq!(VisualizerKind::from_index(1), VisualizerKind::Circles);
    assert_eq!(VisualizerKind::LineSegments.index(), 0);
    assert_eq!(VisualizerKind::Circles.index(), 1);
}

#[test]
fn selector_starts_at_the_first_variants() {
    let selector = ModeSelector::new();
    assert_eq!(selector.active_noise_index(), 0);
    assert_eq!(selector.active_visualizer_index(), 0);
    assert_eq!(selector.active_noise(), NoiseKind::DomainWarping);
    assert_eq!(selector.active_visualizer(), VisualizerKind::LineSegments);
}

#[test]
fn next_noise_walks_the_catalog_and_wraps() {
    let mut selector = ModeSelector::new();
    for index in 1..NOISE_FN_COUNT {
        let kind = selector.next_noise();
        assert_eq!(kind, new_noise_fn_by_index(index));
        assert_eq!(selector.active_noise_index(), index);
    }
    assert_eq!(selector.next_noise(), NoiseKind::DomainWarping);
    assert_eq!(selector.active_noise_index(), 0);
}

#[test]
fn previous_noise_from_the_first_yields_the_last() {
    let mut selector = ModeSelector::new();
    assert_eq!(selector.previous_noise(), NoiseKind::Worley);
    assert_eq!(selector.active_noise_index(), 8);
    assert_eq!(selector.previous_noise(), NoiseKind::Value);
    assert_eq!(selector.active_noise_index(), 7);
}

#[test]
fn next_visualizer_cycle_returns_to_the_active_visualizer() {
    let mut selector = ModeSelector::new();
    let active = selector.active_visualizer();
    let mut built = Vec::new();
    for _ in 0..VISUALIZER_COUNT {
        built.push(selector.next_visualizer());
    }
    assert_eq!(built, vec![VisualizerKind::Circles, VisualizerKind::LineSegments]);
    assert_eq!(selector.active_visualizer(), active);
    assert_eq!(built[VISUALIZER_COUNT - 1], active);

    selector.next_visualizer();
    let active = selector.active_visualizer();
    assert_eq!(active, VisualizerKind::Circles);
    for _ in 0..VISUALIZER_COUNT {
        selector.next_visualizer();
    }
    assert_eq!(selector.active_visualizer(), active);
}

#[test]
fn previous_visualizer_wraps() {
    let mut selector = ModeSelector::new();
    assert_eq!(selector.previous_visualizer(), VisualizerKind::Circles);
    assert_eq!(selector.previous_visualizer(), VisualizerKind::LineSegments);
    assert_eq!(selector.active_visualizer_index(), 0);
}

#[test]
fn next_noise_cycle_returns_to_the_active_generator() {
    let mut selector = ModeSelector::new();
    selector.next_noise();
    selector.next_noise();
    let active = selector.active_noise();
    for _ in 0..NOISE_FN_COUNT {
        selector.next_noise();
    }
    assert_eq!(selector.active_noise(), active);
    assert_eq!(selector.active_noise(), NoiseKind::BasicMulti);
}

#[test]
fn apply_says_what_to_build() {
    let mut selector = ModeSelector::new();
    assert_eq!(selector.apply(ModeIntent::NextNoise), ModeChange::Noise(NoiseKind::Billow));
    assert_eq!(
        selector.apply(ModeIntent::NextVisualizer),
        ModeChange::Visualizer(VisualizerKind::Circles)
    );
    assert_eq!(
        selector.apply(ModeIntent::PreviousNoise),
        ModeChange::Noise(NoiseKind::DomainWarping)
    );
    assert_eq!(
        selector.apply(ModeIntent::PreviousNoise),
        ModeChange::Noise(NoiseKind::Worley)
    );
    assert_eq!(
        selector.apply(ModeIntent::PreviousVisualizer),
        ModeChange::Visualizer(VisualizerKind::LineSegments)
    );
    assert_eq!(selector.active_noise_index(), 8);
    assert_eq!(selector.active_visualizer_index(), 0);
}

#[test]
fn switching_one_selection_leaves_the_other() {
    let mut selector = ModeSelector::new();
    selector.next_noise();
    selector.next_noise();
    selector.next_visualizer();
    assert_eq!(selector.active_noise_index(), 2);
    selector.previous_visualizer();
    assert_eq!(selector.active_noise_index(), 2);
    selector.previous_noise();
    assert_eq!(selector.active_visualizer_index(), 0);
}
