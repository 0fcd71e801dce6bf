use bolt_bevy::layers::{
    SimpleBroadPhaseLayer, SimpleObjectLayerPairFilter, SimpleObjectVsBroadPhaseLayerFilter,
    BROAD_PHASE_LAYER_DYNAMIC, BROAD_PHASE_LAYER_STATIC, NUM_BROAD_PHASE_LAYERS,
    NUM_OBJECT_LAYERS, OBJECT_LAYER_DYNAMIC, OBJECT_LAYER_STATIC,
};

#[test]
fn test_simple_layers() {
    // Test the broad phase
    let broad_phase = SimpleBroadPhaseLayer;
    assert_eq!(broad_phase.get_num_broad_phase_layers(), NUM_BROAD_PHASE_LAYERS);
    assert_eq!(
        broad_phase.get_broad_phase_layer(OBJECT_LAYER_STATIC),
        BROAD_PHASE_LAYER_STATIC
    );
    assert_eq!(
        broad_phase.get_broad_phase_layer(OBJECT_LAYER_DYNAMIC),
        BROAD_PHASE_LAYER_DYNAMIC
    );

    // Test the object vs broad phase filter
    let broad_filter = SimpleObjectVsBroadPhaseLayerFilter;
    // Static objects should not query static broadphase tree
    assert!(!broad_filter.should_collide(OBJECT_LAYER_STATIC, BROAD_PHASE_LAYER_STATIC));
    // Static objects should query dynamic broadphase tree
    assert!(broad_filter.should_collide(OBJECT_LAYER_STATIC, BROAD_PHASE_LAYER_DYNAMIC));
    // Dynamic objects query both trees
    assert!(broad_filter.should_collide(OBJECT_LAYER_DYNAMIC, BROAD_PHASE_LAYER_STATIC));
    assert!(broad_filter.should_collide(OBJECT_LAYER_DYNAMIC, BROAD_PHASE_LAYER_DYNAMIC));

    // Test the Object Layer Pair filter
    let pair_filter = SimpleObjectLayerPairFilter;
    // Static vs Static should NOT collide
    assert!(!pair_filter.should_collide(OBJECT_LAYER_STATIC, OBJECT_LAYER_STATIC));
    // Dynamic vs Static and Dynamic vs Dynamic should collide
    assert!(pair_filter.should_collide(OBJECT_LAYER_STATIC, OBJECT_LAYER_DYNAMIC));
    assert!(pair_filter.should_collide(OBJECT_LAYER_DYNAMIC, OBJECT_LAYER_STATIC));
    assert!(pair_filter.should_collide(OBJECT_LAYER_DYNAMIC, OBJECT_LAYER_DYNAMIC));
}

#[test]
fn layer_counts_match_the_declared_layers() {
    assert_eq!(NUM_OBJECT_LAYERS, 2);
    assert_eq!(NUM_BROAD_PHASE_LAYERS, 2);
    assert_eq!(OBJECT_LAYER_STATIC, 0);
    assert_eq!(OBJECT_LAYER_DYNAMIC, 1);
}

#[test]
fn unknown_layers_go_to_the_dynamic_tree() {
    let broad_phase = SimpleBroadPhaseLayer;
    for layer in [2u16, 7, 255, u16::MAX] {
        assert_eq!(broad_phase.get_broad_phase_layer(layer), BROAD_PHASE_LAYER_DYNAMIC);
        assert!((broad_phase.get_broad_phase_layer(layer) as u32) < NUM_BROAD_PHASE_LAYERS);
    }
}

#[test]
fn pair_filter_is_symmetric_on_samples() {
    let pair_filter = SimpleObjectLayerPairFilter;
    let layers = [OBJECT_LAYER_STATIC, OBJECT_LAYER_DYNAMIC, 5u16, u16::MAX];
    for a in layers {
        for b in layers {
            assert_eq!(pair_filter.should_collide(a, b), pair_filter.should_collide(b, a));
        }
    }
}

#[test]
fn broad_phase_filter_agrees_with_pair_filter_on_samples() {
    let broad_phase = SimpleBroadPhaseLayer;
    let broad_filter = SimpleObjectVsBroadPhaseLayerFilter;
    let pair_filter = SimpleObjectLayerPairFilter;
    let layers = [OBJECT_LAYER_STATIC, OBJECT_LAYER_DYNAMIC, 3u16, 1000];
    for a in layers {
        for b in layers {
            assert_eq!(
                broad_filter.should_collide(a, broad_phase.get_broad_phase_layer(b)),
                pair_filter.should_collide(a, b)
            );
        }
    }
}

#[test]
fn other_layers_query_every_tree() {
    let broad_filter = SimpleObjectVsBroadPhaseLayerFilter;
    assert!(broad_filter.should_collide(9, BROAD_PHASE_LAYER_STATIC));
    assert!(broad_filter.should_collide(9, 200));
    assert!(!broad_filter.should_collide(OBJECT_LAYER_STATIC, 200));
}
