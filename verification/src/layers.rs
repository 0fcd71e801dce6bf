//! Object layers, broad phase layers and the filters that decide which
//! layers may collide.
use vstd::prelude::*;

verus! {

/// An object layer: the narrow-phase collision group a body belongs to
/// (Jolt's 16-bit object layer value).
pub type ObjectLayer = u16;

/// A broad phase layer: the index of one spatial acceleration tree.
pub type BroadPhaseLayer = u8;

/// The object layer of static bodies.
pub const OBJECT_LAYER_STATIC: ObjectLayer = 0;

/// The object layer of moving (dynamic or kinematic) bodies.
pub const OBJECT_LAYER_DYNAMIC: ObjectLayer = 1;

/// The number of object layers in use.
pub const NUM_OBJECT_LAYERS: u32 = 2;

/// The broad phase tree that holds static bodies.
pub const BROAD_PHASE_LAYER_STATIC: BroadPhaseLayer = 0;

/// The broad phase tree that holds moving bodies.
pub const BROAD_PHASE_LAYER_DYNAMIC: BroadPhaseLayer = 1;

/// The number of broad phase trees.
pub const NUM_BROAD_PHASE_LAYERS: u32 = 2;

/// The broad phase tree in which bodies of `layer` are stored: static bodies
/// in the static tree, every other layer in the dynamic tree.
pub open spec fn broad_phase_layer_of(layer: ObjectLayer) -> BroadPhaseLayer {
    if layer == OBJECT_LAYER_STATIC {
        BROAD_PHASE_LAYER_STATIC
    } else {
        BROAD_PHASE_LAYER_DYNAMIC
    }
}

/// Whether a body of object layer `layer1` must test the broad phase tree
/// `layer2`: static bodies only look at the dynamic tree, every other layer
/// looks at both trees.
pub open spec fn object_may_query_tree(layer1: ObjectLayer, layer2: BroadPhaseLayer) -> bool {
    if layer1 == OBJECT_LAYER_STATIC {
        layer2 == BROAD_PHASE_LAYER_DYNAMIC
    } else {
        true
    }
}

/// Whether bodies of two object layers may collide in the narrow phase:
/// every pair except two static layers.
pub open spec fn layers_may_collide(layer1: ObjectLayer, layer2: ObjectLayer) -> bool {
    !(layer1 == OBJECT_LAYER_STATIC && layer2 == OBJECT_LAYER_STATIC)
}

/// Maps object layers to their broad phase acceleration tree.
pub struct SimpleBroadPhaseLayer;

impl SimpleBroadPhaseLayer {
    pub fn get_num_broad_phase_layers(&self) -> (n: u32)
        ensures
            n == NUM_BROAD_PHASE_LAYERS,
    {
        NUM_BROAD_PHASE_LAYERS
    }

    pub fn get_broad_phase_layer(&self, layer: ObjectLayer) -> (tree: BroadPhaseLayer)
        ensures
            tree == broad_phase_layer_of(layer),
    {
        if layer == OBJECT_LAYER_STATIC {
            BROAD_PHASE_LAYER_STATIC
        } else {
            BROAD_PHASE_LAYER_DYNAMIC
        }
    }
}

/// Determines if an object layer should query a broad phase spatial tree.
pub struct SimpleObjectVsBroadPhaseLayerFilter;

impl SimpleObjectVsBroadPhaseLayerFilter {
    pub fn should_collide(&self, layer1: ObjectLayer, layer2: BroadPhaseLayer) -> (r: bool)
        ensures
            r == object_may_query_tree(layer1, layer2),
    {
        match layer1 {
            // Static objects only need to test against the dynamic tree
            OBJECT_LAYER_STATIC => layer2 == BROAD_PHASE_LAYER_DYNAMIC,
            // Dynamic objects test against both static and dynamic trees
            _ => true,
        }
    }
}

/// Determines if two object layers can collide in narrowphase.
pub struct SimpleObjectLayerPairFilter;

impl SimpleObjectLayerPairFilter {
    pub fn should_collide(&self, layer1: ObjectLayer, layer2: ObjectLayer) -> (r: bool)
        ensures
            r == layers_may_collide(layer1, layer2),
    {
        !(layer1 == OBJECT_LAYER_STATIC && layer2 == OBJECT_LAYER_STATIC)
    }
}

/// Every object layer is mapped to one of the declared broad phase trees.
pub proof fn law_broad_phase_layer_in_range(layer: ObjectLayer)
    ensures
        (broad_phase_layer_of(layer) as u32) < NUM_BROAD_PHASE_LAYERS,
{
}

/// The narrow-phase pair filter does not depend on the order of its arguments.
pub proof fn law_pair_filter_symmetric(layer1: ObjectLayer, layer2: ObjectLayer)
    ensures
        layers_may_collide(layer1, layer2) == layers_may_collide(layer2, layer1),
{
}

/// The broad phase filter agrees with the pair filter: a body of `layer1`
/// looks into the tree that holds bodies of `layer2` exactly when the two
/// layers may collide, so the broad phase never drops a pair that the
/// narrow phase would accept, and never keeps one that it would reject.
pub proof fn law_broad_phase_agrees_with_pair_filter(layer1: ObjectLayer, layer2: ObjectLayer)
    ensures
        object_may_query_tree(layer1, broad_phase_layer_of(layer2)) == layers_may_collide(
            layer1,
            layer2,
        ),
{
}

/// Static bodies never collide with each other; a body of any other layer
/// collides with bodies of every layer.
pub proof fn law_only_static_pairs_are_filtered(layer1: ObjectLayer, layer2: ObjectLayer)
    ensures
        !layers_may_collide(OBJECT_LAYER_STATIC, OBJECT_LAYER_STATIC),
        layer1 != OBJECT_LAYER_STATIC ==> layers_may_collide(layer1, layer2),
        layer2 != OBJECT_LAYER_STATIC ==> layers_may_collide(layer1, layer2),
{
}

} // verus!
