//! The filter chain that scopes a space query.
//!
//! The chain is a sequence of nodes: each node's "next" is the node after it,
//! and the last has none. It is built whole for each query.

use vstd::prelude::*;

verus! {

/// Most matching entities that one query asks for.
pub const MAX_QUERY_RESULTS: u32 = 100;

/// Kinds of component that a space can carry.
#[derive(Clone, Copy, Debug, PartialEq, Eq, Structural)]
pub enum ComponentType {
    Locatable,
    Storable,
    Sharable,
    Bounded2d,
    Bounded3d,
    SemanticLabels,
    RoomLayout,
    SpaceContainer,
}

/// Where persisted spaces are kept.
#[derive(Clone, Copy, Debug, PartialEq, Eq, Structural)]
pub enum StorageLocation {
    Local,
    Cloud,
}

/// One node of a filter chain; each kind has its own payload.
#[derive(Clone, Copy, Debug, PartialEq, Eq, Structural)]
pub enum FilterNode {
    /// The base filter header.
    Base,
    /// Spaces that carry a component of this type.
    Component(ComponentType),
    /// Spaces kept in this storage location.
    Storage(StorageLocation),
}

/// A space query: the filter chain, a cap on the results, and a timeout.
#[derive(Clone, Debug)]
pub struct SpaceQuery {
    pub filter: Vec<FilterNode>,
    pub max_results: u32,
    /// Zero: the query is submitted without waiting.
    pub timeout_nanos: i64,
}

/// The chain that selects room layouts kept locally.
pub open spec fn room_layout_chain() -> Seq<FilterNode> {
    seq![
        FilterNode::Base,
        FilterNode::Component(ComponentType::RoomLayout),
        FilterNode::Storage(StorageLocation::Local),
    ]
}

/// Builds the chain base filter, then room-layout component, then local
/// storage.
pub fn compose_room_layout_filter() -> (r: Vec<FilterNode>)
    ensures
        r@ == room_layout_chain(),
{
    let mut v: Vec<FilterNode> = Vec::new();
    v.push(FilterNode::Base);
    v.push(FilterNode::Component(ComponentType::RoomLayout));
    v.push(FilterNode::Storage(StorageLocation::Local));
    assert(v@ =~= room_layout_chain());
    v
}

/// The query of one cycle: the room-layout chain, at most a hundred
/// results, zero timeout.
pub fn room_layout_query() -> (r: SpaceQuery)
    ensures
        r.filter@ == room_layout_chain(),
        r.max_results == MAX_QUERY_RESULTS,
        r.timeout_nanos == 0,
{
    SpaceQuery { filter: compose_room_layout_filter(), max_results: MAX_QUERY_RESULTS, timeout_nanos: 0 }
}

} // verus!
