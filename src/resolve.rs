//! Room layouts in canonical form, and the set of identifiers they name.

use vstd::prelude::*;
use crate::uuid::{canonical, canonicalize, is_nil, is_nil_uuid};

verus! {

/// A room layout with its identifiers in canonical text form.
#[derive(Clone, Debug)]
pub struct RoomLayout {
    /// The floor, absent where the runtime gave the all-zero identifier.
    pub floor: Option<String>,
    /// The ceiling, absent where the runtime gave the all-zero identifier.
    pub ceiling: Option<String>,
    /// The walls, in the order that the runtime returned them.
    pub walls: Vec<String>,
}

/// The canonical form of an identifier, or none for the all-zero one.
pub open spec fn id_of(bytes: Seq<u8>) -> Option<Seq<char>> {
    if is_nil(bytes) {
        None
    } else {
        Some(canonical(bytes))
    }
}

/// The text that an optional identifier holds.
pub open spec fn opt_view(o: Option<String>) -> Option<Seq<char>> {
    match o {
        Some(s) => Some(s@),
        None => None,
    }
}

/// The texts of a sequence of strings.
pub open spec fn views(v: Seq<String>) -> Seq<Seq<char>> {
    v.map_values(|s: String| s@)
}

/// What a layout is, on the raw identifiers that the runtime reported.
pub open spec fn layout_matches(r: RoomLayout, floor: Seq<u8>, ceiling: Seq<u8>, walls: Seq<[u8; 16]>) -> bool {
    &&& opt_view(r.floor) == id_of(floor)
    &&& opt_view(r.ceiling) == id_of(ceiling)
    &&& r.walls@.len() == walls.len()
    &&& forall|i: int| 0 <= i < walls.len() ==> #[trigger] r.walls@[i]@ == canonical(walls[i]@)
}

/// The floor and ceiling identifiers that a layout names.
pub open spec fn layout_ids(r: RoomLayout) -> Set<Seq<char>> {
    Set::new(|s: Seq<char>| opt_view(r.floor) == Some(s) || opt_view(r.ceiling) == Some(s))
}

/// The floor and ceiling identifiers that any of the layouts names.
pub open spec fn anchor_ids(layouts: Seq<RoomLayout>) -> Set<Seq<char>> {
    Set::new(|s: Seq<char>| exists|k: int| 0 <= k < layouts.len() && #[trigger] layout_ids(layouts[k]).contains(s))
}

/// The canonical form of an identifier, or `None` for the all-zero one.
pub fn optional_id(bytes: &[u8; 16]) -> (r: Option<String>)
    ensures
        opt_view(r) == id_of(bytes@),
{
    if is_nil_uuid(bytes) {
        None
    } else {
        Some(canonicalize(bytes))
    }
}

/// Builds a room layout from the identifiers that the runtime reported.
pub fn resolve_room_layout(floor: &[u8; 16], ceiling: &[u8; 16], walls: &Vec<[u8; 16]>) -> (r: RoomLayout)
    ensures
        layout_matches(r, floor@, ceiling@, walls@),
{
    let mut wall_ids: Vec<String> = Vec::new();
    let mut i: usize = 0;
    while i < walls.len()
        invariant
            i <= walls@.len(),
            wall_ids@.len() == i,
            forall|j: int| 0 <= j < i ==> #[trigger] wall_ids@[j]@ == canonical(walls@[j]@),
        decreases walls@.len() - i,
    {
        wall_ids.push(canonicalize(&walls[i]));
        i = i + 1;
    }
    RoomLayout { floor: optional_id(floor), ceiling: optional_id(ceiling), walls: wall_ids }
}

/// Adds `s` to `ids` unless a string with the same text is already there.
fn insert_unique(ids: &mut Vec<String>, s: &String)
    requires
        views(old(ids)@).no_duplicates(),
    ensures
        views(final(ids)@).no_duplicates(),
        views(final(ids)@).to_set() == views(old(ids)@).to_set().insert(s@),
{
    let mut i: usize = 0;
    while i < ids.len()
        invariant
            i <= ids@.len(),
            ids@ == old(ids)@,
            views(ids@).no_duplicates(),
            forall|j: int| 0 <= j < i ==> (#[trigger] ids@[j])@ != s@,
        decreases ids@.len() - i,
    {
        if ids[i] == *s {
            assert(views(ids@)[i as int] == s@);
            assert(views(ids@).to_set() =~= views(ids@).to_set().insert(s@));
            return;
        }
        i = i + 1;
    }
    let ghost before = ids@;
    ids.push(s.clone());
    assert(views(ids@) =~= views(before).push(s@));
    assert(!views(before).contains(s@)) by {
        if views(before).contains(s@) {
            let j = choose|j: int| 0 <= j < views(before).len() && views(before)[j] == s@;
            assert(before[j]@ == s@);
        }
    }
    proof {
        views(before).lemma_push_to_set_commute(s@);
    }
}

/// The distinct floor and ceiling identifiers of the layouts, each once.
pub fn collect_anchor_ids(layouts: &Vec<RoomLayout>) -> (r: Vec<String>)
    ensures
        views(r@).no_duplicates(),
        views(r@).to_set() == anchor_ids(layouts@),
{
    let mut ids: Vec<String> = Vec::new();
    let mut i: usize = 0;
    assert(views(ids@).to_set() =~= Set::empty());
    while i < layouts.len()
        invariant
            i <= layouts@.len(),
            views(ids@).no_duplicates(),
            views(ids@).to_set() == anchor_ids(layouts@.take(i as int)),
        decreases layouts@.len() - i,
    {
        let ghost before = views(ids@).to_set();
        let layout = &layouts[i];
        match &layout.floor {
            Some(s) => insert_unique(&mut ids, s),
            None => {},
        }
        match &layout.ceiling {
            Some(s) => insert_unique(&mut ids, s),
            None => {},
        }
        assert(views(ids@).to_set() =~= before.union(layout_ids(layouts@[i as int])));
        assert(anchor_ids(layouts@.take(i as int + 1)) =~= anchor_ids(layouts@.take(i as int)).union(
            layout_ids(layouts@[i as int]),
        )) by {
            let t = layouts@.take(i as int + 1);
            assert forall|s: Seq<char>| anchor_ids(t).contains(s) implies anchor_ids(
                layouts@.take(i as int),
            ).union(layout_ids(layouts@[i as int])).contains(s) by {
                let k = choose|k: int| 0 <= k < t.len() && #[trigger] layout_ids(t[k]).contains(s);
                if k < i {
                    assert(layouts@.take(i as int)[k] == t[k]);
                }
            }
            assert forall|s: Seq<char>| anchor_ids(layouts@.take(i as int)).union(
                layout_ids(layouts@[i as int]),
            ).contains(s) implies anchor_ids(t).contains(s) by {
                if layout_ids(layouts@[i as int]).contains(s) {
                    assert(t[i as int] == layouts@[i as int]);
                } else {
                    let k = choose|k: int| 0 <= k < i && #[trigger] layout_ids(layouts@.take(i as int)[k]).contains(s);
                    assert(t[k] == layouts@.take(i as int)[k]);
                }
            }
        }
        i = i + 1;
    }
    assert(layouts@.take(layouts@.len() as int) =~= layouts@);
    ids
}

} // verus!
