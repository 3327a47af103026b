//! One query cycle, from capability probe to resolved room layouts.
//!
//! The host starts a cycle, performs each command it is given against the
//! native runtime, and hands the report of that call back; the cycle decides
//! the next command. The stages run
//! probe, query, retrieval of the matching spaces, and for each room-layout
//! space a retrieval of its layout, whose wall list is sized by the
//! count-then-fill protocol. `Resolved`, `Unsupported` and `Failed` are final.

use vstd::prelude::*;
use crate::error::{SceneError, check_status};
use crate::filter::{SpaceQuery, room_layout_chain, room_layout_query, MAX_QUERY_RESULTS};
use crate::probe::{
    FeatureTables, ProbeAction, PropertiesReport, probe_plan, probe_plan_spec, supports_scene, NATIVE_TRUE,
};
use crate::resolve::{RoomLayout, layout_matches, resolve_room_layout};
use crate::retrieve::{
    CallReport, RetrievalAction, RetrievalState, begin_retrieval, next_retrieval, retrieval_step,
    take_written,
};

verus! {

/// One result record of a space query.
#[derive(Clone, Copy, Debug)]
pub struct SpaceRecord {
    /// The runtime's handle of the space.
    pub space: u64,
    /// The space's identifier.
    pub uuid: [u8; 16],
    /// Whether the space carries a room-layout component.
    pub room_layout: bool,
}

/// Where a cycle stands.
#[derive(Clone, Copy, Debug, PartialEq, Eq, Structural)]
pub enum Stage {
    /// Waiting for the host to say which feature tables exist.
    AwaitingTables,
    /// Waiting for the system-properties call.
    AwaitingProperties { tables: FeatureTables },
    /// Waiting for the query to be submitted.
    Issuing,
    /// Retrieving the results of the query with this request identifier.
    Retrieving { request: u64, retrieval: RetrievalState },
    /// Retrieving the layout of the space at this index of the results.
    Resolving { index: usize, retrieval: RetrievalState },
    /// Every room layout was resolved.
    Resolved,
    /// The runtime lacks spatial-entity support.
    Unsupported,
    /// A call failed.
    Failed { error: SceneError },
}

/// What the host reports back.
#[derive(Clone, Debug)]
pub enum Event {
    /// Which extension function tables the connection exposes.
    Tables(FeatureTables),
    /// The status of the system-properties call and the capability flag it filled.
    Properties { status: i32, supports_spatial_entity: u32 },
    /// The status of the query call and the request identifier it gave.
    Issued { status: i32, request: u64 },
    /// A results call: its report and the records buffer of the capacity asked.
    Results { report: CallReport, records: Vec<SpaceRecord> },
    /// A room-layout call: its report, the floor and ceiling identifiers, and
    /// the wall buffer of the capacity asked.
    Layout { report: CallReport, floor: [u8; 16], ceiling: [u8; 16], walls: Vec<[u8; 16]> },
}

/// What the host does next.
#[derive(Clone, Debug)]
pub enum Command {
    /// Look up the extension function tables.
    ReadFeatureTables,
    /// Ask for the system properties with the spatial-entity structure chained in.
    GetSystemProperties,
    /// Submit this space query.
    QuerySpaces(SpaceQuery),
    /// Retrieve the results of the request into a buffer of this capacity.
    RetrieveResults { request: u64, capacity: u32 },
    /// Get the room layout of the space into a wall buffer of this capacity.
    GetRoomLayout { space: u64, wall_capacity: u32 },
    /// The cycle is over; its stage says how.
    Finish,
}

/// A query cycle: its stage, the spaces found, and the layouts resolved.
#[derive(Clone, Debug)]
pub struct Cycle {
    pub stage: Stage,
    pub spaces: Vec<SpaceRecord>,
    pub layouts: Vec<RoomLayout>,
}

impl Cycle {
    /// Retrievals in flight are pending, and a space being resolved exists
    /// and is a room layout.
    pub open spec fn wf(self) -> bool {
        match self.stage {
            Stage::AwaitingProperties { tables } => tables.scene && tables.spatial_entity,
            Stage::Retrieving { retrieval, .. } => retrieval.is_pending(),
            Stage::Resolving { index, retrieval } => {
                &&& retrieval.is_pending()
                &&& index < self.spaces@.len()
                &&& self.spaces@[index as int].room_layout
            },
            _ => true,
        }
    }

    /// Whether the cycle has ended.
    pub open spec fn is_final(self) -> bool {
        self.stage is Resolved || self.stage is Unsupported || self.stage is Failed
    }

    /// Whether `ev` reports the call that the cycle waits for, with a buffer
    /// of the capacity that it asked for.
    pub open spec fn awaits(self, ev: Event) -> bool {
        match self.stage {
            Stage::AwaitingTables => ev is Tables,
            Stage::AwaitingProperties { .. } => ev is Properties,
            Stage::Issuing => ev is Issued,
            Stage::Retrieving { retrieval, .. } => match ev {
                Event::Results { records, .. } => records@.len() == capacity_of(retrieval),
                _ => false,
            },
            Stage::Resolving { retrieval, .. } => match ev {
                Event::Layout { walls, .. } => walls@.len() == capacity_of(retrieval),
                _ => false,
            },
            _ => false,
        }
    }
}

/// The buffer capacity of the call that a retrieval waits for.
pub open spec fn capacity_of(r: RetrievalState) -> int {
    match r {
        RetrievalState::AwaitingFill { capacity } => capacity as int,
        _ => 0,
    }
}

/// Having finished with the spaces before `from`, the cycle goes on to the
/// first room-layout space at or after it, or is resolved if there is none.
pub open spec fn moved_on(c: Cycle, cmd: Command, from: int) -> bool {
    match c.stage {
        Stage::Resolving { index, retrieval } => {
            &&& from <= index < c.spaces@.len()
            &&& c.spaces@[index as int].room_layout
            &&& forall|j: int| from <= j < index ==> !(#[trigger] c.spaces@[j]).room_layout
            &&& retrieval == RetrievalState::AwaitingCount
            &&& cmd == (Command::GetRoomLayout { space: c.spaces@[index as int].space, wall_capacity: 0 })
        },
        Stage::Resolved => {
            &&& forall|j: int| from <= j < c.spaces@.len() ==> !(#[trigger] c.spaces@[j]).room_layout
            &&& cmd is Finish
        },
        _ => false,
    }
}

/// The first room-layout space at or after `from`.
fn next_room_layout(spaces: &Vec<SpaceRecord>, from: usize) -> (r: Option<usize>)
    requires
        from <= spaces@.len(),
    ensures
        match r {
            Some(k) => {
                &&& from <= k < spaces@.len()
                &&& spaces@[k as int].room_layout
                &&& forall|j: int| from <= j < k ==> !(#[trigger] spaces@[j]).room_layout
            },
            None => forall|j: int| from <= j < spaces@.len() ==> !(#[trigger] spaces@[j]).room_layout,
        },
{
    let mut k = from;
    while k < spaces.len()
        invariant
            from <= k <= spaces@.len(),
            forall|j: int| from <= j < k ==> !(#[trigger] spaces@[j]).room_layout,
        decreases spaces@.len() - k,
    {
        if spaces[k].room_layout {
            return Some(k);
        }
        k = k + 1;
    }
    None
}

impl Cycle {
    /// A new cycle: it first asks which feature tables exist.
    pub fn start() -> (r: (Cycle, Command))
        ensures
            r.0.stage == Stage::AwaitingTables,
            r.0.spaces@.len() == 0,
            r.0.layouts@.len() == 0,
            r.0.wf(),
            r.1 is ReadFeatureTables,
    {
        (Cycle { stage: Stage::AwaitingTables, spaces: Vec::new(), layouts: Vec::new() }, Command::ReadFeatureTables)
    }

    /// Goes on from the spaces before `from` to the next room-layout space.
    fn move_on(&mut self, from: usize) -> (cmd: Command)
        requires
            from <= old(self).spaces@.len(),
        ensures
            moved_on(*final(self), cmd, from as int),
            final(self).wf(),
            final(self).spaces == old(self).spaces,
            final(self).layouts == old(self).layouts,
    {
        match next_room_layout(&self.spaces, from) {
            Some(k) => {
                self.stage = Stage::Resolving { index: k, retrieval: RetrievalState::AwaitingCount };
                Command::GetRoomLayout { space: self.spaces[k].space, wall_capacity: 0 }
            },
            None => {
                self.stage = Stage::Resolved;
                Command::Finish
            },
        }
    }

    /// Ends the cycle with an error; nothing found so far is kept.
    fn fail(&mut self, error: SceneError) -> (cmd: Command)
        ensures
            final(self).stage == (Stage::Failed { error }),
            final(self).spaces@.len() == 0,
            final(self).layouts@.len() == 0,
            cmd is Finish,
    {
        self.stage = Stage::Failed { error };
        self.spaces = Vec::new();
        self.layouts = Vec::new();
        Command::Finish
    }
}

impl Cycle {
    /// Takes the report of the last command and returns the next one.
    ///
    /// Probe: an absent scene or spatial-entity table means unsupported; the
    /// capability flag decides otherwise, and a failed properties call fails
    /// the cycle with its status. Only a supported runtime gets a query: the
    /// room-layout chain, at most a hundred results, zero timeout. The results
    /// and then each room-layout space's walls are retrieved count-then-fill;
    /// a negative status or an overfull fill call ends the cycle failed. A
    /// failed cycle keeps no spaces and no layouts: it returns no partial data.
    pub fn handle(&mut self, ev: Event) -> (cmd: Command)
        requires
            old(self).wf(),
            old(self).awaits(ev),
        ensures
            final(self).wf(),
            final(self).is_final() <==> cmd is Finish,
            old(self).stage is AwaitingTables ==> match ev {
                Event::Tables(t) => if probe_plan_spec(t) == ProbeAction::Unsupported {
                    final(self).stage is Unsupported
                } else {
                    final(self).stage == (Stage::AwaitingProperties { tables: t }) && cmd is GetSystemProperties
                },
                _ => false,
            },
            old(self).stage is AwaitingProperties ==> match ev {
                Event::Properties { status, supports_spatial_entity } => {
                    let t = old(self).stage->tables;
                    if status < 0 {
                        final(self).stage == (Stage::Failed { error: SceneError::NativeCallFailed(status) })
                    } else if supports_spatial_entity != NATIVE_TRUE {
                        final(self).stage is Unsupported
                    } else if !t.spatial_entity_query {
                        final(self).stage == (Stage::Failed { error: SceneError::MissingFeatureTable })
                    } else {
                        &&& final(self).stage is Issuing
                        &&& cmd is QuerySpaces
                        &&& cmd->QuerySpaces_0.filter@ == room_layout_chain()
                        &&& cmd->QuerySpaces_0.max_results == MAX_QUERY_RESULTS
                        &&& cmd->QuerySpaces_0.timeout_nanos == 0
                    }
                },
                _ => false,
            },
            cmd is QuerySpaces ==> old(self).stage is AwaitingProperties,
            old(self).stage is Issuing ==> match ev {
                Event::Issued { status, request } => if status < 0 {
                    final(self).stage == (Stage::Failed { error: SceneError::NativeCallFailed(status) })
                } else {
                    &&& final(self).stage == (Stage::Retrieving {
                        request,
                        retrieval: RetrievalState::AwaitingCount,
                    })
                    &&& cmd == (Command::RetrieveResults { request, capacity: 0 })
                },
                _ => false,
            },
            old(self).stage is Retrieving ==> match ev {
                Event::Results { report, records } => {
                    let request = old(self).stage->Retrieving_request;
                    let (ns, act) = next_retrieval(old(self).stage->Retrieving_retrieval, report);
                    match act {
                        RetrievalAction::Call { capacity } => {
                            &&& final(self).stage == (Stage::Retrieving { request, retrieval: ns })
                            &&& cmd == (Command::RetrieveResults { request, capacity })
                            &&& final(self).spaces == old(self).spaces
                        },
                        RetrievalAction::Abort { error } => final(self).stage == (Stage::Failed { error }),
                        RetrievalAction::Deliver { count } => {
                            &&& final(self).spaces@ == records@.take(count as int)
                            &&& moved_on(*final(self), cmd, 0)
                        },
                    }
                },
                _ => false,
            },
            old(self).stage is Resolving ==> match ev {
                Event::Layout { report, floor, ceiling, walls } => {
                    let index = old(self).stage->Resolving_index;
                    let space = old(self).spaces@[index as int].space;
                    let (ns, act) = next_retrieval(old(self).stage->Resolving_retrieval, report);
                    match act {
                        RetrievalAction::Call { capacity } => {
                            &&& final(self).stage == (Stage::Resolving { index, retrieval: ns })
                            &&& cmd == (Command::GetRoomLayout { space, wall_capacity: capacity })
                            &&& final(self).layouts == old(self).layouts
                        },
                        RetrievalAction::Abort { error } => final(self).stage == (Stage::Failed { error }),
                        RetrievalAction::Deliver { count } => {
                            &&& final(self).layouts@.len() == old(self).layouts@.len() + 1
                            &&& final(self).layouts@.drop_last() == old(self).layouts@
                            &&& layout_matches(
                                final(self).layouts@.last(),
                                floor@,
                                ceiling@,
                                walls@.take(count as int),
                            )
                            &&& moved_on(*final(self), cmd, index + 1)
                        },
                    }
                },
                _ => false,
            },
            final(self).stage is Failed ==> final(self).spaces@.len() == 0 && final(self).layouts@.len() == 0,
            !(old(self).stage is Retrieving) && !(final(self).stage is Failed) ==> final(self).spaces == old(
                self,
            ).spaces,
            !(old(self).stage is Resolving) && !(final(self).stage is Failed) ==> final(self).layouts == old(
                self,
            ).layouts,
    {
        match ev {
            Event::Tables(t) => {
                match probe_plan(t) {
                    ProbeAction::Unsupported => {
                        self.stage = Stage::Unsupported;
                        Command::Finish
                    },
                    ProbeAction::QueryProperties => {
                        self.stage = Stage::AwaitingProperties { tables: t };
                        Command::GetSystemProperties
                    },
                }
            },
            Event::Properties { status, supports_spatial_entity } => {
                let tables = match self.stage {
                    Stage::AwaitingProperties { tables } => tables,
                    _ => FeatureTables { scene: true, spatial_entity: true, spatial_entity_query: false },
                };
                let report = PropertiesReport { status, supports_spatial_entity };
                match supports_scene(tables, Some(report)) {
                    Err(e) => self.fail(e),
                    Ok(false) => {
                        self.stage = Stage::Unsupported;
                        Command::Finish
                    },
                    Ok(true) => {
                        if !tables.spatial_entity_query {
                            self.fail(SceneError::MissingFeatureTable)
                        } else {
                            self.stage = Stage::Issuing;
                            Command::QuerySpaces(room_layout_query())
                        }
                    },
                }
            },
            Event::Issued { status, request } => {
                match check_status(status) {
                    Err(e) => self.fail(e),
                    Ok(_) => {
                        let (retrieval, _) = begin_retrieval();
                        self.stage = Stage::Retrieving { request, retrieval };
                        Command::RetrieveResults { request, capacity: 0 }
                    },
                }
            },
            Event::Results { report, records } => {
                let (request, retrieval) = match self.stage {
                    Stage::Retrieving { request, retrieval } => (request, retrieval),
                    _ => (0, RetrievalState::AwaitingCount),
                };
                let (ns, act) = retrieval_step(retrieval, report);
                match act {
                    RetrievalAction::Call { capacity } => {
                        self.stage = Stage::Retrieving { request, retrieval: ns };
                        Command::RetrieveResults { request, capacity }
                    },
                    RetrievalAction::Abort { error } => self.fail(error),
                    RetrievalAction::Deliver { count } => {
                        self.spaces = take_written(records, count);
                        self.move_on(0)
                    },
                }
            },
            Event::Layout { report, floor, ceiling, walls } => {
                let (index, retrieval) = match self.stage {
                    Stage::Resolving { index, retrieval } => (index, retrieval),
                    _ => (0, RetrievalState::AwaitingCount),
                };
                let n = self.spaces.len();
                assert(index < n);
                let (ns, act) = retrieval_step(retrieval, report);
                match act {
                    RetrievalAction::Call { capacity } => {
                        self.stage = Stage::Resolving { index, retrieval: ns };
                        Command::GetRoomLayout { space: self.spaces[index].space, wall_capacity: capacity }
                    },
                    RetrievalAction::Abort { error } => self.fail(error),
                    RetrievalAction::Deliver { count } => {
                        let written = take_written(walls, count);
                        let layout = resolve_room_layout(&floor, &ceiling, &written);
                        self.layouts.push(layout);
                        self.move_on(index + 1)
                    },
                }
            },
        }
    }
}

} // verus!
