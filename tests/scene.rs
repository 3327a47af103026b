use scene_anchors::cycle::{Command, Cycle, Event, SpaceRecord, Stage};
use scene_anchors::error::{check_status, SceneError};
use scene_anchors::filter::{
    compose_room_layout_filter, room_layout_query, ComponentType, FilterNode, StorageLocation,
    MAX_QUERY_RESULTS,
};
use scene_anchors::probe::{probe_plan, supports_scene, FeatureTables, ProbeAction, PropertiesReport};
use scene_anchors::resolve::{collect_anchor_ids, optional_id, resolve_room_layout, RoomLayout};
use scene_anchors::retrieve::{
    begin_retrieval, retrieval_step, take_written, CallReport, RetrievalAction, RetrievalState,
};
use scene_anchors::uuid::{canonicalize, is_nil_uuid};

const ALL_TABLES: FeatureTables =
    FeatureTables { scene: true, spatial_entity: true, spatial_entity_query: true };

fn uuid_with(first: u8) -> [u8; 16] {
    let mut b = [0u8; 16];
    for (i, x) in b.iter_mut().enumerate() {
        *x = first.wrapping_add(i as u8);
    }
    b
}

fn decode_hex(s: &str) -> Vec<u8> {
    let digit = |c: u8| match c {
        b'0'..=b'9' => c - b'0',
        b'a'..=b'f' => c - b'a' + 10,
        _ => panic!("not a lower-case hex digit"),
    };
    s.as_bytes().chunks(2).map(|p| digit(p[0]) * 16 + digit(p[1])).collect()
}

/// A runtime double: serves each command from fixed data and records the calls.
struct StubRuntime {
    tables: FeatureTables,
    properties_status: i32,
    supports: u32,
    issue_status: i32,
    spaces: Vec<SpaceRecord>,
    /// Added to the count that a results fill call reports.
    results_overreport: u32,
    floor: [u8; 16],
    ceiling: [u8; 16],
    walls: Vec<[u8; 16]>,
    /// The status of room-layout calls after the first `layout_ok_calls`.
    layout_status: i32,
    layout_ok_calls: usize,
    queries: usize,
    result_capacities: Vec<u32>,
    layout_calls: Vec<(u64, u32)>,
}

impl StubRuntime {
    fn new() -> StubRuntime {
        StubRuntime {
            tables: ALL_TABLES,
            properties_status: 0,
            supports: 1,
            issue_status: 0,
            spaces: Vec::new(),
            results_overreport: 0,
            floor: [0; 16],
            ceiling: [0; 16],
            walls: Vec::new(),
            layout_status: 0,
            layout_ok_calls: usize::MAX,
            queries: 0,
            result_capacities: Vec::new(),
            layout_calls: Vec::new(),
        }
    }

    fn run(&mut self) -> Cycle {
        let (mut cycle, mut cmd) = Cycle::start();
        loop {
            let ev = match cmd {
                Command::ReadFeatureTables => Event::Tables(self.tables),
                Command::GetSystemProperties => Event::Properties {
                    status: self.properties_status,
                    supports_spatial_entity: self.supports,
                },
                Command::QuerySpaces(_) => {
                    self.queries += 1;
                    Event::Issued { status: self.issue_status, request: 7 }
                }
                Command::RetrieveResults { request, capacity } => {
                    assert_eq!(request, 7);
                    self.result_capacities.push(capacity);
                    let n = self.spaces.len() as u32;
                    let written = n.min(capacity);
                    let mut records: Vec<SpaceRecord> = self.spaces[..written as usize].to_vec();
                    let filler = SpaceRecord { space: 0, uuid: [0; 16], room_layout: false };
                    records.resize(capacity as usize, filler);
                    let count_output =
                        if capacity == 0 { n } else { written + self.results_overreport };
                    Event::Results { report: CallReport { status: 0, count_output }, records }
                }
                Command::GetRoomLayout { space, wall_capacity } => {
                    self.layout_calls.push((space, wall_capacity));
                    let n = self.walls.len() as u32;
                    let written = n.min(wall_capacity);
                    let mut walls: Vec<[u8; 16]> = self.walls[..written as usize].to_vec();
                    walls.resize(wall_capacity as usize, [0; 16]);
                    let count_output = if wall_capacity == 0 { n } else { written };
                    let status =
                        if self.layout_calls.len() > self.layout_ok_calls { self.layout_status } else { 0 };
                    Event::Layout {
                        report: CallReport { status, count_output },
                        floor: self.floor,
                        ceiling: self.ceiling,
                        walls,
                    }
                }
                Command::Finish => return cycle,
            };
            cmd = cycle.handle(ev);
        }
    }
}

/// Drives one count-then-fill retrieval: `counts[k]` is what call `k` reports.
fn drive_retrieval(counts: &[u32], calls: &mut Vec<u32>) -> Result<Vec<u32>, SceneError> {
    let (mut state, mut action) = begin_retrieval();
    let mut k = 0;
    loop {
        match action {
            RetrievalAction::Call { capacity } => {
                calls.push(capacity);
                let buffer: Vec<u32> = (0..capacity).collect();
                let report = CallReport { status: 0, count_output: counts[k] };
                k += 1;
                let (s, a) = retrieval_step(state, report);
                state = s;
                action = a;
                if let RetrievalAction::Deliver { count } = action {
                    return Ok(take_written(buffer, count));
                }
            }
            RetrievalAction::Deliver { count } => {
                assert_eq!(count, 0);
                return Ok(Vec::new());
            }
            RetrievalAction::Abort { error } => return Err(error),
        }
    }
}

#[test]
fn canonicalize_gives_lower_hex_pairs() {
    let b: [u8; 16] = [
        0xaa, 0xbb, 0xcc, 0xdd, 0x00, 0x01, 0x0f, 0x10, 0x7f, 0x80, 0xfe, 0xff, 0x12, 0x34, 0x56,
        0x78,
    ];
    assert_eq!(canonicalize(&b), "aabbccdd00010f107f80feff12345678");
}

#[test]
fn canonicalize_is_32_hex_chars_and_decodes_back() {
    for first in [0u8, 1, 0x5a, 0xf0, 0xff] {
        let b = uuid_with(first);
        let s = canonicalize(&b);
        assert_eq!(s.len(), 32);
        assert!(s.chars().all(|c| c.is_ascii_digit() || ('a'..='f').contains(&c)));
        assert_eq!(decode_hex(&s), b.to_vec());
    }
}

#[test]
fn canonicalize_distinguishes_identifiers() {
    let a = uuid_with(3);
    let mut b = a;
    b[15] ^= 1;
    assert_ne!(canonicalize(&a), canonicalize(&b));
    assert_eq!(canonicalize(&a), canonicalize(&uuid_with(3)));
}

#[test]
fn nil_identifier_is_absent() {
    assert!(is_nil_uuid(&[0; 16]));
    let mut b = [0u8; 16];
    b[9] = 1;
    assert!(!is_nil_uuid(&b));
    assert_eq!(optional_id(&[0; 16]), None);
    assert_eq!(optional_id(&b), Some("00000000000000000001000000000000".to_string()));
}

#[test]
fn status_codes() {
    assert_eq!(check_status(0), Ok(0));
    assert_eq!(check_status(3), Ok(3));
    assert_eq!(check_status(-12), Err(SceneError::NativeCallFailed(-12)));
}

#[test]
fn fill_capacity_is_the_reported_count() {
    for n in 0u32..40 {
        let mut calls = Vec::new();
        let got = drive_retrieval(&[n, n], &mut calls).unwrap();
        if n == 0 {
            assert_eq!(calls, vec![0]);
        } else {
            assert_eq!(calls, vec![0, n]);
        }
        assert_eq!(got, (0..n).collect::<Vec<u32>>());
    }
}

#[test]
fn zero_count_issues_no_fill_call() {
    let (state, _) = begin_retrieval();
    let (state, action) = retrieval_step(state, CallReport { status: 0, count_output: 0 });
    assert_eq!(action, RetrievalAction::Deliver { count: 0 });
    assert_eq!(state, RetrievalState::Complete { count: 0 });
}

#[test]
fn overfull_fill_is_a_protocol_violation() {
    let mut calls = Vec::new();
    assert_eq!(drive_retrieval(&[4, 5], &mut calls), Err(SceneError::ProtocolViolation));
    assert_eq!(calls, vec![0, 4]);
}

#[test]
fn shrunk_fill_is_capped() {
    let mut calls = Vec::new();
    assert_eq!(drive_retrieval(&[4, 2], &mut calls), Ok(vec![0, 1]));
}

#[test]
fn failed_retrieval_call_carries_its_code() {
    let (state, _) = begin_retrieval();
    let (state, action) = retrieval_step(state, CallReport { status: -2, count_output: 9 });
    assert_eq!(action, RetrievalAction::Abort { error: SceneError::NativeCallFailed(-2) });
    assert_eq!(state, RetrievalState::Failed { error: SceneError::NativeCallFailed(-2) });
}

#[test]
fn probe_without_tables_is_unsupported() {
    let no_scene = FeatureTables { scene: false, spatial_entity: true, spatial_entity_query: true };
    let no_entity = FeatureTables { scene: true, spatial_entity: false, spatial_entity_query: true };
    assert_eq!(probe_plan(no_scene), ProbeAction::Unsupported);
    assert_eq!(probe_plan(no_entity), ProbeAction::Unsupported);
    assert_eq!(probe_plan(ALL_TABLES), ProbeAction::QueryProperties);
    for tables in [no_scene, no_entity] {
        let mut stub = StubRuntime::new();
        stub.tables = tables;
        let cycle = stub.run();
        assert_eq!(cycle.stage, Stage::Unsupported);
        assert_eq!(stub.queries, 0);
    }
}

#[test]
fn supports_scene_reads_the_flag() {
    let report = |status: i32, flag: u32| Some(PropertiesReport { status, supports_spatial_entity: flag });
    assert_eq!(supports_scene(ALL_TABLES, report(0, 1)), Ok(true));
    assert_eq!(supports_scene(ALL_TABLES, report(0, 0)), Ok(false));
    assert_eq!(supports_scene(ALL_TABLES, report(-1, 1)), Err(SceneError::NativeCallFailed(-1)));
}

#[test]
fn supports_scene_without_tables_is_false() {
    let no_scene = FeatureTables { scene: false, spatial_entity: true, spatial_entity_query: true };
    let no_entity = FeatureTables { scene: true, spatial_entity: false, spatial_entity_query: true };
    let failing = Some(PropertiesReport { status: -5, supports_spatial_entity: 1 });
    assert_eq!(supports_scene(no_scene, None), Ok(false));
    assert_eq!(supports_scene(no_entity, None), Ok(false));
    assert_eq!(supports_scene(no_scene, failing), Ok(false));
    assert_eq!(supports_scene(no_entity, failing), Ok(false));
}

#[test]
fn filter_chain_shape() {
    let chain = compose_room_layout_filter();
    assert_eq!(
        chain,
        vec![
            FilterNode::Base,
            FilterNode::Component(ComponentType::RoomLayout),
            FilterNode::Storage(StorageLocation::Local),
        ]
    );
    let q = room_layout_query();
    assert_eq!(q.filter, chain);
    assert_eq!(q.max_results, 100);
    assert_eq!(MAX_QUERY_RESULTS, 100);
    assert_eq!(q.timeout_nanos, 0);
}

#[test]
fn end_to_end_room_layout() {
    let floor: [u8; 16] = [
        0xaa, 0xbb, 0xcc, 0xdd, 0xee, 0xff, 0x00, 0x11, 0x22, 0x33, 0x44, 0x55, 0x66, 0x77, 0x88,
        0x99,
    ];
    let wall_a = uuid_with(0x10);
    let wall_b = uuid_with(0x20);
    let mut stub = StubRuntime::new();
    stub.spaces = vec![
        SpaceRecord { space: 11, uuid: uuid_with(1), room_layout: false },
        SpaceRecord { space: 12, uuid: uuid_with(2), room_layout: true },
        SpaceRecord { space: 13, uuid: uuid_with(3), room_layout: false },
    ];
    stub.floor = floor;
    stub.walls = vec![wall_a, wall_b];
    let cycle = stub.run();
    assert_eq!(cycle.stage, Stage::Resolved);
    assert_eq!(stub.queries, 1);
    assert_eq!(stub.result_capacities, vec![0, 3]);
    assert_eq!(stub.layout_calls, vec![(12, 0), (12, 2)]);
    assert_eq!(cycle.spaces.len(), 3);
    assert_eq!(cycle.layouts.len(), 1);
    let layout = &cycle.layouts[0];
    assert_eq!(layout.floor, Some("aabbccddeeff00112233445566778899".to_string()));
    assert_eq!(layout.ceiling, None);
    assert_eq!(layout.walls, vec![canonicalize(&wall_a), canonicalize(&wall_b)]);
    assert_eq!(collect_anchor_ids(&cycle.layouts), vec!["aabbccddeeff00112233445566778899".to_string()]);
}

#[test]
fn unsupported_capability_issues_no_query() {
    let mut stub = StubRuntime::new();
    stub.supports = 0;
    stub.spaces = vec![SpaceRecord { space: 1, uuid: uuid_with(1), room_layout: true }];
    let cycle = stub.run();
    assert_eq!(cycle.stage, Stage::Unsupported);
    assert_eq!(stub.queries, 0);
    assert!(stub.result_capacities.is_empty());
}

#[test]
fn twenty_five_walls_are_kept() {
    let mut stub = StubRuntime::new();
    stub.spaces = vec![SpaceRecord { space: 5, uuid: uuid_with(9), room_layout: true }];
    stub.floor = uuid_with(0x40);
    stub.ceiling = uuid_with(0x50);
    stub.walls = (0u8..25).map(|k| uuid_with(k.wrapping_mul(7))).collect();
    let cycle = stub.run();
    assert_eq!(cycle.stage, Stage::Resolved);
    assert_eq!(stub.layout_calls, vec![(5, 0), (5, 25)]);
    let layout = &cycle.layouts[0];
    assert_eq!(layout.walls.len(), 25);
    for (k, w) in stub.walls.iter().enumerate() {
        assert_eq!(layout.walls[k], canonicalize(w));
    }
    assert_eq!(layout.ceiling, Some(canonicalize(&uuid_with(0x50))));
}

#[test]
fn cycle_errors() {
    let mut stub = StubRuntime::new();
    stub.properties_status = -3;
    assert_eq!(stub.run().stage, Stage::Failed { error: SceneError::NativeCallFailed(-3) });

    let mut stub = StubRuntime::new();
    stub.tables.spatial_entity_query = false;
    assert_eq!(stub.run().stage, Stage::Failed { error: SceneError::MissingFeatureTable });
    assert_eq!(stub.queries, 0);

    let mut stub = StubRuntime::new();
    stub.issue_status = -8;
    assert_eq!(stub.run().stage, Stage::Failed { error: SceneError::NativeCallFailed(-8) });
    assert!(stub.result_capacities.is_empty());

    let mut stub = StubRuntime::new();
    stub.spaces = vec![SpaceRecord { space: 1, uuid: uuid_with(1), room_layout: true }];
    stub.results_overreport = 1;
    let cycle = stub.run();
    assert_eq!(cycle.stage, Stage::Failed { error: SceneError::ProtocolViolation });
    assert!(cycle.spaces.is_empty());
    assert!(stub.layout_calls.is_empty());
}

#[test]
fn no_spaces_resolves_empty() {
    let mut stub = StubRuntime::new();
    let cycle = stub.run();
    assert_eq!(cycle.stage, Stage::Resolved);
    assert_eq!(stub.result_capacities, vec![0]);
    assert!(cycle.layouts.is_empty());
}

#[test]
fn anchor_ids_are_unique() {
    let f = uuid_with(1);
    let c = uuid_with(2);
    let a = resolve_room_layout(&f, &c, &Vec::new());
    let b = resolve_room_layout(&c, &[0; 16], &vec![uuid_with(3)]);
    let ids = collect_anchor_ids(&vec![a, b.clone()]);
    assert_eq!(ids, vec![canonicalize(&f), canonicalize(&c)]);
    let only: RoomLayout = b;
    assert_eq!(only.walls, vec![canonicalize(&uuid_with(3))]);
}

#[test]
fn failure_after_a_layout_keeps_nothing() {
    let mut stub = StubRuntime::new();
    stub.spaces = vec![
        SpaceRecord { space: 1, uuid: uuid_with(1), room_layout: true },
        SpaceRecord { space: 2, uuid: uuid_with(2), room_layout: true },
    ];
    stub.floor = uuid_with(0x30);
    stub.walls = vec![uuid_with(0x31)];
    stub.layout_status = -9;
    stub.layout_ok_calls = 2;
    let cycle = stub.run();
    assert_eq!(stub.layout_calls, vec![(1, 0), (1, 1), (2, 0)]);
    assert_eq!(cycle.stage, Stage::Failed { error: SceneError::NativeCallFailed(-9) });
    assert!(cycle.spaces.is_empty());
    assert!(cycle.layouts.is_empty());
}
