//! Whether the runtime advertises spatial-entity support.

use vstd::prelude::*;
use crate::error::{SceneError, check_status};

verus! {

/// The native boolean "true".
pub const NATIVE_TRUE: u32 = 1;

/// Which extension function tables the connection exposes.
#[derive(Clone, Copy, Debug, PartialEq, Eq, Structural)]
pub struct FeatureTables {
    pub scene: bool,
    pub spatial_entity: bool,
    pub spatial_entity_query: bool,
}

/// The first step of a capability probe.
#[derive(Clone, Copy, Debug, PartialEq, Eq, Structural)]
pub enum ProbeAction {
    /// A required table is absent: the feature is unsupported, which is no error.
    Unsupported,
    /// Ask the runtime for the system properties, with the spatial-entity
    /// capability structure chained in.
    QueryProperties,
}

/// The first step of a probe: the properties call is made only where the
/// scene and spatial-entity tables both exist.
pub open spec fn probe_plan_spec(t: FeatureTables) -> ProbeAction {
    if t.scene && t.spatial_entity {
        ProbeAction::QueryProperties
    } else {
        ProbeAction::Unsupported
    }
}

/// Decides whether the system properties are worth asking for.
pub fn probe_plan(tables: FeatureTables) -> (r: ProbeAction)
    ensures
        r == probe_plan_spec(tables),
{
    if tables.scene && tables.spatial_entity {
        ProbeAction::QueryProperties
    } else {
        ProbeAction::Unsupported
    }
}

/// What the system-properties call reported: its status, and the
/// spatial-entity capability flag that it filled in.
#[derive(Clone, Copy, Debug, PartialEq, Eq, Structural)]
pub struct PropertiesReport {
    pub status: i32,
    pub supports_spatial_entity: u32,
}

/// Whether the runtime supports scene understanding.
///
/// An absent scene or spatial-entity table means unsupported, which is no
/// error; the properties answer is then not looked at. Otherwise the
/// properties call was made: a negative status fails with that code, and the
/// capability flag decides.
pub fn supports_scene(tables: FeatureTables, properties: Option<PropertiesReport>) -> (r: Result<bool, SceneError>)
    requires
        probe_plan_spec(tables) == ProbeAction::QueryProperties ==> properties is Some,
    ensures
        !(tables.scene && tables.spatial_entity) ==> r == Ok::<bool, SceneError>(false),
        tables.scene && tables.spatial_entity ==> {
            let p = properties->Some_0;
            &&& p.status < 0 ==> r == Err::<bool, SceneError>(SceneError::NativeCallFailed(p.status))
            &&& p.status >= 0 ==> r == Ok::<bool, SceneError>(p.supports_spatial_entity == NATIVE_TRUE)
        },
        r is Err <==> tables.scene && tables.spatial_entity && properties->Some_0.status < 0,
{
    match probe_plan(tables) {
        ProbeAction::Unsupported => Ok(false),
        ProbeAction::QueryProperties => {
            let p = match properties {
                Some(p) => p,
                None => PropertiesReport { status: 0, supports_spatial_entity: 0 },
            };
            match check_status(p.status) {
                Err(e) => Err(e),
                Ok(_) => Ok(p.supports_spatial_entity == NATIVE_TRUE),
            }
        },
    }
}

} // verus!
