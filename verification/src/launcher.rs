//! The process launcher's decision half: everything up to the spawn.
//!
//! Spawning a detached process is the embedding application's job; the
//! library computes the full launch plan — which executable, which single
//! argument, which environment overrides — and the caller performs the
//! spawn exactly as planned, fire-and-forget.

use vstd::prelude::*;

use crate::compose::{compose_env, compose_env_spec};
use crate::platform::Platform;
use crate::record::{ProjectRecord, RecordModel, StoreError};
use crate::resolver::{ide_to_command, lower_of, resolve_spec};
use crate::store::find_record;

verus! {

/// Everything a spawn needs: the resolved executable, the project path as
/// its single argument, and the composed environment overrides.
pub struct LaunchPlan {
    pub executable: String,
    pub arg: String,
    pub env: Vec<(String, String)>,
}

/// Builds the launch plan for a record: the executable its `ide` resolves
/// to, its `path` as the argument, and its declared environment merged
/// with the inherited `PATH` value.
pub fn plan_for_record(
    rec: &ProjectRecord,
    inherited_path: &str,
    p: Platform,
) -> (plan: LaunchPlan)
    ensures
        plan.executable@ == resolve_spec(lower_of(rec@.ide), p),
        plan.arg@ == rec@.path,
        plan.env.deep_view() == compose_env_spec(rec@.environment, inherited_path@, p),
{
    LaunchPlan {
        executable: ide_to_command(rec.ide.as_str(), p),
        arg: rec.path.clone(),
        env: compose_env(&rec.environment, inherited_path, p),
    }
}

/// Finds the record for `id` and builds its launch plan.  Fails with
/// `NotFound` — and yields no plan, so nothing is spawned — when the
/// directory holds no matching record, and with `Io` only when the
/// directory cannot be enumerated.
pub fn launch_plan(
    dir: &str,
    id: &str,
    inherited_path: &str,
    p: Platform,
) -> (r: Result<LaunchPlan, StoreError>)
    ensures
        r matches Ok(plan) ==> exists|m: RecordModel|
            {
                &&& m.id == id@
                &&& plan.executable@ == resolve_spec(lower_of(m.ide), p)
                &&& plan.arg@ == m.path
                &&& plan.env.deep_view() == #[trigger] compose_env_spec(
                    m.environment,
                    inherited_path@,
                    p,
                )
            },
        r matches Err(e) ==> (e is Io || (e matches StoreError::NotFound(missing) && missing@
            == id@)),
{
    let rec = match find_record(dir, id) {
        Ok(rec) => rec,
        Err(e) => {
            return Err(e);
        },
    };
    let plan = plan_for_record(&rec, inherited_path, p);
    proof {
        let m = rec@;
        assert(m.id == id@ && plan.executable@ == resolve_spec(lower_of(m.ide), p) && plan.arg@
            == m.path && plan.env.deep_view() == compose_env_spec(
            m.environment,
            inherited_path@,
            p,
        ));
    }
    Ok(plan)
}

} // verus!
