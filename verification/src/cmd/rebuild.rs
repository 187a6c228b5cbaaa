//! `<lang> rebuild`: rebuild native modules, or reinstall all packages,
//! against the current interpreter.
use vstd::prelude::*;

use crate::config::python_venv_view;
use crate::error::LoomError;
use crate::runtime::node::{npm_plan, NodeRuntime};
use crate::runtime::python::{pip_plan, PythonRuntime};
use crate::runtime::{ArgView, FollowUp, Plan, Prepare, Runtime};

verus! {

/// `node rebuild`: `npm rebuild` in the project.
pub fn run(rt: &NodeRuntime, dry_run: bool) -> (r: Plan)
    requires
        rt.config_view().root is Some,
    ensures
        npm_plan(r, rt.config_view(), seq![ArgView::Text("rebuild"@)], dry_run, FollowUp::Nothing),
{
    rt.rebuild(dry_run)
}

/// `python rebuild`, first step: `pip freeze` (see
/// `PythonRuntime::rebuild_after_freeze` for the second). Refused when the
/// virtualenv does not exist.
pub fn run_py(rt: &PythonRuntime, venv_exists: bool) -> (r: Result<Plan, LoomError>)
    requires
        rt.config_view().root is Some,
    ensures
        !venv_exists ==> (r matches Err(LoomError::VenvNothingToRebuild { venv }) && venv@
            == python_venv_view(rt.config_view())),
        venv_exists ==> (r matches Ok(plan) && pip_plan(
            plan,
            rt.config_view(),
            seq![ArgView::Text("freeze"@)],
            false,
            Prepare::CheckVenv,
            FollowUp::Nothing,
        )),
{
    rt.rebuild(venv_exists)
}

} // verus!
