//! `<lang> uninstall <packages>`.
use vstd::prelude::*;

use crate::config::python_venv_view;
use crate::error::LoomError;
use crate::runtime::node::{npm_plan, NodeRuntime};
use crate::runtime::python::{pip_plan, PythonRuntime};
use crate::runtime::{texts, ArgView, FollowUp, Plan, Prepare, Runtime};

verus! {

/// `node uninstall`: `npm uninstall <packages>`, then orphan cleanup.
pub fn run(rt: &NodeRuntime, packages: &Vec<String>, dry_run: bool) -> (r: Result<Plan, LoomError>)
    requires
        rt.config_view().root is Some,
    ensures
        packages@.len() == 0 ==> r == Err::<Plan, LoomError>(LoomError::NoPackages),
        packages@.len() > 0 ==> (r matches Ok(plan) && npm_plan(
            plan,
            rt.config_view(),
            seq![ArgView::Text("uninstall"@)] + texts(packages@),
            dry_run,
            FollowUp::CleanupOrphans,
        )),
{
    rt.uninstall(packages, dry_run)
}

/// `python uninstall`: `pip uninstall -y <packages>`, then orphan cleanup.
pub fn run_py(rt: &PythonRuntime, packages: &Vec<String>, dry_run: bool, venv_exists: bool) -> (r:
    Result<Plan, LoomError>)
    requires
        rt.config_view().root is Some,
    ensures
        packages@.len() == 0 ==> r == Err::<Plan, LoomError>(LoomError::NoPackages),
        packages@.len() > 0 && !venv_exists ==> (r matches Err(LoomError::VenvMissing { venv })
            && venv@ == python_venv_view(rt.config_view())),
        packages@.len() > 0 && venv_exists ==> (r matches Ok(plan) && pip_plan(
            plan,
            rt.config_view(),
            seq![ArgView::Text("uninstall"@), ArgView::Text("-y"@)] + texts(packages@),
            dry_run,
            Prepare::CheckVenv,
            FollowUp::CleanupOrphans,
        )),
{
    rt.uninstall(packages, dry_run, venv_exists)
}

} // verus!
