//! `<lang> upgrade <packages> [--force]`.
use vstd::prelude::*;

use crate::error::LoomError;
use crate::runtime::node::{npm_plan, upgrade_args, NodeRuntime};
use crate::runtime::python::{pip_plan, PythonRuntime};
use crate::runtime::{texts, ArgView, FollowUp, Plan, Prepare, Runtime};

verus! {

/// `node upgrade`: `npm install` with `@latest` for unpinned packages.
pub fn run(rt: &NodeRuntime, packages: &Vec<String>, force: bool, dry_run: bool) -> (r: Result<
    Plan,
    LoomError,
>)
    requires
        rt.config_view().root is Some,
    ensures
        packages@.len() == 0 ==> r == Err::<Plan, LoomError>(LoomError::UpgradeUsage),
        packages@.len() > 0 ==> (r matches Ok(plan) && npm_plan(
            plan,
            rt.config_view(),
            upgrade_args(packages@, force),
            dry_run,
            FollowUp::AutoShim,
        )),
{
    rt.upgrade(packages, force, dry_run)
}

/// `python upgrade`: `pip install --upgrade <packages>`.
pub fn run_py(rt: &PythonRuntime, packages: &Vec<String>, force: bool, dry_run: bool) -> (r: Plan)
    requires
        rt.config_view().root is Some,
    ensures
        pip_plan(
            r,
            rt.config_view(),
            seq![ArgView::Text("install"@), ArgView::Text("--upgrade"@)] + texts(packages@) + if force {
                seq![ArgView::Text("--force-reinstall"@)]
            } else {
                Seq::empty()
            },
            dry_run,
            Prepare::EnsureVenv,
            FollowUp::AutoShim,
        ),
{
    rt.upgrade(packages, force, dry_run)
}

} // verus!
