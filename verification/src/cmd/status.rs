//! `<lang> status`: the outdated packages.
use vstd::prelude::*;

use crate::runtime::node::{npm_plan, NodeRuntime};
use crate::runtime::python::{pip_plan, PyStatus, PythonRuntime};
use crate::runtime::{ArgView, FollowUp, Plan, Prepare, Runtime};
use crate::config::python_venv_view;
use crate::text::{blank, is_blank};

verus! {

/// `node status`: `npm outdated`.
pub fn run(rt: &NodeRuntime) -> (r: Plan)
    requires
        rt.config_view().root is Some,
    ensures
        npm_plan(r, rt.config_view(), seq![ArgView::Text("outdated"@)], false, FollowUp::Nothing),
{
    rt.status()
}

/// `python status`: `pip list --outdated`, or a note that the virtualenv
/// is missing.
pub fn run_py(rt: &PythonRuntime, venv_exists: bool) -> (r: PyStatus)
    requires
        rt.config_view().root is Some,
    ensures
        !venv_exists ==> (r matches PyStatus::NotInitialized(v) && v@ == python_venv_view(
            rt.config_view(),
        )),
        venv_exists ==> (r matches PyStatus::Run(plan) && pip_plan(
            plan,
            rt.config_view(),
            seq![ArgView::Text("list"@), ArgView::Text("--outdated"@)],
            false,
            Prepare::CheckVenv,
            FollowUp::Nothing,
        )),
{
    rt.status(venv_exists)
}

/// A status report is printed only when it holds something other than
/// whitespace.
pub fn shown(report: &str) -> (b: bool)
    ensures
        b == !blank(report@),
{
    !is_blank(report)
}

} // verus!
