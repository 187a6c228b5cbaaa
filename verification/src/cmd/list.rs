//! `<lang> list`: the installed binaries.
use vstd::prelude::*;

use crate::order::{has_view, strictly_sorted};
use crate::runtime::node::{node_listed, NodeRuntime};
use crate::runtime::python::{py_listed, PythonRuntime};
use crate::runtime::{BinEntry, Runtime};

verus! {

/// `node list`, given the names in `node_modules/.bin`.
pub fn run(rt: &NodeRuntime, names: &Vec<String>) -> (r: Vec<String>)
    ensures
        strictly_sorted(r@),
        forall|t: Seq<char>| has_view(r@, t) <==> node_listed(names@, t),
{
    rt.list(names)
}

/// `python list`, given the entries of the virtualenv's bin directory.
pub fn run_py(rt: &PythonRuntime, entries: &Vec<BinEntry>) -> (r: Vec<String>)
    ensures
        strictly_sorted(r@),
        forall|t: Seq<char>|
            has_view(r@, t) <==> py_listed(entries@, rt.config_view().platform, t),
{
    rt.list(entries)
}

} // verus!
