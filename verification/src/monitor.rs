//! Monitors and workspaces: each monitor owns one output and a fixed set
//! of workspaces.

use vstd::prelude::*;

use crate::space::Output;

verus! {

/// A workspace holds the clients assigned to it.
#[derive(Clone, Debug, PartialEq, Eq)]
pub struct Workspace {
    pub clients: Vec<u64>,
}

impl Default for Workspace {
    /// An empty workspace.
    fn default() -> (w: Workspace)
        ensures
            w.clients@.len() == 0,
    {
        Workspace { clients: Vec::new() }
    }
}

/// One physical display together with its workspaces.
#[derive(Clone, Debug, PartialEq, Eq)]
pub struct Monitor {
    pub workspaces: Vec<Workspace>,
    pub output: Output,
}

impl Monitor {
    /// A monitor starts with one workspace more than the configured count
    /// (workspace indices run from zero through the count, inclusive).
    pub fn new(output: Output, workspace_count: usize) -> (m: Monitor)
        requires
            workspace_count < usize::MAX,
        ensures
            m.output == output,
            m.workspaces@.len() == workspace_count + 1,
            forall|i: int|
                0 <= i < m.workspaces@.len() ==> (#[trigger] m.workspaces@[i]).clients@.len() == 0,
    {
        let mut workspaces: Vec<Workspace> = Vec::new();
        let mut i: usize = 0;
        while i <= workspace_count
            invariant
                0 <= i <= workspace_count + 1,
                workspace_count < usize::MAX,
                workspaces@.len() == i,
                forall|j: int|
                    0 <= j < workspaces@.len() ==> (#[trigger] workspaces@[j]).clients@.len() == 0,
            decreases workspace_count + 1 - i,
        {
            workspaces.push(Workspace { clients: Vec::new() });
            i = i + 1;
        }
        Monitor { workspaces, output }
    }

    pub fn output_ref(&self) -> (r: &Output)
        ensures
            r == &self.output,
    {
        &self.output
    }

    pub fn output_clone(&self) -> (r: Output)
        ensures
            r == self.output,
    {
        self.output
    }
}

} // verus!
