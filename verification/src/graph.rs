//! A registry of running node-instance handles, used to join a pipeline's
//! threads together.  The graph does not interpret topology; it only
//! aggregates lifecycle.
use vstd::prelude::*;

verus! {

/// A joinable handle to a spawned node instance.  Joining must block until
/// that instance's thread has exited, and must propagate a panic from the
/// node's thread to the joining caller rather than swallow it: a node
/// panic is a fatal pipeline defect.  The spawning side, which lives
/// outside this crate, supplies the implementation.
pub trait Joinable {
    fn join(self);
}

/// A container of spawned instances' handles.  Created empty, populated by
/// `add_handle`, consumed by `wait`.
pub struct Graph<H: Joinable> {
    handles: Vec<H>,
}

impl<H: Joinable> Graph<H> {
    /// The registered handles, in registration order.
    pub closed spec fn handles_seq(self) -> Seq<H> {
        self.handles@
    }

    pub fn new() -> (g: Graph<H>)
        ensures
            g.handles_seq() == Seq::<H>::empty(),
    {
        Graph { handles: Vec::new() }
    }

    /// Register a spawned instance's handle.
    pub fn add_handle(&mut self, handle: H)
        ensures
            final(self).handles_seq() == old(self).handles_seq().push(handle),
    {
        self.handles.push(handle);
    }

    /// Join every registered handle, in registration order, consuming the
    /// graph.  Returns only once every registered thread has exited; a
    /// panic in any of them propagates out of the corresponding `join`.
    pub fn wait(self) {
        let mut handles = self.handles;
        loop
            decreases handles.len(),
        {
            if handles.len() == 0 {
                break ;
            }
            let h = handles.remove(0);
            h.join();
        }
    }
}

impl<H: Joinable> Default for Graph<H> {
    fn default() -> (g: Graph<H>)
        ensures
            g.handles_seq() == Seq::<H>::empty(),
    {
        Graph::new()
    }
}

} // verus!
