//! What the command line asks for.

use crate::fmt::Layout;
use vstd::prelude::*;

verus! {

/// The arguments of the command line.
#[derive(Debug, Clone, PartialEq, Eq)]
pub struct Args {
    /// Put the device into promiscuous mode.
    pub promisc: bool,
    /// Show every layer of a frame on a line of its own.
    pub debugging: bool,
    /// Read a capture file instead of a device.
    pub read: bool,
    /// The device or file to read frames from.
    pub device: Option<String>,
    /// How often the flag for more output was given.
    pub verbose: u8,
    /// The number of workers asked for.
    pub threads: Option<usize>,
}

/// The layout that the arguments select.
pub open spec fn spec_layout(debugging: bool) -> Layout {
    if debugging {
        Layout::Debugging
    } else {
        Layout::Compact
    }
}

/// The number of workers: the number asked for; without one, a single
/// worker for a capture file and one for each processor otherwise.
pub open spec fn spec_worker_threads(read: bool, threads: Option<usize>, cpus: usize) -> usize {
    match threads {
        Some(n) => n,
        None => if read {
            1
        } else {
            cpus
        },
    }
}

impl Args {
    /// The layout that the arguments select.
    pub fn layout(&self) -> (r: Layout)
        ensures
            r == spec_layout(self.debugging),
    {
        if self.debugging {
            Layout::Debugging
        } else {
            Layout::Compact
        }
    }

    /// The number of workers to start on a machine of `cpus` processors.
    pub fn worker_threads(&self, cpus: usize) -> (r: usize)
        ensures
            r == spec_worker_threads(self.read, self.threads, cpus),
    {
        match self.threads {
            Some(n) => n,
            None => if self.read {
                1
            } else {
                cpus
            },
        }
    }
}

} // verus!
