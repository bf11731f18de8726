//! Decisions about writing the configuration file.
use crate::text::{decimal, push_nat};
use vstd::prelude::*;

verus! {

/// How many links are followed to the file.
pub const MAX_SYMLINK_DEPTH: usize = 40;

/// What lies at a path.
#[derive(Debug, Clone, Copy, PartialEq, Eq, Structural)]
pub enum LinkProbe {
    /// A link to somewhere else.
    Link,
    /// A file, or nothing yet.
    End,
    /// It cannot be looked at.
    Failed,
}

/// What to do next on the way to the file that is written.
#[derive(Debug, Clone, Copy, PartialEq, Eq, Structural)]
pub enum LinkStep {
    /// Go where the link points, and look again.
    Follow,
    /// Write here.
    Write,
    /// There are too many links.
    TooDeep,
    /// The error that was met stands.
    Fail,
}

/// What to do after `looked` paths were looked at before this one.
pub fn link_step(looked: usize, probe: LinkProbe) -> (r: LinkStep)
    ensures
        r == (match probe {
            LinkProbe::End => LinkStep::Write,
            LinkProbe::Failed => LinkStep::Fail,
            LinkProbe::Link => if looked + 1 < MAX_SYMLINK_DEPTH {
                LinkStep::Follow
            } else {
                LinkStep::TooDeep
            },
        }),
{
    match probe {
        LinkProbe::End => LinkStep::Write,
        LinkProbe::Failed => LinkStep::Fail,
        LinkProbe::Link => if looked < MAX_SYMLINK_DEPTH - 1 {
            LinkStep::Follow
        } else {
            LinkStep::TooDeep
        },
    }
}

/// The name of the file that is written first and then put in place.
pub fn temporary_name(file_name: &str, process: u32, sequence: u64) -> (r: String)
    ensures
        r@ == "."@ + file_name@ + ".tmp-"@ + decimal(process as int) + "-"@ + decimal(
            sequence as int,
        ),
{
    let mut r = ".".to_string();
    r.append(file_name);
    r.append(".tmp-");
    push_nat(&mut r, process as u64);
    r.append("-");
    push_nat(&mut r, sequence);
    r
}

} // verus!
