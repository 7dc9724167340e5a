use vstd::prelude::*;

use crate::error::{Fault, ModuleError};

verus! {

/// What is found at a target path (following links).
pub enum Presence {
    Missing,
    File,
    /// A directory, or anything else that is not a plain file.
    Other,
}

/// An ancestor of a target path, and whether it blocks the target: it
/// exists and is not a directory.
pub struct Ancestor {
    pub path: String,
    pub blocked: bool,
}

/// What the caller reports after carrying out an `Action`.
pub enum Event {
    /// Answers `Inspect`.
    Seen(Presence),
    /// Answers `InspectAncestors`: the target and each of its ancestors, from
    /// the target itself up to the root.
    Ancestors(Vec<Ancestor>),
    /// Answers `ReadLink`: the path stored in the link, or why it could not
    /// be read.
    LinkRead(Result<String, std::io::Error>),
    /// A removal, link or script launch succeeded.
    Completed,
    /// A removal, link or script launch failed.
    Failed(std::io::Error),
    /// Answers `Run`: whether the script exited successfully.
    Exited(bool),
}

/// What the caller is to do next.
pub enum Action {
    /// Report what is at the path.
    Inspect(String),
    /// Report which of the path and its ancestors block it.
    InspectAncestors(String),
    /// Read the symbolic link at the path.
    ReadLink(String),
    /// Remove the file at the path.
    RemoveFile(String),
    /// Remove the empty directory at the path.
    RemoveDir(String),
    /// Create the parent directories of the second path, then a symbolic
    /// link there to the first.
    Link(String, String),
    /// Run the script at the path and wait for it.
    Run(String),
    /// The operation is over, with this outcome.
    Done(Result<(), ModuleError>),
}

pub enum Act {
    Inspect(Seq<char>),
    InspectAncestors(Seq<char>),
    ReadLink(Seq<char>),
    RemoveFile(Seq<char>),
    RemoveDir(Seq<char>),
    Link(Seq<char>, Seq<char>),
    Run(Seq<char>),
    Done(Result<(), Fault>),
}

impl View for Action {
    type V = Act;

    open spec fn view(&self) -> Act {
        match self {
            Action::Inspect(p) => Act::Inspect(p@),
            Action::InspectAncestors(p) => Act::InspectAncestors(p@),
            Action::ReadLink(p) => Act::ReadLink(p@),
            Action::RemoveFile(p) => Act::RemoveFile(p@),
            Action::RemoveDir(p) => Act::RemoveDir(p@),
            Action::Link(s, t) => Act::Link(s@, t@),
            Action::Run(p) => Act::Run(p@),
            Action::Done(r) => Act::Done(crate::error::outcome_view(*r, |u: ()| u)),
        }
    }
}

/// The index of the first blocking ancestor, if any.
pub open spec fn first_blocked(ancestors: Seq<Ancestor>) -> Option<int> {
    if exists|i: int| 0 <= i < ancestors.len() && #[trigger] ancestors[i].blocked {
        Some(
            choose|i: int|
                0 <= i < ancestors.len() && #[trigger] ancestors[i].blocked && forall|j: int|
                    0 <= j < i ==> !ancestors[j].blocked,
        )
    } else {
        None
    }
}

/// Finds the first of a target's ancestors that exists and is not a
/// directory, which would keep the target from being created.
pub fn verify_module_creation(ancestors: &Vec<Ancestor>) -> (r: Result<(), String>)
    ensures
        match first_blocked(ancestors@) {
            None => r is Ok,
            Some(i) => r matches Err(p) && p@ == ancestors@[i].path@,
        },
{
    let mut i: usize = 0;
    while i < ancestors.len()
        invariant
            i <= ancestors@.len(),
            forall|j: int| 0 <= j < i ==> !(#[trigger] ancestors@[j]).blocked,
        decreases ancestors@.len() - i,
    {
        if ancestors[i].blocked {
            proof {
                let a = ancestors@;
                let k = choose|k: int|
                    0 <= k < a.len() && #[trigger] a[k].blocked && forall|j: int|
                        0 <= j < k ==> !a[j].blocked;
                if k < i {
                    assert(!a[k].blocked);
                }
                if i < k {
                    assert(!a[i as int].blocked);
                }
            }
            return Err(ancestors[i].path.clone());
        }
        i = i + 1;
    }
    Ok(())
}

} // verus!
