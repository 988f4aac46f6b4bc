//! Executable actions: units of work that are handed to a coding agent
//! behind an approval gate.
//!
//! An action does not start a process itself. It decides everything that a
//! start needs (where, with which agent, under which gate, with which
//! instructions) and hands that to the caller as a [`SpawnRequest`].

use vstd::prelude::*;
use crate::profile::{ExecutorConfigs, ProfileIdView};
use crate::text::{concat, owned};

verus! {

/// Why an action could not be started.
#[derive(Debug)]
pub enum ExecutorError {
    /// The registry knows no agent for the profile, whose id is given as text.
    UnknownExecutorType(String),
    /// The agent was found but could not start its process.
    SpawnError(String),
}

impl ExecutorError {
    /// The detail that the error carries.
    pub open spec fn detail(self) -> Seq<char> {
        match self {
            ExecutorError::UnknownExecutorType(d) => d@,
            ExecutorError::SpawnError(d) => d@,
        }
    }

    /// The text that introduces the detail in the error's message.
    pub open spec fn prefix(self) -> Seq<char> {
        match self {
            ExecutorError::UnknownExecutorType(_) => "Unknown executor type: "@,
            ExecutorError::SpawnError(_) => "Failed to spawn executor: "@,
        }
    }

    /// The message shown for the error: its prefix, then its detail.
    pub fn message(&self) -> (r: String)
        ensures
            r@ == self.prefix() + self.detail(),
    {
        match self {
            ExecutorError::UnknownExecutorType(d) => concat("Unknown executor type: ", d.as_str()),
            ExecutorError::SpawnError(d) => concat("Failed to spawn executor: ", d.as_str()),
        }
    }
}

/// What `std::path::Path::join` gives for a base directory and a path that
/// is adjoined to it, both as text, on the platform the library is built
/// for.
pub uninterp spec fn joined_path(base: Seq<char>, rel: Seq<char>) -> Seq<char>;

/// Calls `std::path::Path::join` on `base` with `rel` and hands the joined
/// path back as text. Nothing is proved of the join itself: the result is
/// what the standard library computes, under the name `joined_path`.
#[verifier::external_body]
fn join_path(base: &str, rel: &str) -> (r: String)
    ensures
        r@ == joined_path(base@, rel@),
{
    std::path::Path::new(base).join(rel).into_os_string().into_string().unwrap_or_default()
}

/// The directory in which an action runs: the caller's directory, or the
/// override joined to it where the action names one.
pub open spec fn effective_dir(base: Seq<char>, dir_override: Option<Seq<char>>) -> Seq<char> {
    match dir_override {
        Some(rel) => joined_path(base, rel),
        None => base,
    }
}

/// The directory in which an action runs, given the caller's directory and
/// the action's override.
pub fn resolve_dir(base: &str, dir_override: &Option<String>) -> (r: String)
    ensures
        r@ == effective_dir(
            base@,
            match *dir_override {
                Some(rel) => Some(rel@),
                None => None,
            },
        ),
{
    match dir_override {
        Some(rel) => join_path(base, rel.as_str()),
        None => owned(base),
    }
}

/// Everything that starting an agent needs.
///
/// `A` is the agent configuration that the registry holds, `G` the approval
/// gate of the flow. The caller binds that approval gate to a copy of the
/// agent and lets the agent start its process in `working_dir` with
/// `prompt`.
pub struct SpawnRequest<'a, A, G> {
    /// The configuration that the registry holds for the action's profile.
    pub agent: &'a A,
    /// The approval gate that every effect of the agent goes through.
    pub approvals: G,
    /// The directory in which the agent runs.
    pub working_dir: String,
    /// The instructions for the agent.
    pub prompt: String,
}

/// A unit of work that can be handed to a coding agent.
pub trait Executable {
    /// The profile whose agent carries the action out.
    spec fn profile(&self) -> ProfileIdView;

    /// The directory, relative to the caller's, in which the action wants
    /// to run, if it names one.
    spec fn dir_override(&self) -> Option<Seq<char>>;

    /// The instructions that the agent receives.
    spec fn payload(&self) -> Seq<char>;

    /// Decides how the action is started from `current_dir`.
    ///
    /// Where the registry knows the action's profile, the request holds the
    /// registered agent, the very gate that was passed in, the effective
    /// directory and the action's instructions. Where it does not, nothing
    /// is started and the error carries the profile id as text.
    fn prepare_spawn<'a, A, G>(
        &self,
        current_dir: &str,
        registry: &'a ExecutorConfigs<A>,
        approvals: G,
    ) -> (r: Result<SpawnRequest<'a, A, G>, ExecutorError>)
        requires
            registry.wf(),
        ensures
            registry@.contains_key(self.profile()) ==> r is Ok && {
                &&& *r->Ok_0.agent == registry@[self.profile()]
                &&& r->Ok_0.approvals == approvals
                &&& r->Ok_0.working_dir@ == effective_dir(current_dir@, self.dir_override())
                &&& r->Ok_0.prompt@ == self.payload()
            },
            !registry@.contains_key(self.profile()) ==> r is Err && r->Err_0 is UnknownExecutorType
                && r->Err_0.detail() == self.profile().label(),
    ;
}

} // verus!
