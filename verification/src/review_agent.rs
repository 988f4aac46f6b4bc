//! The review action: an agent is asked to review the changes made for a
//! task, without touching any file.

use vstd::prelude::*;
use vstd::std_specs::cmp::PartialEqSpecImpl;
use crate::actions::{resolve_dir, Executable, ExecutorError, SpawnRequest};
use crate::profile::{BaseCodingAgent, ExecutorConfigs, ExecutorProfileId, ProfileIdView};
use crate::text::{clone_opt, concat, opt_text, same_opt};

verus! {

/// The part of the review instructions that stands before the task
/// description.
pub const REVIEW_PROMPT_HEAD: &'static str =
    r#"# Code Review Task

You are a specialized code review agent. Your task is to review the code changes that were made for the following task:

"#;

/// The part of the review instructions that stands after the task
/// description: how to review, what to report, and the rule that nothing may
/// be modified.
pub const REVIEW_PROMPT_TAIL: &'static str =
    r#"

## Your Review Process

1. **Examine the Changes**: Use git commands to review:
   - `git --no-pager diff HEAD` - See all uncommitted changes
   - `git --no-pager log --oneline -10` - Check recent commits
   - `git --no-pager diff <commit>^..<commit>` - Review specific commits

2. **Code Quality Assessment**:
   - Check if the implementation matches the task requirements
   - Look for potential bugs, edge cases, or logic errors
   - Verify code follows best practices and conventions
   - Check for proper error handling
   - Assess test coverage (if applicable)

3. **Security & Performance**:
   - Identify any security vulnerabilities
   - Check for performance issues or inefficiencies
   - Look for proper input validation

4. **Provide Structured Feedback**:
   - Start with a Review Feedback header
   - List specific issues found (if any)
   - Suggest improvements
   - Highlight what was done well
   - Give an overall assessment

## Important Guidelines

- You are in READ-ONLY review mode - DO NOT modify any code
- Focus on providing constructive, actionable feedback
- Be specific: reference file names, line numbers, and code snippets
- Prioritize critical issues over minor style preferences
- If everything looks good, say so clearly

Begin your review now."#;

/// The review instructions for a task: the fixed head, the task
/// description as it was given, and the fixed tail.
pub open spec fn review_prompt(task_description: Seq<char>) -> Seq<char> {
    REVIEW_PROMPT_HEAD@ + task_description + REVIEW_PROMPT_TAIL@
}

/// A request to have an agent review the changes made for a task.
#[derive(Debug)]
pub struct ReviewAgentRequest {
    pub prompt: String,
    /// The profile whose agent does the review.
    pub executor_profile_id: ExecutorProfileId,
    /// The directory to run the agent in, relative to the caller's
    /// directory. Without it the agent runs in the caller's directory.
    pub working_dir: Option<String>,
}

impl Clone for ReviewAgentRequest {
    fn clone(&self) -> (r: Self)
        ensures
            r == *self,
    {
        ReviewAgentRequest {
            prompt: self.prompt.clone(),
            executor_profile_id: self.executor_profile_id.clone(),
            working_dir: clone_opt(&self.working_dir),
        }
    }
}

impl PartialEq for ReviewAgentRequest {
    fn eq(&self, other: &Self) -> (r: bool) {
        self.prompt == other.prompt && self.executor_profile_id.same(&other.executor_profile_id)
            && same_opt(&self.working_dir, &other.working_dir)
    }
}

impl PartialEqSpecImpl for ReviewAgentRequest {
    open spec fn obeys_eq_spec() -> bool {
        true
    }

    open spec fn eq_spec(&self, other: &Self) -> bool {
        &&& self.prompt@ == other.prompt@
        &&& self.executor_profile_id@ == other.executor_profile_id@
        &&& opt_text(self.working_dir) == opt_text(other.working_dir)
    }
}

impl ReviewAgentRequest {
    /// The agent that the request's profile selects.
    pub fn base_executor(&self) -> (r: BaseCodingAgent)
        ensures
            r == self.executor_profile_id.executor,
    {
        self.executor_profile_id.executor
    }

    /// A review request for the task described by `task_description`.
    pub fn new(
        executor_profile_id: ExecutorProfileId,
        task_description: String,
        working_dir: Option<String>,
    ) -> (r: Self)
        ensures
            r.prompt@ == review_prompt(task_description@),
            r.executor_profile_id == executor_profile_id,
            r.working_dir == working_dir,
    {
        let prompt = Self::build_review_prompt(task_description);
        Self { prompt, executor_profile_id, working_dir }
    }

    /// The review instructions for the task described by
    /// `task_description`.
    fn build_review_prompt(task_description: String) -> (r: String)
        ensures
            r@ == review_prompt(task_description@),
    {
        let mut prompt = concat(REVIEW_PROMPT_HEAD, task_description.as_str());
        prompt.append(REVIEW_PROMPT_TAIL);
        prompt
    }
}

impl Executable for ReviewAgentRequest {
    open spec fn profile(&self) -> ProfileIdView {
        self.executor_profile_id@
    }

    open spec fn dir_override(&self) -> Option<Seq<char>> {
        match self.working_dir {
            Some(rel) => Some(rel@),
            None => None,
        }
    }

    open spec fn payload(&self) -> Seq<char> {
        self.prompt@
    }

    fn prepare_spawn<'a, A, G>(
        &self,
        current_dir: &str,
        registry: &'a ExecutorConfigs<A>,
        approvals: G,
    ) -> (r: Result<SpawnRequest<'a, A, G>, ExecutorError>) {
        let working_dir = resolve_dir(current_dir, &self.working_dir);
        match registry.get_coding_agent(&self.executor_profile_id) {
            Some(agent) => Ok(
                SpawnRequest { agent, approvals, working_dir, prompt: self.prompt.clone() },
            ),
            None => Err(ExecutorError::UnknownExecutorType(self.executor_profile_id.to_string())),
        }
    }
}

} // verus!
