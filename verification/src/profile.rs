//! Executor profiles: the key that names an agent configuration, and the
//! registry that resolves such a key.

use vstd::prelude::*;
use vstd::std_specs::cmp::PartialEqSpecImpl;
use crate::text::{clone_opt, concat, owned, same_opt};

verus! {

/// The coding agents that a profile can select.
#[derive(Debug, Clone, Copy, PartialEq, Eq, Structural)]
pub enum BaseCodingAgent {
    Amp,
    Gemini,
    Codex,
    Opencode,
    CursorAgent,
    QwenCode,
    Copilot,
}

impl BaseCodingAgent {
    /// The upper-case spelling under which the agent is shown.
    pub open spec fn name(self) -> Seq<char> {
        match self {
            BaseCodingAgent::Amp => "AMP"@,
            BaseCodingAgent::Gemini => "GEMINI"@,
            BaseCodingAgent::Codex => "CODEX"@,
            BaseCodingAgent::Opencode => "OPENCODE"@,
            BaseCodingAgent::CursorAgent => "CURSOR_AGENT"@,
            BaseCodingAgent::QwenCode => "QWEN_CODE"@,
            BaseCodingAgent::Copilot => "COPILOT"@,
        }
    }

    /// The spelling of the agent.
    pub fn as_str(&self) -> (r: &'static str)
        ensures
            r@ == self.name(),
    {
        match self {
            BaseCodingAgent::Amp => "AMP",
            BaseCodingAgent::Gemini => "GEMINI",
            BaseCodingAgent::Codex => "CODEX",
            BaseCodingAgent::Opencode => "OPENCODE",
            BaseCodingAgent::CursorAgent => "CURSOR_AGENT",
            BaseCodingAgent::QwenCode => "QWEN_CODE",
            BaseCodingAgent::Copilot => "COPILOT",
        }
    }
}

/// What a profile id is, as plain values.
pub struct ProfileIdView {
    pub executor: BaseCodingAgent,
    pub variant: Option<Seq<char>>,
}

impl ProfileIdView {
    /// The text of the id: the agent's name, then a colon and the variant
    /// where there is one.
    pub open spec fn label(self) -> Seq<char> {
        match self.variant {
            Some(v) => self.executor.name() + ":"@ + v,
            None => self.executor.name(),
        }
    }
}

/// The key under which an agent configuration is registered: an agent and,
/// optionally, the name of one of its variants.
#[derive(Debug)]
pub struct ExecutorProfileId {
    pub executor: BaseCodingAgent,
    pub variant: Option<String>,
}

impl View for ExecutorProfileId {
    type V = ProfileIdView;

    open spec fn view(&self) -> ProfileIdView {
        ProfileIdView {
            executor: self.executor,
            variant: match self.variant {
                Some(v) => Some(v@),
                None => None,
            },
        }
    }
}

impl Clone for ExecutorProfileId {
    fn clone(&self) -> (r: Self)
        ensures
            r == *self,
    {
        ExecutorProfileId { executor: self.executor, variant: clone_opt(&self.variant) }
    }
}

impl PartialEq for ExecutorProfileId {
    fn eq(&self, other: &Self) -> (r: bool) {
        self.same(other)
    }
}

impl PartialEqSpecImpl for ExecutorProfileId {
    open spec fn obeys_eq_spec() -> bool {
        true
    }

    open spec fn eq_spec(&self, other: &Self) -> bool {
        self@ == other@
    }
}

impl ExecutorProfileId {
    /// The id of an agent's default configuration.
    pub fn new(executor: BaseCodingAgent) -> (r: Self)
        ensures
            r@ == (ProfileIdView { executor, variant: None }),
    {
        ExecutorProfileId { executor, variant: None }
    }

    /// The id of a named variant of an agent's configuration.
    pub fn with_variant(executor: BaseCodingAgent, variant: String) -> (r: Self)
        ensures
            r@ == (ProfileIdView { executor, variant: Some(variant@) }),
    {
        ExecutorProfileId { executor, variant: Some(variant) }
    }

    /// The id as text.
    pub fn to_string(&self) -> (r: String)
        ensures
            r@ == self@.label(),
    {
        match &self.variant {
            Some(v) => {
                let mut s = concat(self.executor.as_str(), ":");
                s.append(v.as_str());
                s
            },
            None => owned(self.executor.as_str()),
        }
    }

    /// Whether two ids name the same profile: the same agent and the same
    /// variant, character for character.
    pub fn same(&self, other: &ExecutorProfileId) -> (r: bool)
        ensures
            r == (self@ == other@),
    {
        if self.executor != other.executor {
            return false;
        }
        same_opt(&self.variant, &other.variant)
    }
}

/// The registry of agent configurations, keyed by profile id.
///
/// Ids are compared by value, and an id is registered at most once: to
/// register it again replaces what it stood for.
pub struct ExecutorConfigs<A> {
    ids: Vec<ExecutorProfileId>,
    agents: Vec<A>,
}

/// The position of `id` among `ids`, where it occurs.
pub open spec fn position(ids: Seq<ExecutorProfileId>, id: ProfileIdView) -> Option<int> {
    if exists|i: int| 0 <= i < ids.len() && ids[i]@ == id {
        Some(choose|i: int| 0 <= i < ids.len() && ids[i]@ == id)
    } else {
        None
    }
}

/// No id occurs twice among `ids`.
pub open spec fn distinct(ids: Seq<ExecutorProfileId>) -> bool {
    forall|i: int, j: int|
        0 <= i < j < ids.len() ==> (#[trigger] ids[i])@ != (#[trigger] ids[j])@
}

/// Among distinct ids, the position of an id is the one place where it
/// stands.
proof fn lemma_position(ids: Seq<ExecutorProfileId>, i: int)
    requires
        distinct(ids),
        0 <= i < ids.len(),
    ensures
        position(ids, ids[i]@) == Some(i),
{
    let j = choose|j: int| 0 <= j < ids.len() && ids[j]@ == ids[i]@;
    if j < i {
        assert(ids[j]@ != ids[i]@);
    } else if i < j {
        assert(ids[i]@ != ids[j]@);
    }
}

impl<A> ExecutorConfigs<A> {
    /// Every id has its configuration, and no id is registered twice.
    pub closed spec fn wf(&self) -> bool {
        &&& self.ids@.len() == self.agents@.len()
        &&& distinct(self.ids@)
    }

    /// The registered configurations, each under its id.
    pub closed spec fn view(&self) -> Map<ProfileIdView, A> {
        Map::new(
            |id: ProfileIdView| position(self.ids@, id) is Some,
            |id: ProfileIdView| self.agents@[position(self.ids@, id)->Some_0],
        )
    }

    /// A registry that knows no profile.
    pub fn new() -> (r: Self)
        ensures
            r.wf(),
            r@ == Map::<ProfileIdView, A>::empty(),
    {
        let r = ExecutorConfigs { ids: Vec::new(), agents: Vec::new() };
        assert(r@ =~= Map::<ProfileIdView, A>::empty());
        r
    }

    /// Where `id` is registered, if it is.
    fn find(&self, id: &ExecutorProfileId) -> (r: Option<usize>)
        requires
            self.wf(),
        ensures
            r matches Some(i) ==> i < self.ids@.len() && self.ids@[i as int]@ == id@
                && position(self.ids@, id@) == Some(i as int),
            r is None ==> position(self.ids@, id@) is None,
    {
        let mut i: usize = 0;
        while i < self.ids.len()
            invariant
                self.wf(),
                i <= self.ids@.len(),
                forall|j: int| 0 <= j < i ==> self.ids@[j]@ != id@,
            decreases self.ids@.len() - i,
        {
            if self.ids[i].same(id) {
                proof {
                    lemma_position(self.ids@, i as int);
                }
                return Some(i);
            }
            i += 1;
        }
        None
    }

    /// The configuration registered under `id`, or `None` where the
    /// registry does not know the id.
    pub fn get_coding_agent(&self, id: &ExecutorProfileId) -> (r: Option<&A>)
        requires
            self.wf(),
        ensures
            r is Some <==> self@.contains_key(id@),
            r matches Some(a) ==> *a == self@[id@],
    {
        match self.find(id) {
            Some(i) => Some(&self.agents[i]),
            None => None,
        }
    }

    /// Registers `agent` under `id`, in place of what the id stood for.
    pub fn register(&mut self, id: ExecutorProfileId, agent: A)
        requires
            old(self).wf(),
        ensures
            final(self).wf(),
            final(self)@ == old(self)@.insert(id@, agent),
    {
        match self.find(&id) {
            Some(i) => {
                self.agents.set(i, agent);
                assert(self@ =~= old(self)@.insert(id@, agent));
            },
            None => {
                self.ids.push(id);
                self.agents.push(agent);
                proof {
                    let n = old(self).ids@.len() as int;
                    assert(distinct(self.ids@)) by {
                        assert forall|i: int, j: int| 0 <= i < j < self.ids@.len() implies (
                        #[trigger] self.ids@[i])@ != (#[trigger] self.ids@[j])@ by {
                            if j < n {
                                assert(old(self).ids@[i]@ != old(self).ids@[j]@);
                            } else {
                                assert(old(self).ids@[i]@ != id@);
                            }
                        }
                    }
                    assert forall|k: ProfileIdView|
                        position(self.ids@, k) == (if k == id@ {
                            Some(n)
                        } else {
                            position(old(self).ids@, k)
                        }) by {
                        if k == id@ {
                            lemma_position(self.ids@, n);
                        } else if position(old(self).ids@, k) is Some {
                            let i = position(old(self).ids@, k)->Some_0;
                            assert(self.ids@[i] == old(self).ids@[i]);
                            lemma_position(self.ids@, i);
                        } else if position(self.ids@, k) is Some {
                            let i = position(self.ids@, k)->Some_0;
                            assert(i < n);
                            assert(old(self).ids@[i]@ == k);
                        }
                    }
                    assert(self@ =~= old(self)@.insert(id@, agent));
                }
            },
        }
    }
}

} // verus!
