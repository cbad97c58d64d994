//! The approval protocol: decision semantics, the deterministic approval
//! key, and the session-scoped cache of keys the human approved for the
//! remainder of the process.

use vstd::prelude::*;

verus! {

/// What the human answered when asked to approve a command.
#[derive(Clone, Copy, Debug, PartialEq, Eq, Structural)]
pub enum ApprovalDecision {
    /// Approved this one request; the next identical request re-prompts.
    Approved,
    /// Approved this request and every later request with the same key,
    /// until the cache is reset.
    ApprovedForSession,
    /// Refused this request.
    Denied,
    /// Aborted the whole operation.
    Abort,
}

/// A deterministic fingerprint of the identity-relevant fields of a
/// request: command tokens, working directory, escalation flag. Two
/// requests with equal keys are the same trust decision for caching.
pub struct ApprovalKey {
    pub command: Vec<String>,
    pub cwd: String,
    pub escalated: bool,
}

/// The mathematical value of an [`ApprovalKey`].
pub ghost struct ApprovalKeyV {
    pub command: Seq<Seq<char>>,
    pub cwd: Seq<char>,
    pub escalated: bool,
}

impl View for ApprovalKey {
    type V = ApprovalKeyV;

    open spec fn view(&self) -> ApprovalKeyV {
        ApprovalKeyV {
            command: self.command.deep_view(),
            cwd: self.cwd@,
            escalated: self.escalated,
        }
    }
}

/// Whether two argument vectors hold the same tokens.
fn commands_equal(a: &Vec<String>, b: &Vec<String>) -> (r: bool)
    ensures
        r == (a.deep_view() == b.deep_view()),
{
    if a.len() != b.len() {
        proof {
            assert(a.deep_view().len() == a@.len());
            assert(b.deep_view().len() == b@.len());
        }
        return false;
    }
    let mut i: usize = 0;
    while i < a.len()
        invariant
            i <= a.len(),
            a@.len() == b@.len(),
            forall|j: int| 0 <= j < i ==> a.deep_view()[j] == b.deep_view()[j],
        decreases a.len() - i,
    {
        if !(a[i] == b[i]) {
            proof {
                assert(a.deep_view()[i as int] == a@[i as int]@);
                assert(b.deep_view()[i as int] == b@[i as int]@);
            }
            return false;
        }
        proof {
            assert(a.deep_view()[i as int] == a@[i as int]@);
            assert(b.deep_view()[i as int] == b@[i as int]@);
        }
        i += 1;
    }
    proof {
        assert(a.deep_view() =~= b.deep_view());
    }
    true
}

/// Whether two keys fingerprint the same trust decision.
pub fn keys_equal(a: &ApprovalKey, b: &ApprovalKey) -> (r: bool)
    ensures
        r == (a@ == b@),
{
    let r = commands_equal(&a.command, &b.command) && a.cwd == b.cwd && a.escalated == b.escalated;
    proof {
        if a@.command == b@.command && a@.cwd == b@.cwd && a@.escalated == b@.escalated {
            assert(a@ == b@);
        }
    }
    r
}

/// What a decision does to the cached key set: only `ApprovedForSession`
/// is remembered; every other decision leaves the cache unchanged.
pub open spec fn spec_note_decision(
    cache: Set<ApprovalKeyV>,
    key: ApprovalKeyV,
    decision: ApprovalDecision,
) -> Set<ApprovalKeyV> {
    if decision == ApprovalDecision::ApprovedForSession {
        cache.insert(key)
    } else {
        cache
    }
}

/// The session-scoped approval cache: the set of keys a human approved
/// for the remainder of the process.
pub struct ApprovalCache {
    entries: Vec<ApprovalKey>,
}

impl View for ApprovalCache {
    type V = Set<ApprovalKeyV>;

    closed spec fn view(&self) -> Set<ApprovalKeyV> {
        Set::new(
            |k: ApprovalKeyV|
                exists|i: int| 0 <= i < self.entries@.len() && self.entries@[i]@ == k,
        )
    }
}

impl ApprovalCache {
    /// An empty cache: no key is approved for the session yet.
    pub fn new() -> (r: ApprovalCache)
        ensures
            r@ == Set::<ApprovalKeyV>::empty(),
    {
        let r = ApprovalCache { entries: Vec::new() };
        proof {
            assert(r@ =~= Set::<ApprovalKeyV>::empty());
        }
        r
    }

    /// Whether a prior decision covers `key` for the whole session.
    pub fn contains(&self, key: &ApprovalKey) -> (r: bool)
        ensures
            r == self@.contains(key@),
    {
        let mut i: usize = 0;
        while i < self.entries.len()
            invariant
                i <= self.entries@.len(),
                forall|j: int| 0 <= j < i ==> self.entries@[j]@ != key@,
            decreases self.entries@.len() - i,
        {
            if keys_equal(&self.entries[i], key) {
                return true;
            }
            i += 1;
        }
        false
    }

    /// Records the outcome of a prompt. Only `ApprovedForSession`
    /// populates the cache; `Approved`, `Denied` and `Abort` leave it
    /// unchanged, so the next identical request prompts again.
    pub fn note_decision(&mut self, key: ApprovalKey, decision: ApprovalDecision)
        ensures
            final(self)@ == spec_note_decision(old(self)@, key@, decision),
    {
        match decision {
            ApprovalDecision::ApprovedForSession => {
                let ghost before = self@;
                self.entries.push(key);
                proof {
                    assert forall|k: ApprovalKeyV| self@.contains(k)
                        implies before.insert(key@).contains(k) by {
                        let i = choose|i: int|
                            0 <= i < self.entries@.len() && self.entries@[i]@ == k;
                        if i < self.entries@.len() - 1 {
                            assert(before.contains(k));
                        }
                    }
                    assert forall|k: ApprovalKeyV| before.insert(key@).contains(k)
                        implies self@.contains(k) by {
                        if before.contains(k) {
                            let i = choose|i: int|
                                0 <= i < old(self).entries@.len() && old(self).entries@[i]@ == k;
                            assert(self.entries@[i]@ == k);
                        } else {
                            assert(self.entries@[self.entries@.len() - 1]@ == k);
                        }
                    }
                    assert(self@ =~= before.insert(key@));
                }
            },
            _ => {
            },
        }
    }

    /// Clears every memoized approval; used when the surrounding
    /// session's trust boundary changes.
    pub fn reset(&mut self)
        ensures
            final(self)@ == Set::<ApprovalKeyV>::empty(),
    {
        self.entries = Vec::new();
        proof {
            assert(self@ =~= Set::<ApprovalKeyV>::empty());
        }
    }
}

/// The reason attached to an approval prompt: the retry reason when one
/// is supplied, otherwise the request's own justification.
pub open spec fn spec_reason(
    retry_reason: Option<Seq<char>>,
    justification: Option<Seq<char>>,
) -> Option<Seq<char>> {
    if retry_reason is Some {
        retry_reason
    } else {
        justification
    }
}

/// Law: a decision never removes a key. Until `reset`, the cached
/// approvals only grow, so a key approved for the session stays covered.
pub proof fn lemma_note_decision_monotone(
    cache: Set<ApprovalKeyV>,
    key: ApprovalKeyV,
    decision: ApprovalDecision,
)
    ensures
        cache.subset_of(spec_note_decision(cache, key, decision)),
{
}

/// Law: single-use and negative decisions never populate the cache. Only
/// `ApprovedForSession` changes it, so the next identical request after
/// `Approved`, `Denied` or `Abort` prompts again.
pub proof fn lemma_single_use_decision_not_cached(
    cache: Set<ApprovalKeyV>,
    key: ApprovalKeyV,
    decision: ApprovalDecision,
)
    requires
        decision != ApprovalDecision::ApprovedForSession,
    ensures
        spec_note_decision(cache, key, decision) == cache,
{
}

/// Law: a session approval covers exactly its own key and disturbs no
/// other: after `ApprovedForSession` on `key`, `key` is cached, and any
/// other key is cached exactly as before.
pub proof fn lemma_session_approval_covers_key(
    cache: Set<ApprovalKeyV>,
    key: ApprovalKeyV,
    other: ApprovalKeyV,
)
    ensures
        spec_note_decision(cache, key, ApprovalDecision::ApprovedForSession).contains(key),
        other != key ==> spec_note_decision(cache, key, ApprovalDecision::ApprovedForSession)
            .contains(other) == cache.contains(other),
{
}

} // verus!
