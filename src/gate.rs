use vstd::prelude::*;

verus! {

/// The decision taken before a structured command runs.
#[derive(Debug, Clone, Copy, PartialEq, Eq, Structural)]
pub enum Verdict {
    Allow,
    Deny,
}

/// A block-list of user identifiers. An invocation by a listed user is denied.
pub struct DispatchGate {
    pub blocked: Vec<u64>,
}

impl DispatchGate {
    pub open spec fn blocks(&self, user: u64) -> bool {
        self.blocked@.contains(user)
    }

    pub fn new(blocked: Vec<u64>) -> (r: DispatchGate)
        ensures
            r.blocked@ == blocked@,
    {
        DispatchGate { blocked }
    }

    /// Allows the invocation unless the invoking user is on the block-list.
    pub fn evaluate(&self, user: u64) -> (r: Verdict)
        ensures
            r == Verdict::Deny <==> self.blocks(user),
            r == Verdict::Allow <==> !self.blocks(user),
    {
        let mut i: usize = 0;
        while i < self.blocked.len()
            invariant
                0 <= i <= self.blocked@.len(),
                forall|j: int| 0 <= j < i ==> self.blocked@[j] != user,
            decreases self.blocked@.len() - i,
        {
            if self.blocked[i] == user {
                return Verdict::Deny;
            }
            i = i + 1;
        }
        Verdict::Allow
    }
}

} // verus!
