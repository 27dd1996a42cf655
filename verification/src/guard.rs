//! The transaction guard: the one token that serializes commits.
//!
//! Every executor under one application shares the guard. An executor holds
//! it from before it submits its commit until the submission has ended, and
//! at no other time.

use vstd::prelude::*;

verus! {

/// What an executor asks of the guard.
#[derive(Clone, Copy, Debug, PartialEq, Eq, Structural)]
pub enum GuardOp {
    /// The executor asks for the token.
    Acquire(u128),
    /// The executor gives the token back.
    Release(u128),
}

/// The holder of the token after a request. A free token goes to who asks
/// for it; a held one stays with its holder until the holder gives it back.
pub open spec fn holder_after(holder: Option<u128>, op: GuardOp) -> Option<u128> {
    match op {
        GuardOp::Acquire(executor) => if holder.is_none() {
            Some(executor)
        } else {
            holder
        },
        GuardOp::Release(executor) => if holder == Some(executor) {
            None
        } else {
            holder
        },
    }
}

/// The holder of the token after the first `n` requests on a free guard.
pub open spec fn holder_at(ops: Seq<GuardOp>, n: int) -> Option<u128>
    decreases n,
{
    if n <= 0 || n > ops.len() {
        None
    } else {
        holder_after(holder_at(ops, n - 1), ops[n - 1])
    }
}

/// Whether the request at position `i` is one for the token that is
/// granted: the commit of that executor begins there.
pub open spec fn granted_at(ops: Seq<GuardOp>, i: int) -> bool {
    0 <= i < ops.len() && ops[i] is Acquire && holder_at(ops, i).is_none()
}

/// The token that serializes commits, and who holds it.
#[derive(Clone, Copy, Debug, PartialEq, Eq, Structural)]
pub struct TransactionGuard {
    pub holder: Option<u128>,
}

impl TransactionGuard {
    /// A free guard.
    pub fn new() -> (r: TransactionGuard)
        ensures
            r.holder.is_none(),
    {
        TransactionGuard { holder: None }
    }

    /// Whether an executor holds the token.
    pub fn is_held(&self) -> (r: bool)
        ensures
            r == self.holder.is_some(),
    {
        self.holder.is_some()
    }

    /// Whether this executor holds the token.
    pub fn is_held_by(&self, executor: u128) -> (r: bool)
        ensures
            r == (self.holder == Some(executor)),
    {
        match self.holder {
            Some(holder) => holder == executor,
            None => false,
        }
    }

    /// Asks for the token. It is granted exactly when no executor holds it;
    /// otherwise nothing changes.
    pub fn try_acquire(&mut self, executor: u128) -> (r: bool)
        ensures
            r == old(self).holder.is_none(),
            final(self).holder == holder_after(old(self).holder, GuardOp::Acquire(executor)),
    {
        if self.holder.is_none() {
            self.holder = Some(executor);
            true
        } else {
            false
        }
    }

    /// Gives the token back. Only its holder can; from any other executor
    /// the request changes nothing.
    pub fn release(&mut self, executor: u128) -> (r: bool)
        ensures
            r == (old(self).holder == Some(executor)),
            final(self).holder == holder_after(old(self).holder, GuardOp::Release(executor)),
    {
        let held = match self.holder {
            Some(holder) => holder == executor,
            None => false,
        };
        if held {
            self.holder = None;
        }
        held
    }
}

/// A commit holds the token from its beginning to its end and no longer:
/// the executor that was granted a free token and gives it back leaves the
/// token free.
pub proof fn lemma_commit_returns_the_guard(executor: u128)
    ensures
        holder_after(None, GuardOp::Acquire(executor)) == Some(executor),
        holder_after(
            holder_after(None, GuardOp::Acquire(executor)),
            GuardOp::Release(executor),
        ).is_none(),
{
}

/// An executor that was granted the token holds it as long as it does not
/// give it back.
proof fn lemma_holder_stays(ops: Seq<GuardOp>, i: int, n: int)
    requires
        granted_at(ops, i),
        i < n <= ops.len(),
        forall|k: int| i < k < n ==> ops[k] != GuardOp::Release(ops[i]->Acquire_0),
    ensures
        holder_at(ops, n) == Some(ops[i]->Acquire_0),
    decreases n - i,
{
    if n > i + 1 {
        lemma_holder_stays(ops, i, n - 1);
    }
}

/// Commits never overlap: between two requests for the token that are both
/// granted, the executor of the first has given the token back. This holds
/// of every sequence of requests, from any number of executors.
pub proof fn lemma_commits_are_serialized(ops: Seq<GuardOp>, i: int, j: int)
    requires
        granted_at(ops, i),
        granted_at(ops, j),
        i < j,
    ensures
        exists|k: int| i < k < j && ops[k] == GuardOp::Release(ops[i]->Acquire_0),
{
    if forall|k: int| i < k < j ==> ops[k] != GuardOp::Release(ops[i]->Acquire_0) {
        lemma_holder_stays(ops, i, j);
    }
}

} // verus!
