//! Putting a frame on a drawing surface whose operations may fail.
//!
//! The operations of a frame are handed out one by one, in order. The
//! program performs each on the surface and reports whether it succeeded.
//! The first failure ends the frame: nothing more is handed out, what was
//! drawn before stays drawn, and the frame is not complete.

use crate::frame::DrawCommand;
use vstd::prelude::*;

verus! {

/// A frame on its way to the surface.
#[derive(Debug)]
pub struct Rendering {
    commands: Vec<DrawCommand>,
    issued: usize,
    failed: bool,
}

/// The place of the first failure among the results of the first `limit`
/// operations, if one of them failed.
pub open spec fn first_failure(results: Seq<bool>, limit: nat) -> Option<int> {
    if exists|i: int| is_first_failure(results, limit, i) {
        Some(choose|i: int| is_first_failure(results, limit, i))
    } else {
        None
    }
}

/// Operation `i` is among the first `limit`, it failed, and none before it
/// did.
pub open spec fn is_first_failure(results: Seq<bool>, limit: nat, i: int) -> bool {
    &&& 0 <= i < results.len()
    &&& i < limit
    &&& !results[i]
    &&& forall|j: int| 0 <= j < i ==> results[j]
}

impl Rendering {
    /// No more operations were performed than the frame has.
    #[verifier::type_invariant]
    pub closed spec fn wf(self) -> bool {
        self.issued <= self.commands@.len()
    }

    /// The operations of the frame.
    pub closed spec fn commands(self) -> Seq<DrawCommand> {
        self.commands@
    }

    /// How many operations the surface has performed: the first this many
    /// of the frame.
    pub closed spec fn issued(self) -> nat {
        self.issued as nat
    }

    /// An operation has failed.
    pub closed spec fn has_failed(self) -> bool {
        self.failed
    }

    /// The operation to perform next: none once one has failed or all are
    /// done.
    pub open spec fn spec_pending(self) -> Option<DrawCommand> {
        if !self.has_failed() && self.issued() < self.commands().len() {
            Some(self.commands()[self.issued() as int])
        } else {
            None
        }
    }

    /// Every operation of the frame was performed.
    pub open spec fn spec_complete(self) -> bool {
        !self.has_failed() && self.issued() == self.commands().len()
    }

    /// The rendering after the surface's result for the pending operation
    /// was reported; a report without a pending operation changes nothing.
    pub closed spec fn after_report(self, succeeded: bool) -> Rendering {
        if self.spec_pending().is_none() {
            self
        } else if succeeded {
            Rendering { issued: (self.issued + 1) as usize, ..self }
        } else {
            Rendering { failed: true, ..self }
        }
    }

    /// The rendering after a run of reports.
    pub open spec fn after_reports(self, results: Seq<bool>) -> Rendering
        decreases results.len(),
    {
        if results.len() == 0 {
            self
        } else {
            self.after_reports(results.drop_last()).after_report(results.last())
        }
    }

    /// Starts to render a frame: nothing is performed yet.
    pub fn new(commands: Vec<DrawCommand>) -> (rendering: Rendering)
        ensures
            rendering.wf(),
            rendering.commands() == commands@,
            rendering.issued() == 0,
            !rendering.has_failed(),
    {
        Rendering { commands, issued: 0, failed: false }
    }

    /// The operation to perform next, if the frame goes on.
    pub fn pending(&self) -> (next: Option<DrawCommand>)
        ensures
            next == self.spec_pending(),
    {
        proof {
            use_type_invariant(self);
        }
        if !self.failed && self.issued < self.commands.len() {
            Some(self.commands[self.issued])
        } else {
            None
        }
    }

    /// Takes the surface's result for the pending operation. A success
    /// moves on to the next operation; a failure ends the frame and leaves
    /// what was performed as it is.
    pub fn report(&mut self, succeeded: bool)
        ensures
            *final(self) == old(self).after_report(succeeded),
            final(self).commands() == old(self).commands(),
            old(self).spec_pending().is_none() ==> {
                &&& final(self).issued() == old(self).issued()
                &&& final(self).has_failed() == old(self).has_failed()
            },
            old(self).spec_pending().is_some() && succeeded ==> {
                &&& final(self).issued() == old(self).issued() + 1
                &&& !final(self).has_failed()
            },
            old(self).spec_pending().is_some() && !succeeded ==> {
                &&& final(self).issued() == old(self).issued()
                &&& final(self).has_failed()
            },
    {
        proof {
            use_type_invariant(&*self);
        }
        if !self.failed && self.issued < self.commands.len() {
            if succeeded {
                self.issued = self.issued + 1;
            } else {
                self.failed = true;
            }
        }
    }

    /// Whether the whole frame is on the surface, so that it can be
    /// presented.
    pub fn complete(&self) -> (complete: bool)
        ensures
            complete == self.spec_complete(),
    {
        !self.failed && self.issued == self.commands.len()
    }

    /// The place in the frame of the operation that failed, if one did.
    pub fn failure(&self) -> (place: Option<usize>)
        ensures
            place.is_some() == self.has_failed(),
            place matches Some(i) ==> i == self.issued(),
    {
        if self.failed {
            Some(self.issued)
        } else {
            None
        }
    }
}

/// The first failure ends a frame, and nothing is undone. Of a fresh
/// rendering and any run of results: if one of the frame's operations
/// failed, the rendering has failed and exactly the operations before the
/// first failure were performed; if none did, the rendering has not
/// failed and as many operations were performed as results came in, or
/// all. The frame is complete exactly if every operation got a result and
/// none failed.
pub proof fn lemma_first_failure_ends_frame(start: Rendering, results: Seq<bool>)
    requires
        start.wf(),
        start.issued() == 0,
        !start.has_failed(),
    ensures
        ({
            let end = start.after_reports(results);
            let limit = start.commands().len();
            &&& end.wf()
            &&& end.commands() == start.commands()
            &&& match first_failure(results, limit) {
                Some(i) => end.has_failed() && end.issued() == i && end.spec_pending().is_none(),
                None => !end.has_failed() && end.issued() == if results.len() <= limit {
                    results.len()
                } else {
                    limit
                },
            }
            &&& first_failure(results, limit).is_none() ==> forall|i: int|
                0 <= i < results.len() && i < limit ==> results[i]
            &&& end.spec_complete() <==> first_failure(results, limit).is_none() && results.len()
                >= limit
        }),
    decreases results.len(),
{
    let limit = start.commands().len();
    if results.len() > 0 {
        let front = results.drop_last();
        lemma_first_failure_ends_frame(start, front);
        let before = start.after_reports(front);
        assert(before.commands@.len() == before.commands.len());
        match first_failure(front, limit) {
            Some(i) => {
                assert forall|j: int| 0 <= j < i implies results[j] by {
                    assert(front[j] == results[j]);
                }
                lemma_first_failure_unique(results, limit, i);
            },
            None => {
                let last = results.len() - 1;
                if last < limit && !results.last() {
                    assert forall|j: int| 0 <= j < last implies results[j] by {
                        assert(front[j] == results[j]);
                    }
                    lemma_first_failure_unique(results, limit, last);
                } else {
                    assert forall|i: int| 0 <= i < results.len() && i < limit implies results[i] by {
                        if i < last {
                            assert(front[i] == results[i]);
                        }
                    }
                }
            },
        }
    }
}

/// There is one first failure at most.
proof fn lemma_first_failure_unique(results: Seq<bool>, limit: nat, i: int)
    requires
        is_first_failure(results, limit, i),
    ensures
        first_failure(results, limit) == Some(i),
{
}

} // verus!
