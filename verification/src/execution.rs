use crate::error::NeptuError;
use crate::instruction::Instruction;
use vstd::prelude::*;

verus! {

/// The progress of one operation through its plan. The ledger carries out one
/// request at a time and reports on each; a request that fails ends the
/// operation, and what was carried out before it stays carried out.
#[derive(Debug, PartialEq, Eq)]
pub struct Execution {
    plan: Vec<Instruction>,
    completed: usize,
    failure: Option<NeptuError>,
}

impl Execution {
    #[verifier::type_invariant]
    spec fn within_plan(self) -> bool {
        self.completed <= self.plan.len()
    }

    /// The requests of the operation, in order.
    pub closed spec fn plan(self) -> Seq<Instruction> {
        self.plan@
    }

    /// How many requests the ledger has carried out.
    pub closed spec fn completed(self) -> nat {
        self.completed as nat
    }

    /// The failure that ended the operation, if one did.
    pub closed spec fn failure(self) -> Option<NeptuError> {
        self.failure
    }

    /// The request that the ledger is to carry out next: none after a
    /// failure, and none when the plan is done.
    pub open spec fn next(self) -> Option<Instruction> {
        if self.failure() is None && self.completed() < self.plan().len() {
            Some(self.plan()[self.completed() as int])
        } else {
            None
        }
    }

    /// How the operation ended, or `None` while a request is due.
    pub open spec fn result(self) -> Option<Result<(), NeptuError>> {
        match self.failure() {
            Some(e) => Some(Err(e)),
            None => if self.completed() < self.plan().len() {
                None
            } else {
                Some(Ok(()))
            },
        }
    }

    /// The requests that have taken effect.
    pub open spec fn committed(self) -> Seq<Instruction> {
        self.plan().take(self.completed() as int)
    }

    /// The state after the ledger reported `outcome` on the request that was
    /// due. A report when none was due changes nothing.
    pub open spec fn after(self, outcome: Result<(), NeptuError>, then: Execution) -> bool {
        &&& then.plan() == self.plan()
        &&& match (self.next(), outcome) {
            (None, _) => then.completed() == self.completed() && then.failure() == self.failure(),
            (Some(_), Ok(_)) => then.completed() == self.completed() + 1 && then.failure() is None,
            (Some(_), Err(e)) => then.completed() == self.completed() && then.failure() == Some(e),
        }
    }

    /// Starts on a plan: nothing is carried out yet.
    pub fn new(plan: Vec<Instruction>) -> (r: Execution)
        ensures
            r.plan() == plan@,
            r.completed() == 0,
            r.failure() is None,
    {
        Execution { plan, completed: 0, failure: None }
    }

    /// The request to carry out next, if one is due.
    pub fn pending(&self) -> (r: Option<Instruction>)
        ensures
            r == self.next(),
            self.completed() <= self.plan().len(),
    {
        proof {
            use_type_invariant(self);
        }
        if self.failure.is_none() && self.completed < self.plan.len() {
            Some(self.plan[self.completed])
        } else {
            None
        }
    }

    /// Takes the ledger's report on the request that was due. Only a request
    /// that the ledger carried out joins those that have taken effect, and
    /// none of them ever leaves.
    pub fn record(&mut self, outcome: Result<(), NeptuError>)
        ensures
            old(self).after(outcome, *final(self)),
            final(self).committed() == if old(self).next() is Some && outcome is Ok {
                old(self).committed().push(old(self).next().unwrap())
            } else {
                old(self).committed()
            },
    {
        proof {
            use_type_invariant(&*self);
            if self.next() is Some {
                assert(self.plan().take(self.completed() as int + 1) =~= self.plan().take(
                    self.completed() as int,
                ).push(self.plan()[self.completed() as int]));
            }
        }
        if self.failure.is_none() && self.completed < self.plan.len() {
            match outcome {
                Ok(_) => {
                    self.completed = self.completed + 1;
                },
                Err(e) => {
                    self.failure = Some(e);
                },
            }
        }
    }

    /// How the operation ended, or `None` while a request is due. It ends well
    /// only when every request has taken effect.
    pub fn outcome(&self) -> (r: Option<Result<(), NeptuError>>)
        ensures
            r == self.result(),
            r == Some(Ok::<(), NeptuError>(())) ==> self.committed() == self.plan(),
            r is None <==> self.next() is Some,
    {
        proof {
            use_type_invariant(self);
            if self.completed() == self.plan().len() {
                assert(self.plan().take(self.completed() as int) =~= self.plan());
            }
        }
        match self.failure {
            Some(e) => Some(Err(e)),
            None => if self.completed < self.plan.len() {
                None
            } else {
                Some(Ok(()))
            },
        }
    }

    /// How many requests have taken effect.
    pub fn count_completed(&self) -> (r: usize)
        ensures
            r == self.completed(),
            r <= self.plan().len(),
    {
        proof {
            use_type_invariant(self);
        }
        self.completed
    }
}

} // verus!
