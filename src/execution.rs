//! The decisions of a sequential run, as a state machine.
//!
//! A run of `total` steps asks its driver to execute the steps one at a time,
//! in order. Before each step after a step whose output was not empty, the
//! driver appends that output, formatted as a user turn, to the step's
//! template. The driver reports each step's outcome back; the first failure
//! ends the run, and after the last success the run completes with the last
//! step's result.
use vstd::prelude::*;
use crate::prompt::{format_prompt_as_user, user_fragment};
use crate::result::{ChainResult, ResultModel};

verus! {

/// What the driver is asked to do next.
pub enum Action {
    /// Append `fragment`, if any, to the template of step `step`, then execute it.
    Execute { step: usize, fragment: Option<String> },
    /// The run is over and returns this result.
    Complete(ChainResult),
    /// Step `step` failed: the run is over and returns that failure.
    Abort { step: usize },
}

/// What an action is, as the contracts speak of it.
pub enum ActionModel {
    Execute { step: nat, fragment: Option<Seq<char>> },
    Complete(ResultModel),
    Abort { step: nat },
}

/// What the driver reports after executing a step.
pub enum Event {
    Succeeded(ChainResult),
    Failed,
}

/// What an event is, as the contracts speak of it.
pub enum EventModel {
    Succeeded(ResultModel),
    Failed,
}

impl View for Action {
    type V = ActionModel;

    open spec fn view(&self) -> ActionModel {
        match self {
            Action::Execute { step, fragment } => ActionModel::Execute {
                step: *step as nat,
                fragment: match fragment {
                    Some(f) => Some(f@),
                    None => None,
                },
            },
            Action::Complete(r) => ActionModel::Complete(r@),
            Action::Abort { step } => ActionModel::Abort { step: *step as nat },
        }
    }
}

impl View for Event {
    type V = EventModel;

    open spec fn view(&self) -> EventModel {
        match self {
            Event::Succeeded(r) => EventModel::Succeeded(r@),
            Event::Failed => EventModel::Failed,
        }
    }
}

/// The state of a run, as the contracts speak of it.
pub struct ExecutionModel {
    /// The number of steps.
    pub total: nat,
    /// The step to execute next; the failed step once `failed` is set.
    pub next: nat,
    /// The output of the last step that succeeded, empty before the first.
    pub response: Seq<char>,
    /// The result that the run returns if it completes now.
    pub result: ResultModel,
    pub failed: bool,
}

/// The state in which a run of `total` steps for the chain named `name` begins.
pub open spec fn initial(name: Seq<char>, total: nat) -> ExecutionModel {
    ExecutionModel {
        total,
        next: 0,
        response: Seq::empty(),
        result: ResultModel { name, content: Seq::empty() },
        failed: false,
    }
}

/// A run is over once a step failed or every step succeeded.
pub open spec fn is_finished(s: ExecutionModel) -> bool {
    s.failed || s.next >= s.total
}

/// The fragment appended before the next step: none after an empty output.
pub open spec fn fragment_for(response: Seq<char>) -> Option<Seq<char>> {
    if response.len() == 0 {
        None
    } else {
        Some(user_fragment(response))
    }
}

/// The action that state `s` asks for.
pub open spec fn action_of(s: ExecutionModel) -> ActionModel {
    if s.failed {
        ActionModel::Abort { step: s.next }
    } else if s.next >= s.total {
        ActionModel::Complete(s.result)
    } else {
        ActionModel::Execute { step: s.next, fragment: fragment_for(s.response) }
    }
}

/// The state after event `e` in state `s`; a finished run ignores events.
pub open spec fn after(s: ExecutionModel, e: EventModel) -> ExecutionModel {
    if is_finished(s) {
        s
    } else {
        match e {
            EventModel::Succeeded(r) => ExecutionModel {
                total: s.total,
                next: s.next + 1,
                response: r.content,
                result: r,
                failed: false,
            },
            EventModel::Failed => ExecutionModel { failed: true, ..s },
        }
    }
}

/// The event that a driver reports for a step with outcome `o`: `None` for a
/// failure, the step's result otherwise.
pub open spec fn event_of(o: Option<ResultModel>) -> EventModel {
    match o {
        Some(r) => EventModel::Succeeded(r),
        None => EventModel::Failed,
    }
}

/// The measure that each event of an unfinished run lowers.
pub open spec fn remaining(s: ExecutionModel) -> int {
    if s.failed {
        0
    } else {
        s.total - s.next
    }
}

/// The actions that a run from `s` asks for, up to and including the one that
/// ends it, where step `i` has the outcome `outcomes[i]`.
pub open spec fn trace(s: ExecutionModel, outcomes: Seq<Option<ResultModel>>) -> Seq<ActionModel>
    decreases remaining(s),
{
    if is_finished(s) {
        seq![action_of(s)]
    } else {
        seq![action_of(s)] + trace(after(s, event_of(outcomes[s.next as int])), outcomes)
    }
}

/// A run in progress.
pub struct Execution {
    total: usize,
    next: usize,
    response: String,
    result: ChainResult,
    failed: bool,
}

impl View for Execution {
    type V = ExecutionModel;

    closed spec fn view(&self) -> ExecutionModel {
        ExecutionModel {
            total: self.total as nat,
            next: self.next as nat,
            response: self.response@,
            result: self.result@,
            failed: self.failed,
        }
    }
}

impl Execution {
    #[verifier::type_invariant]
    spec fn inv(&self) -> bool {
        self.next <= self.total
    }

    /// A run of `total` steps for the chain named `name`.
    pub fn start(name: String, total: usize) -> (r: Execution)
        ensures
            r@ == initial(name@, total as nat),
    {
        Execution {
            total,
            next: 0,
            response: String::new(),
            result: ChainResult::new(name),
            failed: false,
        }
    }

    /// The action that the run asks for now.
    pub fn action(&self) -> (r: Action)
        ensures
            r@ == action_of(self@),
    {
        if self.failed {
            Action::Abort { step: self.next }
        } else if self.next >= self.total {
            Action::Complete(self.result.duplicate())
        } else if self.response.as_str().is_empty() {
            Action::Execute { step: self.next, fragment: None }
        } else {
            Action::Execute {
                step: self.next,
                fragment: Some(format_prompt_as_user(self.response.as_str())),
            }
        }
    }

    /// Takes in the outcome of the step that the run asked for.
    pub fn advance(&mut self, event: Event)
        ensures
            final(self)@ == after(old(self)@, event@),
    {
        proof {
            use_type_invariant(&*self);
        }
        if self.failed || self.next >= self.total {
            return;
        }
        match event {
            Event::Succeeded(r) => {
                self.response = r.content();
                self.result = r;
                self.next = self.next + 1;
            },
            Event::Failed => {
                self.failed = true;
            },
        }
    }

    /// Whether the run is over.
    pub fn is_finished(&self) -> (r: bool)
        ensures
            r == is_finished(self@),
    {
        proof {
            use_type_invariant(self);
        }
        self.failed || self.next >= self.total
    }
}

} // verus!
