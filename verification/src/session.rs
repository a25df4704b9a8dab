use vstd::prelude::*;

use crate::input::{distinct_services, Input};
use crate::mode::Mode;
use crate::tally::{verdict_of, Tally, Verdict};

verus! {

/// What the authentication loop does next.
#[derive(Debug, Clone, Copy, PartialEq, Eq)]
pub enum Step {
    /// Count every result that has come in.
    TakeResults,
    /// Show (or drop) every message that has come in.
    ShowMessages,
    /// Answer one waiting question.
    Answer,
    /// Sleep until a sub-service has something new.
    Wait,
}

/// The order in which the loop serves what is waiting: results first, so
/// that a success is never delayed by messages; then messages; then one
/// question, if none was answered since the last result; otherwise it waits.
pub open spec fn step_for(
    results_pending: bool,
    messages_pending: bool,
    request_pending: bool,
    may_answer: bool,
) -> Step {
    if results_pending {
        Step::TakeResults
    } else if messages_pending {
        Step::ShowMessages
    } else if request_pending && may_answer {
        Step::Answer
    } else {
        Step::Wait
    }
}

/// Results are always served first: whenever one is waiting, it is taken,
/// whatever else is waiting and whether or not a question was just answered.
pub proof fn lemma_results_served_first(
    messages_pending: bool,
    request_pending: bool,
    may_answer: bool,
)
    ensures
        step_for(true, messages_pending, request_pending, may_answer) == Step::TakeResults,
{
}

/// Messages come before questions, a question is answered only when nothing
/// else is waiting and none was answered since the last result, and the loop
/// sleeps only when there is nothing it may serve.
pub proof fn lemma_step_priorities(
    results_pending: bool,
    messages_pending: bool,
    request_pending: bool,
    may_answer: bool,
)
    ensures
        !results_pending && messages_pending ==> step_for(
            results_pending,
            messages_pending,
            request_pending,
            may_answer,
        ) == Step::ShowMessages,
        step_for(results_pending, messages_pending, request_pending, may_answer) == Step::Answer
            <==> (!results_pending && !messages_pending && request_pending && may_answer),
        step_for(results_pending, messages_pending, request_pending, may_answer) == Step::Wait
            <==> (!results_pending && !messages_pending && !(request_pending && may_answer)),
{
}

/// The state of one authentication: results counted so far, whether the
/// messages of the sub-services are shown, and whether a question has
/// already been answered since the last result came in.
pub struct Session {
    tally: Tally,
    silence_messages: bool,
    prompt_responded: bool,
}

impl Session {
    /// The combination rule.
    pub closed spec fn mode(&self) -> Mode {
        self.tally.mode()
    }

    /// The number of sub-services.
    pub closed spec fn total(&self) -> nat {
        self.tally.total()
    }

    /// The results reported so far, in order.
    pub closed spec fn results(&self) -> Seq<bool> {
        self.tally.results()
    }

    /// Whether the messages of the sub-services are dropped.
    pub closed spec fn silenced(&self) -> bool {
        self.silence_messages
    }

    /// Whether a question was answered since the last result came in.
    pub closed spec fn answered_since_result(&self) -> bool {
        self.prompt_responded
    }

    /// A session for the sub-services of `input`, before any result. Each
    /// service is named once, so that each result is counted once.
    pub fn new(input: &Input) -> (s: Session)
        requires
            distinct_services(input.modules@),
        ensures
            s.mode() == input.mode,
            s.total() == input.modules@.len(),
            s.results() == Seq::<bool>::empty(),
            s.silenced() == input.silence_messages,
            !s.answered_since_result(),
    {
        Session {
            tally: Tally::new(input.mode, input.modules.len()),
            silence_messages: input.silence_messages,
            prompt_responded: false,
        }
    }

    /// The outcome settled so far, if any.
    pub fn verdict(&self) -> (v: Option<Verdict>)
        ensures
            v == verdict_of(self.mode(), self.total(), self.results()),
    {
        self.tally.verdict()
    }

    /// The number of sub-services that have not reported yet.
    pub fn awaiting(&self) -> (n: usize)
        ensures
            n == self.total() - self.results().len(),
    {
        self.tally.awaiting()
    }

    /// Takes the result of one sub-service and returns the outcome as it now
    /// stands. A new result lets the next question be answered again.
    pub fn on_result(&mut self, ok: bool) -> (v: Option<Verdict>)
        requires
            verdict_of(old(self).mode(), old(self).total(), old(self).results()) is None,
        ensures
            final(self).mode() == old(self).mode(),
            final(self).total() == old(self).total(),
            final(self).results() == old(self).results().push(ok),
            final(self).silenced() == old(self).silenced(),
            !final(self).answered_since_result(),
            v == verdict_of(final(self).mode(), final(self).total(), final(self).results()),
    {
        self.prompt_responded = false;
        self.tally.record(ok)
    }

    /// Whether a message of a sub-service is passed on to the user: unless
    /// the configuration silences them, it is.
    pub fn forwards_messages(&self) -> (yes: bool)
        ensures
            yes == !self.silenced(),
    {
        !self.silence_messages
    }

    /// Whether a waiting question may be answered now: at most one question
    /// is answered between two results.
    pub fn accepts_prompt(&self) -> (yes: bool)
        ensures
            yes == !self.answered_since_result(),
    {
        !self.prompt_responded
    }

    /// Chooses what to do next, given what the sub-services have sent that is
    /// not handled yet.
    pub fn next_step(&self, results_pending: bool, messages_pending: bool, request_pending: bool) -> (step:
        Step)
        ensures
            step == step_for(
                results_pending,
                messages_pending,
                request_pending,
                !self.answered_since_result(),
            ),
            results_pending ==> step == Step::TakeResults,
            step == Step::Answer ==> !results_pending && !messages_pending && request_pending
                && !self.answered_since_result(),
            step == Step::Wait ==> !results_pending && !messages_pending && (!request_pending
                || self.answered_since_result()),
    {
        if results_pending {
            Step::TakeResults
        } else if messages_pending {
            Step::ShowMessages
        } else if request_pending && !self.prompt_responded {
            Step::Answer
        } else {
            Step::Wait
        }
    }

    /// Notes that a question has been answered; no other is answered until
    /// the next result comes in.
    pub fn on_prompt_answered(&mut self)
        requires
            !old(self).answered_since_result(),
        ensures
            final(self).mode() == old(self).mode(),
            final(self).total() == old(self).total(),
            final(self).results() == old(self).results(),
            final(self).silenced() == old(self).silenced(),
            final(self).answered_since_result(),
    {
        self.prompt_responded = true;
    }
}

} // verus!
