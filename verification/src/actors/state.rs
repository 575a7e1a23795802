//! The state plane: the psyche's working state and its pending questions.

use vstd::prelude::*;

use crate::actors::vocabulary::{
    PipelineReply, Presence, QuestionSummary, SpiritReply, State, focus_view,
};
use crate::trace::{ActorTrace, TraceAction, TraceNode};

verus! {

/// What the state plane keeps.
#[derive(Debug, PartialEq, Eq)]
pub struct WorkingState {
    pub state: State,
    pub questions: Vec<QuestionSummary>,
}

pub open spec fn question_views(questions: Seq<QuestionSummary>) -> Seq<Seq<char>> {
    questions.map_values(|question: QuestionSummary| question.question@)
}

impl Default for WorkingState {
    /// The psyche starts absent, unfocused and with no question.
    fn default() -> (working: Self)
        ensures
            working.state@ == (Presence::Absent, None::<Seq<char>>),
            working.questions@.len() == 0,
    {
        WorkingState { state: State { presence: Presence::Absent, focus: None }, questions: Vec::new() }
    }
}

/// Asks the plane for the working state.
pub struct ObserveState {
    pub trace: ActorTrace,
}

/// Asks the plane for the pending questions.
pub struct ObserveQuestions {
    pub trace: ActorTrace,
}

/// Asks the plane for the state a new state subscription starts from.
pub struct ReadStateSnapshot {
    pub trace: ActorTrace,
}

/// The working state with the request's trace.
#[derive(Debug, PartialEq, Eq)]
pub struct StateSnapshot {
    pub state: State,
    pub trace: ActorTrace,
}

/// The trace after the state plane received a request and read its state.
pub open spec fn read_by_state_plane(
    trace: Seq<(Seq<char>, TraceAction)>,
) -> Seq<(Seq<char>, TraceAction)> {
    trace.push(("StatePlane"@, TraceAction::MessageReceived)).push(
        ("StatePlane"@, TraceAction::RecordsRead),
    )
}

/// The state plane.
pub struct StatePlane {
    working: WorkingState,
}

fn copy_questions(questions: &Vec<QuestionSummary>) -> (copy: Vec<QuestionSummary>)
    ensures
        question_views(copy@) == question_views(questions@),
{
    let mut copy: Vec<QuestionSummary> = Vec::new();
    let mut index: usize = 0;
    while index < questions.len()
        invariant
            index <= questions@.len(),
            copy@.len() == index,
            forall|i: int| 0 <= i < index ==> (#[trigger] copy@[i]).question@ == questions@[i].question@,
        decreases questions@.len() - index,
    {
        copy.push(QuestionSummary { question: questions[index].question.clone() });
        index = index + 1;
    }
    proof {
        assert(question_views(copy@) =~= question_views(questions@));
    }
    copy
}

impl StatePlane {
    pub closed spec fn spec_state(&self) -> (Presence, Option<Seq<char>>) {
        self.working.state@
    }

    pub closed spec fn spec_questions(&self) -> Seq<Seq<char>> {
        question_views(self.working.questions@)
    }

    pub fn new(working: WorkingState) -> (plane: Self)
        ensures
            plane.spec_state() == working.state@,
            plane.spec_questions() == question_views(working.questions@),
    {
        StatePlane { working }
    }

    /// Answers with the working state.
    pub fn observe_state(&self, message: ObserveState) -> (reply: PipelineReply)
        ensures
            reply.spec_reply() matches SpiritReply::StateObserved(state) && state@
                == self.spec_state(),
            reply.spec_trace()@ == read_by_state_plane(message.trace@).push(
                ("StatePlane"@, TraceAction::MessageReplied),
            ),
    {
        let mut trace = message.trace;
        trace.record(TraceNode::state_plane(), TraceAction::MessageReceived);
        trace.record(TraceNode::state_plane(), TraceAction::RecordsRead);
        trace.record(TraceNode::state_plane(), TraceAction::MessageReplied);
        PipelineReply::new(SpiritReply::StateObserved(self.working.state.clone()), trace)
    }

    /// Answers with the pending questions.
    pub fn observe_questions(&self, message: ObserveQuestions) -> (reply: PipelineReply)
        ensures
            reply.spec_reply() matches SpiritReply::QuestionsObserved(questions) && question_views(
                questions@,
            ) == self.spec_questions(),
            reply.spec_trace()@ == read_by_state_plane(message.trace@).push(
                ("StatePlane"@, TraceAction::MessageReplied),
            ),
    {
        let mut trace = message.trace;
        trace.record(TraceNode::state_plane(), TraceAction::MessageReceived);
        trace.record(TraceNode::state_plane(), TraceAction::RecordsRead);
        trace.record(TraceNode::state_plane(), TraceAction::MessageReplied);
        PipelineReply::new(
            SpiritReply::QuestionsObserved(copy_questions(&self.working.questions)),
            trace,
        )
    }

    /// The working state a new state subscription starts from.
    pub fn read_state_snapshot(&self, message: ReadStateSnapshot) -> (snapshot: StateSnapshot)
        ensures
            snapshot.state@ == self.spec_state(),
            snapshot.trace@ == read_by_state_plane(message.trace@),
    {
        let mut trace = message.trace;
        trace.record(TraceNode::state_plane(), TraceAction::MessageReceived);
        trace.record(TraceNode::state_plane(), TraceAction::RecordsRead);
        StateSnapshot { state: self.working.state.clone(), trace }
    }
}

} // verus!
