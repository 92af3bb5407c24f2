//! One review cycle: claim the pending thoughts, have the project ideas among
//! them analysed, send the whole batch out as a digest, and report.
//!
//! The cycle itself touches neither the store nor the network. It is a state
//! machine: it names the next thing to do, and is told how that went.

use crate::errors::AppError;
use crate::thought::{digest_html, views, Thought, ThoughtView, EMPTY_PAGE};
use crate::writer_config::ThoughtType;
use vstd::prelude::*;

verus! {

/// The texts of a run of strings, one for one.
pub open spec fn texts(strings: Seq<String>) -> Seq<Seq<char>> {
    strings.map_values(|s: String| s@)
}

/// The text of a string that may be missing.
pub open spec fn text_of(string: Option<String>) -> Option<Seq<char>> {
    match string {
        Some(s) => Some(s@),
        None => None,
    }
}

/// What goes to the analysis: the texts of the thoughts filed under
/// `Project`, in the order of the batch.
pub open spec fn project_ideas(batch: Seq<ThoughtView>) -> Seq<Seq<char>> {
    batch.filter(|t: ThoughtView| t.thought_type == ThoughtType::Project).map_values(
        |t: ThoughtView| t.content,
    )
}

/// How a cycle ended, once the batch was claimed.
#[derive(Debug)]
pub struct Report {
    batch: Vec<Thought>,
    analysis: Option<String>,
    digest_sent: bool,
}

/// What a [`Report`] is to the contracts.
pub struct ReportView {
    pub batch: Seq<ThoughtView>,
    pub analysis: Option<Seq<char>>,
    pub digest_sent: bool,
}

impl View for Report {
    type V = ReportView;

    closed spec fn view(&self) -> ReportView {
        ReportView {
            batch: views(self.batch@),
            analysis: text_of(self.analysis),
            digest_sent: self.digest_sent,
        }
    }
}

impl Report {
    /// The thoughts that the cycle claimed.
    pub fn batch(&self) -> (r: &Vec<Thought>)
        ensures
            views(r@) == self@.batch,
    {
        &self.batch
    }

    /// The analysis, where one was asked for and came back.
    pub fn analysis(&self) -> (r: &Option<String>)
        ensures
            text_of(*r) == self@.analysis,
    {
        &self.analysis
    }

    /// Whether the digest went out.
    pub fn digest_sent(&self) -> (r: bool)
        ensures
            r == self@.digest_sent,
    {
        self.digest_sent
    }

    /// Whether an analysis was asked for and did not come back.
    pub fn analysis_failed(&self) -> (r: bool)
        ensures
            r == (project_ideas(self@.batch).len() > 0 && self@.analysis is None),
    {
        if self.analysis.is_some() {
            return false;
        }
        let ideas = project_contents(&self.batch);
        ideas.len() > 0
    }
}

/// Copies a batch.
pub fn copy_thoughts(thoughts: &Vec<Thought>) -> (copy: Vec<Thought>)
    ensures
        views(copy@) == views(thoughts@),
{
    let count = thoughts.len();
    let mut copy: Vec<Thought> = Vec::new();
    let mut i: usize = 0;
    while i < count
        invariant
            i <= count,
            count == thoughts@.len(),
            views(copy@) == views(thoughts@).take(i as int),
        decreases count - i,
    {
        let ghost copied = views(copy@);
        let one = thoughts[i].clone();
        copy.push(one);
        proof {
            assert(views(copy@) =~= copied.push(one@));
            assert(views(thoughts@).take(i + 1) =~= views(thoughts@).take(i as int).push(
                thoughts@[i as int]@,
            ));
        }
        i += 1;
    }
    proof {
        assert(views(thoughts@).take(count as int) =~= views(thoughts@));
    }
    copy
}

/// Picks out of a batch what goes to the analysis.
pub fn project_contents(batch: &Vec<Thought>) -> (ideas: Vec<String>)
    ensures
        texts(ideas@) == project_ideas(views(batch@)),
{
    let count = batch.len();
    let ghost all = views(batch@);
    let ghost is_project = |t: ThoughtView| t.thought_type == ThoughtType::Project;
    let ghost content = |t: ThoughtView| t.content;
    let mut ideas: Vec<String> = Vec::new();
    let mut i: usize = 0;
    proof {
        reveal(Seq::filter);
        assert(all.take(0).filter(is_project) =~= Seq::<ThoughtView>::empty());
        assert(texts(ideas@) =~= all.take(0).filter(is_project).map_values(content));
    }
    while i < count
        invariant
            i <= count,
            count == batch@.len(),
            all == views(batch@),
            is_project == |t: ThoughtView| t.thought_type == ThoughtType::Project,
            content == |t: ThoughtView| t.content,
            texts(ideas@) == all.take(i as int).filter(is_project).map_values(content),
        decreases count - i,
    {
        let thought = &batch[i];
        proof {
            assert(all.take(i + 1) =~= all.take(i as int).push(thought@));
            all.take(i as int).lemma_filter_push(thought@, is_project);
        }
        match thought.thought_type() {
            ThoughtType::Project => {
                let ghost picked = texts(ideas@);
                let idea = thought.content().clone();
                ideas.push(idea);
                proof {
                    let kept = all.take(i as int).filter(is_project);
                    assert(texts(ideas@) =~= picked.push(idea@));
                    assert(kept.push(thought@).map_values(content) =~= kept.map_values(
                        content,
                    ).push(thought@.content));
                }
            },
            _ => {},
        }
        i += 1;
    }
    proof {
        assert(all.take(count as int) =~= all);
    }
    ideas
}

/// Where a cycle stands.
#[derive(Debug)]
pub enum Cycle {
    /// The batch is being claimed.
    Claiming,
    /// The project ideas of the batch are with the analysis.
    Analyzing { batch: Vec<Thought> },
    /// The batch is on its way out as a digest.
    Delivering { batch: Vec<Thought>, analysis: Option<String> },
    /// The cycle is over.
    Finished,
}

/// What a [`Cycle`] is to the contracts.
pub enum CycleView {
    Claiming,
    Analyzing { batch: Seq<ThoughtView> },
    Delivering { batch: Seq<ThoughtView>, analysis: Option<Seq<char>> },
    Finished,
}

impl View for Cycle {
    type V = CycleView;

    open spec fn view(&self) -> CycleView {
        match self {
            Cycle::Claiming => CycleView::Claiming,
            Cycle::Analyzing { batch } => CycleView::Analyzing { batch: views(batch@) },
            Cycle::Delivering { batch, analysis } => CycleView::Delivering {
                batch: views(batch@),
                analysis: text_of(*analysis),
            },
            Cycle::Finished => CycleView::Finished,
        }
    }
}

/// How the thing that a cycle asked for went.
#[derive(Debug)]
pub enum Event {
    /// The claim came back, with the batch or with the reason why not.
    Claimed(Result<Vec<Thought>, AppError>),
    /// The analysis came back.
    Analyzed(Result<String, AppError>),
    /// The digest was handed over, or was not.
    Delivered(Result<(), AppError>),
}

/// What an [`Event`] is to the contracts.
pub enum EventView {
    Claimed(Result<Seq<ThoughtView>, AppError>),
    Analyzed(Result<Seq<char>, AppError>),
    Delivered(Result<(), AppError>),
}

impl View for Event {
    type V = EventView;

    open spec fn view(&self) -> EventView {
        match self {
            Event::Claimed(Ok(batch)) => EventView::Claimed(Ok(views(batch@))),
            Event::Claimed(Err(e)) => EventView::Claimed(Err(*e)),
            Event::Analyzed(Ok(text)) => EventView::Analyzed(Ok(text@)),
            Event::Analyzed(Err(e)) => EventView::Analyzed(Err(*e)),
            Event::Delivered(r) => EventView::Delivered(*r),
        }
    }
}

/// What a cycle asks for next.
#[derive(Debug)]
pub enum Action {
    /// Claim the pending thoughts.
    Claim,
    /// Have these ideas analysed.
    Analyze(Vec<String>),
    /// Send this batch out as a digest.
    Deliver(Vec<Thought>),
    /// Nothing more: this is how the cycle ended.
    Finish(Result<Report, AppError>),
    /// Nothing: the event was not the one that the cycle was waiting for.
    Idle,
}

/// What an [`Action`] is to the contracts.
pub enum ActionView {
    Claim,
    Analyze(Seq<Seq<char>>),
    Deliver(Seq<ThoughtView>),
    Finish(Result<ReportView, AppError>),
    Idle,
}

impl View for Action {
    type V = ActionView;

    open spec fn view(&self) -> ActionView {
        match self {
            Action::Claim => ActionView::Claim,
            Action::Analyze(ideas) => ActionView::Analyze(texts(ideas@)),
            Action::Deliver(batch) => ActionView::Deliver(views(batch@)),
            Action::Finish(Ok(report)) => ActionView::Finish(Ok(report@)),
            Action::Finish(Err(e)) => ActionView::Finish(Err(*e)),
            Action::Idle => ActionView::Idle,
        }
    }
}

/// The rule of the cycle: where it goes on an event, and what it asks for.
///
/// A claim that failed ends the cycle with its error. A claimed batch goes to
/// the analysis if it holds project ideas, and straight to the digest if it
/// holds none. Whatever the analysis answers, the whole batch then goes out
/// as a digest, and whatever becomes of the digest, the cycle ends with a
/// report. An event that the cycle is not waiting for changes nothing.
pub open spec fn step_view(state: CycleView, event: EventView) -> (CycleView, ActionView) {
    match (state, event) {
        (CycleView::Claiming, EventView::Claimed(Err(e))) => (
            CycleView::Finished,
            ActionView::Finish(Err(e)),
        ),
        (CycleView::Claiming, EventView::Claimed(Ok(batch))) => if project_ideas(batch).len() > 0 {
            (CycleView::Analyzing { batch }, ActionView::Analyze(project_ideas(batch)))
        } else {
            (CycleView::Delivering { batch, analysis: None }, ActionView::Deliver(batch))
        },
        (CycleView::Analyzing { batch }, EventView::Analyzed(answer)) => (
            CycleView::Delivering {
                batch,
                analysis: match answer {
                    Ok(text) => Some(text),
                    Err(_) => None,
                },
            },
            ActionView::Deliver(batch),
        ),
        (CycleView::Delivering { batch, analysis }, EventView::Delivered(outcome)) => (
            CycleView::Finished,
            ActionView::Finish(Ok(ReportView { batch, analysis, digest_sent: outcome is Ok })),
        ),
        _ => (state, ActionView::Idle),
    }
}

impl Cycle {
    /// A new cycle, and the first thing it asks for: the claim.
    pub fn start() -> (first: (Cycle, Action))
        ensures
            first.0@ == CycleView::Claiming,
            first.1@ == ActionView::Claim,
    {
        (Cycle::Claiming, Action::Claim)
    }

    /// Takes the cycle one step on, as [`step_view`] says.
    pub fn step(self, event: Event) -> (next: (Cycle, Action))
        ensures
            (next.0@, next.1@) == step_view(self@, event@),
    {
        match self {
            Cycle::Claiming => match event {
                Event::Claimed(Err(e)) => (Cycle::Finished, Action::Finish(Err(e))),
                Event::Claimed(Ok(batch)) => {
                    let ideas = project_contents(&batch);
                    if ideas.len() > 0 {
                        (Cycle::Analyzing { batch }, Action::Analyze(ideas))
                    } else {
                        let copy = copy_thoughts(&batch);
                        (Cycle::Delivering { batch, analysis: None }, Action::Deliver(copy))
                    }
                },
                _ => (Cycle::Claiming, Action::Idle),
            },
            Cycle::Analyzing { batch } => match event {
                Event::Analyzed(answer) => {
                    let analysis = match answer {
                        Ok(text) => Some(text),
                        Err(_) => None,
                    };
                    let copy = copy_thoughts(&batch);
                    (Cycle::Delivering { batch, analysis }, Action::Deliver(copy))
                },
                _ => (Cycle::Analyzing { batch }, Action::Idle),
            },
            Cycle::Delivering { batch, analysis } => match event {
                Event::Delivered(outcome) => {
                    let report = Report { batch, analysis, digest_sent: outcome.is_ok() };
                    (Cycle::Finished, Action::Finish(Ok(report)))
                },
                _ => (Cycle::Delivering { batch, analysis }, Action::Idle),
            },
            Cycle::Finished => (Cycle::Finished, Action::Idle),
        }
    }
}

/// What surrounds a cycle: how the claim went, what the analysis answers to
/// a list of ideas, and what becomes of a batch sent out as a digest.
pub struct World {
    pub claimed: Result<Seq<ThoughtView>, AppError>,
    pub analyzer: spec_fn(Seq<Seq<char>>) -> Result<Seq<char>, AppError>,
    pub digester: spec_fn(Seq<ThoughtView>) -> Result<(), AppError>,
}

/// The event with which the world answers an action. `Finish` and `Idle`
/// ask for nothing, and get no answer.
pub open spec fn answer(world: World, action: ActionView) -> Option<EventView> {
    match action {
        ActionView::Claim => Some(EventView::Claimed(world.claimed)),
        ActionView::Analyze(ideas) => Some(EventView::Analyzed((world.analyzer)(ideas))),
        ActionView::Deliver(batch) => Some(EventView::Delivered((world.digester)(batch))),
        ActionView::Finish(_) => None,
        ActionView::Idle => None,
    }
}

/// The actions of a cycle from `state` on, `action` first, each answered by
/// the world, for at most `steps` steps.
pub open spec fn actions_from(
    world: World,
    state: CycleView,
    action: ActionView,
    steps: nat,
) -> Seq<ActionView>
    decreases steps,
{
    match answer(world, action) {
        Some(event) if steps > 0 => {
            let (next, asked) = step_view(state, event);
            seq![action] + actions_from(world, next, asked, (steps - 1) as nat)
        },
        _ => seq![action],
    }
}

/// Everything that one cycle asks for, in order, from the claim to the end.
pub open spec fn cycle_actions(world: World) -> Seq<ActionView> {
    actions_from(world, CycleView::Claiming, ActionView::Claim, 3)
}

/// How often a run of actions sends a digest out.
pub open spec fn deliveries(actions: Seq<ActionView>) -> nat {
    actions.filter(|a: ActionView| a is Deliver).len()
}

/// How often a run of actions asks for an analysis.
pub open spec fn analyses(actions: Seq<ActionView>) -> nat {
    actions.filter(|a: ActionView| a is Analyze).len()
}

/// The report of a cycle whose claim gave `batch`.
pub open spec fn report_of(world: World, batch: Seq<ThoughtView>) -> ReportView {
    ReportView {
        batch,
        analysis: if project_ideas(batch).len() > 0 {
            match (world.analyzer)(project_ideas(batch)) {
                Ok(text) => Some(text),
                Err(_) => None,
            }
        } else {
            None
        },
        digest_sent: (world.digester)(batch) is Ok,
    }
}

/// A cycle whose claim fails asks for nothing else: it ends with the error
/// of the claim, and neither the analysis nor the digest is touched.
pub proof fn lemma_cycle_claim_failed(world: World)
    requires
        world.claimed is Err,
    ensures
        cycle_actions(world) == seq![
            ActionView::Claim,
            ActionView::Finish(Err(world.claimed->Err_0)),
        ],
        deliveries(cycle_actions(world)) == 0,
        analyses(cycle_actions(world)) == 0,
{
    reveal_with_fuel(actions_from, 3);
    let expected = seq![ActionView::Claim, ActionView::Finish(Err(world.claimed->Err_0))];
    assert(cycle_actions(world) =~= expected);
    reveal_with_fuel(Seq::filter, 3);
    assert(expected.drop_last() =~= seq![ActionView::Claim]);
    assert(seq![ActionView::Claim].drop_last() =~= Seq::<ActionView>::empty());
}

/// A cycle over a batch without project ideas, the empty batch among them,
/// skips the analysis and sends the whole batch out as a digest exactly
/// once.
pub proof fn lemma_cycle_without_projects(world: World)
    requires
        world.claimed is Ok,
        project_ideas(world.claimed->Ok_0).len() == 0,
    ensures
        cycle_actions(world) == seq![
            ActionView::Claim,
            ActionView::Deliver(world.claimed->Ok_0),
            ActionView::Finish(Ok(report_of(world, world.claimed->Ok_0))),
        ],
        deliveries(cycle_actions(world)) == 1,
        analyses(cycle_actions(world)) == 0,
        report_of(world, world.claimed->Ok_0).analysis is None,
{
    reveal_with_fuel(actions_from, 4);
    let batch = world.claimed->Ok_0;
    let claim = ActionView::Claim;
    let deliver = ActionView::Deliver(batch);
    let finish = ActionView::Finish(Ok(report_of(world, batch)));
    let expected = seq![claim, deliver, finish];
    assert(cycle_actions(world) =~= expected);
    reveal_with_fuel(Seq::filter, 4);
    assert(expected.drop_last() =~= seq![claim, deliver]);
    assert(seq![claim, deliver].drop_last() =~= seq![claim]);
    assert(seq![claim].drop_last() =~= Seq::<ActionView>::empty());
}

/// A cycle over a batch with project ideas asks for their analysis once,
/// with the ideas in the order of the batch, and then, whatever the analysis
/// answered, sends the whole batch out as a digest exactly once.
pub proof fn lemma_cycle_with_projects(world: World)
    requires
        world.claimed is Ok,
        project_ideas(world.claimed->Ok_0).len() > 0,
    ensures
        cycle_actions(world) == seq![
            ActionView::Claim,
            ActionView::Analyze(project_ideas(world.claimed->Ok_0)),
            ActionView::Deliver(world.claimed->Ok_0),
            ActionView::Finish(Ok(report_of(world, world.claimed->Ok_0))),
        ],
        deliveries(cycle_actions(world)) == 1,
        analyses(cycle_actions(world)) == 1,
{
    reveal_with_fuel(actions_from, 4);
    let batch = world.claimed->Ok_0;
    let claim = ActionView::Claim;
    let analyze = ActionView::Analyze(project_ideas(batch));
    let deliver = ActionView::Deliver(batch);
    let finish = ActionView::Finish(Ok(report_of(world, batch)));
    let expected = seq![claim, analyze, deliver, finish];
    assert(cycle_actions(world) =~= expected);
    reveal_with_fuel(Seq::filter, 5);
    assert(expected.drop_last() =~= seq![claim, analyze, deliver]);
    assert(seq![claim, analyze, deliver].drop_last() =~= seq![claim, analyze]);
    assert(seq![claim, analyze].drop_last() =~= seq![claim]);
    assert(seq![claim].drop_last() =~= Seq::<ActionView>::empty());
}

/// A cycle over an empty batch still sends a digest out, exactly once. What
/// it sends is the empty batch, whose digest is the page that says that
/// nothing was recorded.
pub proof fn lemma_cycle_empty_batch(world: World)
    requires
        world.claimed == Ok::<Seq<ThoughtView>, AppError>(Seq::empty()),
    ensures
        cycle_actions(world) == seq![
            ActionView::Claim,
            ActionView::Deliver(Seq::empty()),
            ActionView::Finish(Ok(report_of(world, Seq::empty()))),
        ],
        deliveries(cycle_actions(world)) == 1,
        analyses(cycle_actions(world)) == 0,
        digest_html(Seq::empty()) == EMPTY_PAGE@,
{
    reveal(Seq::filter);
    assert(project_ideas(Seq::empty()) =~= Seq::<Seq<char>>::empty());
    lemma_cycle_without_projects(world);
}

/// Whenever the claim succeeds, the digest goes out exactly once, whatever
/// the batch holds and whatever the analysis answers.
pub proof fn lemma_cycle_delivers_once(world: World)
    requires
        world.claimed is Ok,
    ensures
        deliveries(cycle_actions(world)) == 1,
        cycle_actions(world).contains(ActionView::Deliver(world.claimed->Ok_0)),
        cycle_actions(world).last() == ActionView::Finish(
            Ok(report_of(world, world.claimed->Ok_0)),
        ),
{
    let batch = world.claimed->Ok_0;
    if project_ideas(batch).len() > 0 {
        lemma_cycle_with_projects(world);
        assert(cycle_actions(world)[2] == ActionView::Deliver(batch));
    } else {
        lemma_cycle_without_projects(world);
        assert(cycle_actions(world)[1] == ActionView::Deliver(batch));
    }
}

} // verus!
