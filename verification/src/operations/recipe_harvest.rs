//! The harvesting protocol as a state machine. The machine decides what to
//! ask the device next and how long to wait for it; its driver sends the
//! requests, listens on the packet tap, and reports back what happened.

use crate::ecam::hardware_enums::EcamBeverageId;
use crate::operations::recipe_list::{
    lemma_remaining, RecipeAccumulator, RecipeAccumulatorView, RecipeList,
};
use crate::protocol::command::{ProfileResponse, ProfileResponseView, Response, ResponseView};
use vstd::prelude::*;

verus! {

/// How often the beverages that are still incomplete are asked for again.
pub const MAX_PASSES: u8 = 3;

/// How long, in milliseconds, a request may stay unanswered.
pub const POLL_WINDOW_MS: u64 = 500;

/// How long, in milliseconds, one wait on the packet tap lasts at most.
pub const POLL_INTERVAL_MS: u64 = 50;

/// The two requests that together give the recipe of a beverage.
#[derive(Clone, Copy, Debug, PartialEq, Eq, Structural)]
pub enum RecipeRequestKind {
    /// Asks for the bounds of each ingredient.
    RecipeMinMaxSync,
    /// Asks for the value of each ingredient.
    RecipeQuantityRead,
}

/// The request that was sent last, or is to be sent next.
#[derive(Clone, Copy, Debug, PartialEq, Eq, Structural)]
pub struct HarvestStep {
    pub beverage: EcamBeverageId,
    pub kind: RecipeRequestKind,
    /// Whether the request is out and its answer awaited.
    pub waiting: bool,
}

/// What the driver has to do next.
#[derive(Clone, Copy, Debug, PartialEq, Eq, Structural)]
pub enum HarvestAction {
    /// Send this request for this beverage, then report `Sent` or
    /// `SendFailed`.
    Send(RecipeRequestKind, EcamBeverageId),
    /// Wait on the packet tap for at most this many milliseconds, then report
    /// `Packet` or `Quiet`.
    Poll(u64),
    /// Nothing is left to do: take the recipes.
    Finish,
}

/// What the driver reports back.
#[derive(Clone, Debug, PartialEq)]
pub enum HarvestEvent {
    /// The request was handed to the transport.
    Sent,
    /// The transport refused the request.
    SendFailed,
    /// A response came in on the tap, this many milliseconds after the
    /// request was sent.
    Packet(Response, u64),
    /// The wait ended without a response, this many milliseconds after the
    /// request was sent.
    Quiet(u64),
    /// The caller gave the harvest up.
    Cancelled,
}

/// A [`HarvestEvent`] with its response as a view.
pub enum HarvestEventView {
    Sent,
    SendFailed,
    Packet(ResponseView, u64),
    Quiet(u64),
    Cancelled,
}

impl View for HarvestEvent {
    type V = HarvestEventView;

    open spec fn view(&self) -> HarvestEventView {
        match self {
            HarvestEvent::Sent => HarvestEventView::Sent,
            HarvestEvent::SendFailed => HarvestEventView::SendFailed,
            HarvestEvent::Packet(response, elapsed) => HarvestEventView::Packet(
                response@,
                *elapsed,
            ),
            HarvestEvent::Quiet(elapsed) => HarvestEventView::Quiet(*elapsed),
            HarvestEvent::Cancelled => HarvestEventView::Cancelled,
        }
    }
}

/// The request that a response answers, if it answers one of the two.
pub open spec fn answered_request(response: ResponseView) -> Option<RecipeRequestKind> {
    match response {
        ResponseView::Profile(ProfileResponseView::RecipeQuantities(_)) => Some(
            RecipeRequestKind::RecipeQuantityRead,
        ),
        ResponseView::Profile(ProfileResponseView::RecipeMinMax(_, _)) => Some(
            RecipeRequestKind::RecipeMinMaxSync,
        ),
        _ => None,
    }
}

/// The state of a harvest: what was collected, where the current pass
/// stands, and the beverages that this pass has still to ask for.
pub struct RecipeHarvestView {
    pub recipes: RecipeAccumulatorView,
    /// The number of the current pass, from 0.
    pub pass: u8,
    /// The request in hand; `None` once the harvest is finished.
    pub current: Option<HarvestStep>,
    /// The beverages of this pass that come after the current one.
    pub upcoming: Seq<EcamBeverageId>,
}

impl RecipeHarvestView {
    /// The finished harvest: nothing in hand, nothing to come.
    pub open spec fn finished(recipes: RecipeAccumulatorView, pass: u8) -> Self {
        RecipeHarvestView { recipes, pass, current: None, upcoming: Seq::empty() }
    }

    /// The state at the start of pass number `pass`: the beverages that are
    /// still incomplete are lined up, the first of them in hand. The harvest
    /// is finished instead when the passes are used up or no beverage is
    /// left.
    pub open spec fn begin_pass(recipes: RecipeAccumulatorView, pass: u8) -> Self {
        let remaining = recipes.remaining();
        if pass >= MAX_PASSES || remaining.len() == 0 {
            Self::finished(recipes, pass)
        } else {
            RecipeHarvestView {
                recipes,
                pass,
                current: Some(
                    HarvestStep {
                        beverage: remaining[0],
                        kind: RecipeRequestKind::RecipeMinMaxSync,
                        waiting: false,
                    },
                ),
                upcoming: remaining.skip(1),
            }
        }
    }

    /// The state after the current beverage is left: the next beverage of the
    /// pass is in hand, or the next pass begins.
    pub open spec fn next_beverage(self) -> Self {
        if self.upcoming.len() > 0 {
            RecipeHarvestView {
                current: Some(
                    HarvestStep {
                        beverage: self.upcoming[0],
                        kind: RecipeRequestKind::RecipeMinMaxSync,
                        waiting: false,
                    },
                ),
                upcoming: self.upcoming.skip(1),
                ..self
            }
        } else if self.pass >= MAX_PASSES - 1 {
            Self::finished(self.recipes, self.pass)
        } else {
            Self::begin_pass(self.recipes, (self.pass + 1) as u8)
        }
    }

    /// The state after the current request is left: the second request of
    /// the beverage is in hand, or the beverage is left too.
    pub open spec fn next_request(self) -> Self {
        match self.current {
            Some(step) => if step.kind == RecipeRequestKind::RecipeMinMaxSync {
                RecipeHarvestView {
                    current: Some(
                        HarvestStep {
                            beverage: step.beverage,
                            kind: RecipeRequestKind::RecipeQuantityRead,
                            waiting: false,
                        },
                    ),
                    ..self
                }
            } else {
                self.next_beverage()
            },
            None => self,
        }
    }

    /// What the driver has to do in this state.
    pub open spec fn action(self) -> HarvestAction {
        match self.current {
            None => HarvestAction::Finish,
            Some(step) => if step.waiting {
                HarvestAction::Poll(POLL_INTERVAL_MS)
            } else {
                HarvestAction::Send(step.kind, step.beverage)
            },
        }
    }

    /// The state after a response was observed while waiting. The response is
    /// merged in. If the beverage is now complete, the harvest moves on to
    /// the next beverage. Else it moves on to the next request if the
    /// response answers the request that is out, or if the window has
    /// closed; otherwise it keeps waiting.
    pub open spec fn observe(self, step: HarvestStep, response: ResponseView, elapsed: u64) -> Self {
        let merged = RecipeHarvestView {
            recipes: self.recipes.accumulate(step.beverage, response),
            ..self
        };
        if merged.recipes.is_complete(step.beverage) {
            merged.next_beverage()
        } else if answered_request(response) == Some(step.kind) || elapsed >= POLL_WINDOW_MS {
            merged.next_request()
        } else {
            merged
        }
    }

    /// The state after the driver reported `event`.
    ///
    /// A finished harvest stays as it is. While a request is to be sent, only
    /// the outcome of the send counts: the answer is awaited after `Sent`,
    /// and a failed send is passed over like an unanswered request. While an
    /// answer is awaited, a response is observed, and a quiet wait ends the
    /// request once the window has closed. Cancelling finishes the harvest
    /// with what was collected.
    pub open spec fn handle(self, event: HarvestEventView) -> Self {
        match self.current {
            None => self,
            Some(step) => match event {
                HarvestEventView::Cancelled => Self::finished(self.recipes, self.pass),
                HarvestEventView::Sent => if step.waiting {
                    self
                } else {
                    RecipeHarvestView {
                        current: Some(HarvestStep { waiting: true, ..step }),
                        ..self
                    }
                },
                HarvestEventView::SendFailed => if step.waiting {
                    self
                } else {
                    self.next_request()
                },
                HarvestEventView::Quiet(elapsed) => if step.waiting && elapsed >= POLL_WINDOW_MS {
                    self.next_request()
                } else {
                    self
                },
                HarvestEventView::Packet(response, elapsed) => if step.waiting {
                    self.observe(step, response, elapsed)
                } else {
                    self
                },
            },
        }
    }
}

/// A harvest in progress.
pub struct RecipeHarvest {
    recipes: RecipeAccumulator,
    pass: u8,
    current: Option<HarvestStep>,
    queue: Vec<EcamBeverageId>,
    next: usize,
}

impl View for RecipeHarvest {
    type V = RecipeHarvestView;

    closed spec fn view(&self) -> RecipeHarvestView {
        RecipeHarvestView {
            recipes: self.recipes@,
            pass: self.pass,
            current: self.current,
            upcoming: if self.next <= self.queue@.len() {
                self.queue@.skip(self.next as int)
            } else {
                Seq::empty()
            },
        }
    }
}

/// The request that a response answers, if it answers one of the two.
pub fn request_answered_by(response: &Response) -> (kind: Option<RecipeRequestKind>)
    ensures
        kind == answered_request(response@),
{
    match response {
        Response::Profile(ProfileResponse::RecipeQuantities(_)) => Some(
            RecipeRequestKind::RecipeQuantityRead,
        ),
        Response::Profile(ProfileResponse::RecipeMinMax(_, _)) => Some(
            RecipeRequestKind::RecipeMinMaxSync,
        ),
        _ => None,
    }
}

impl RecipeHarvest {
    /// Starts a harvest into `recipes` with the first pass.
    pub fn new(recipes: RecipeAccumulator) -> (harvest: Self)
        ensures
            harvest@ == RecipeHarvestView::begin_pass(recipes@, 0),
            harvest@.wf(),
    {
        proof {
            lemma_begin_pass(recipes@, 0);
        }
        let mut harvest = RecipeHarvest {
            recipes,
            pass: 0,
            current: None,
            queue: Vec::new(),
            next: 0,
        };
        harvest.begin_pass(0);
        harvest
    }

    /// Lines up the beverages that are still incomplete for pass number
    /// `pass`.
    fn begin_pass(&mut self, pass: u8)
        ensures
            final(self)@ == RecipeHarvestView::begin_pass(old(self)@.recipes, pass),
    {
        let remaining = self.recipes.get_remaining_beverages();
        self.pass = pass;
        if pass >= MAX_PASSES || remaining.len() == 0 {
            self.current = None;
            self.queue = Vec::new();
            self.next = 0;
        } else {
            self.current = Some(
                HarvestStep {
                    beverage: remaining[0],
                    kind: RecipeRequestKind::RecipeMinMaxSync,
                    waiting: false,
                },
            );
            self.queue = remaining;
            self.next = 1;
        }
        proof {
            assert(self@.upcoming =~= RecipeHarvestView::begin_pass(
                old(self)@.recipes,
                pass,
            ).upcoming);
        }
    }

    /// Leaves the current beverage.
    fn next_beverage(&mut self)
        ensures
            final(self)@ == old(self)@.next_beverage(),
    {
        if self.next < self.queue.len() {
            self.current = Some(
                HarvestStep {
                    beverage: self.queue[self.next],
                    kind: RecipeRequestKind::RecipeMinMaxSync,
                    waiting: false,
                },
            );
            self.next = self.next + 1;
            proof {
                assert(old(self)@.upcoming[0] == self.queue@[self.next - 1]);
                assert(self@.upcoming =~= old(self)@.upcoming.skip(1));
            }
        } else if self.pass >= MAX_PASSES - 1 {
            self.current = None;
            self.queue = Vec::new();
            self.next = 0;
            proof {
                assert(self@.upcoming =~= Seq::empty());
            }
        } else {
            let pass = self.pass + 1;
            self.begin_pass(pass);
        }
    }

    /// Leaves the current request.
    fn next_request(&mut self)
        ensures
            final(self)@ == old(self)@.next_request(),
    {
        match self.current {
            Some(step) => {
                if step.kind == RecipeRequestKind::RecipeMinMaxSync {
                    self.current = Some(
                        HarvestStep {
                            beverage: step.beverage,
                            kind: RecipeRequestKind::RecipeQuantityRead,
                            waiting: false,
                        },
                    );
                } else {
                    self.next_beverage();
                }
            },
            None => {},
        }
    }

    /// What the driver has to do next.
    pub fn action(&self) -> (action: HarvestAction)
        ensures
            action == self@.action(),
    {
        match self.current {
            None => HarvestAction::Finish,
            Some(step) => {
                if step.waiting {
                    HarvestAction::Poll(POLL_INTERVAL_MS)
                } else {
                    HarvestAction::Send(step.kind, step.beverage)
                }
            },
        }
    }

    /// Whether nothing is left to do.
    pub fn is_finished(&self) -> (finished: bool)
        ensures
            finished == self@.current.is_none(),
    {
        self.current.is_none()
    }

    /// Takes in what the driver reports and moves the harvest on.
    pub fn handle(&mut self, event: HarvestEvent)
        ensures
            final(self)@ == old(self)@.handle(event@),
            old(self)@.wf() ==> final(self)@.wf(),
    {
        proof {
            if self@.wf() {
                lemma_handle_makes_progress(self@, event@);
            }
        }
        let step = match self.current {
            Some(step) => step,
            None => {
                return ;
            },
        };
        match event {
            HarvestEvent::Cancelled => {
                self.current = None;
                self.queue = Vec::new();
                self.next = 0;
                proof {
                    assert(self@.upcoming =~= Seq::empty());
                }
            },
            HarvestEvent::Sent => {
                if !step.waiting {
                    self.current = Some(
                        HarvestStep { beverage: step.beverage, kind: step.kind, waiting: true },
                    );
                }
            },
            HarvestEvent::SendFailed => {
                if !step.waiting {
                    self.next_request();
                }
            },
            HarvestEvent::Quiet(elapsed) => {
                if step.waiting && elapsed >= POLL_WINDOW_MS {
                    self.next_request();
                }
            },
            HarvestEvent::Packet(response, elapsed) => {
                if step.waiting {
                    let answered = request_answered_by(&response);
                    self.recipes.accumulate_packet(step.beverage, response);
                    if self.recipes.is_complete(step.beverage) {
                        self.next_beverage();
                    } else if answered == Some(step.kind) || elapsed >= POLL_WINDOW_MS {
                        self.next_request();
                    }
                }
            },
        }
    }

    /// Ends the harvest and gives the recipes collected so far: one entry for
    /// each beverage of which both lists were seen and neither is empty.
    pub fn take(self) -> (list: RecipeList)
        ensures
            list@ == self@.recipes.take(),
    {
        self.recipes.take()
    }
}

impl RecipeHarvestView {
    /// True of the states that a harvest can be in: while a request is in
    /// hand, a pass is under way and fewer beverages are queued than the
    /// accumulator has.
    pub open spec fn wf(self) -> bool {
        self.current.is_some() ==> self.pass < MAX_PASSES && self.upcoming.len()
            < self.recipes.beverages.len()
    }

    /// How many requests the harvest may still send, at most: those of the
    /// beverage in hand, two for every beverage queued in this pass, and two
    /// for every beverage in each pass to come.
    pub open spec fn requests_left(self) -> nat {
        match self.current {
            None => 0,
            Some(step) => {
                let later = (MAX_PASSES - 1 - self.pass) * 2 * self.recipes.beverages.len();
                let queued = 2 * self.upcoming.len();
                let second: int = if step.kind == RecipeRequestKind::RecipeMinMaxSync {
                    1
                } else {
                    0
                };
                let first: int = if step.waiting {
                    0
                } else {
                    1
                };
                (later + queued + second + first) as nat
            },
        }
    }

    /// How many decisive reports the harvest can still take, at most: a
    /// report is decisive when it ends a send or ends a wait.
    pub open spec fn steps_left(self) -> nat {
        match self.current {
            None => 0,
            Some(step) => if step.waiting {
                2 * self.requests_left() + 1
            } else {
                2 * self.requests_left()
            },
        }
    }

    /// True of the reports that end a send or a wait in this state: the
    /// outcome of a send while a request is to be sent; anything that comes
    /// when the window has closed while an answer is awaited; and
    /// cancelling.
    pub open spec fn decisive(self, event: HarvestEventView) -> bool {
        match self.current {
            None => false,
            Some(step) => match event {
                HarvestEventView::Cancelled => true,
                HarvestEventView::Sent | HarvestEventView::SendFailed => !step.waiting,
                HarvestEventView::Quiet(elapsed) => step.waiting && elapsed >= POLL_WINDOW_MS,
                HarvestEventView::Packet(_, elapsed) => step.waiting && elapsed >= POLL_WINDOW_MS,
            },
        }
    }
}

/// A pass begins in a state that a harvest can be in, with at most two
/// requests to send for each beverage in this pass and in each pass after
/// it.
pub proof fn lemma_begin_pass(recipes: RecipeAccumulatorView, pass: u8)
    ensures
        RecipeHarvestView::begin_pass(recipes, pass).wf(),
        RecipeHarvestView::begin_pass(recipes, pass).recipes == recipes,
        pass < MAX_PASSES ==> RecipeHarvestView::begin_pass(recipes, pass).requests_left() <= (
        MAX_PASSES - pass) * 2 * recipes.beverages.len(),
{
    let remaining = recipes.remaining();
    let count = recipes.beverages.len();
    if remaining.len() > 0 {
        lemma_remaining(recipes, remaining[0]);
    }
    if pass < MAX_PASSES {
        let left = (MAX_PASSES - 1 - pass) as int;
        assert((left + 1) * 2 * count == left * 2 * count + 2 * count) by (nonlinear_arith);
        assert(0 <= left * 2 * count) by (nonlinear_arith)
            requires
                0 <= left,
                0 <= count,
        ;
    }
}

/// Leaving a beverage or a request keeps the state one that a harvest can be
/// in, keeps what was collected, and adds no request.
proof fn lemma_moving_on(state: RecipeHarvestView)
    requires
        state.wf(),
        state.current.is_some(),
    ensures
        state.next_beverage().wf(),
        state.next_request().wf(),
        state.next_beverage().recipes == state.recipes,
        state.next_request().recipes == state.recipes,
        state.next_beverage().requests_left() <= state.requests_left(),
        state.next_request().requests_left() <= state.requests_left(),
        !state.current.unwrap().waiting ==> state.next_beverage().requests_left()
            < state.requests_left() && state.next_request().requests_left()
            < state.requests_left(),
        state.next_beverage().current.is_some() ==> !state.next_beverage().current.unwrap().waiting,
        state.next_request().current.is_some() ==> !state.next_request().current.unwrap().waiting,
{
    let count = state.recipes.beverages.len();
    let left = (MAX_PASSES - 1 - state.pass) as int;
    if state.upcoming.len() == 0 && state.pass < MAX_PASSES - 1 {
        lemma_begin_pass(state.recipes, (state.pass + 1) as u8);
        assert(left * 2 * count == (left - 1) * 2 * count + 2 * count) by (nonlinear_arith);
    }
    assert(0 <= left * 2 * count) by (nonlinear_arith)
        requires
            0 <= left,
            0 <= count,
    ;
}

/// Whatever the driver reports, the harvest stays in a state that it can be
/// in and collects for the same beverages; no report adds to the requests
/// that may still be sent or to the decisive reports that can still be
/// taken; and every decisive report takes one away. So a harvest whose
/// driver ends every send and every wait is finished after at most
/// `steps_left` of them.
pub proof fn lemma_handle_makes_progress(state: RecipeHarvestView, event: HarvestEventView)
    requires
        state.wf(),
    ensures
        state.handle(event).wf(),
        state.handle(event).recipes.beverages == state.recipes.beverages,
        state.handle(event).requests_left() <= state.requests_left(),
        state.handle(event).steps_left() <= state.steps_left(),
        state.decisive(event) ==> state.handle(event).steps_left() < state.steps_left(),
{
    if let Some(step) = state.current {
        lemma_moving_on(state);
        if let HarvestEventView::Packet(response, elapsed) = event {
            if step.waiting {
                let merged = RecipeHarvestView {
                    recipes: state.recipes.accumulate(step.beverage, response),
                    ..state
                };
                assert(merged.recipes.beverages == state.recipes.beverages);
                assert(merged.requests_left() == state.requests_left());
                lemma_moving_on(merged);
            }
        }
    }
}

/// A harvest sends at most two requests for each beverage in each of its
/// passes.
pub proof fn lemma_harvest_is_bounded(recipes: RecipeAccumulatorView)
    ensures
        RecipeHarvestView::begin_pass(recipes, 0).wf(),
        RecipeHarvestView::begin_pass(recipes, 0).requests_left() <= MAX_PASSES * 2
            * recipes.beverages.len(),
{
    lemma_begin_pass(recipes, 0);
}

} // verus!
