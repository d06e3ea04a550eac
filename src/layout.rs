use vstd::prelude::*;
use crate::namespace::PipelineId;

verus! {

/// A rectangle in app units (1/60 of a CSS pixel).
#[derive(Clone, Copy, Debug, PartialEq, Eq, Structural)]
pub struct ClipRect {
    pub x: i32,
    pub y: i32,
    pub width: i32,
    pub height: i32,
}

/// A viewport in CSS pixels and the device pixel ratio in thousandths
/// (1000 is a ratio of one).
#[derive(Clone, Copy, Debug, PartialEq, Eq, Structural)]
pub struct WindowSize {
    pub width: u32,
    pub height: u32,
    pub device_pixel_ratio_millis: u32,
}

/// A document origin as a (scheme, host, port) triple.
#[derive(Debug)]
pub struct Origin {
    pub scheme: String,
    pub host: String,
    pub port: u16,
}

#[derive(Clone, Copy, Debug, PartialEq, Eq, Structural)]
pub enum ReflowGoal {
    Full,
}

/// One layout pass, with the endpoint on which its completion is signalled.
pub struct ReflowRequest<C> {
    pub page_clip_rect: ClipRect,
    pub window_size: WindowSize,
    pub stylesheets_changed: bool,
    /// The node to restyle from, if any, by address.
    pub dirty_root: Option<u64>,
    pub origin: Origin,
    pub goal: ReflowGoal,
    pub completion: C,
}

/// The commands a layout worker accepts, in the order they are sent.
pub enum LayoutMsg<C> {
    SetFinalUrl(String),
    Reflow(ReflowRequest<C>),
}

/// What the worker's thread does after handling one command.
pub enum LayoutAction<C> {
    Nothing,
    /// Send the completion signal on this endpoint.
    SignalCompletion(C),
}

#[derive(Clone, Copy, Debug, PartialEq, Eq, Structural)]
pub enum WorkerState {
    /// Constructed, no command handled yet.
    Idle,
    /// Draining its command queue.
    Processing,
}

pub ghost struct WorkerView {
    pub pipeline_id: PipelineId,
    pub url: Seq<char>,
    pub window_size: WindowSize,
    pub state: WorkerState,
}

/// The worker's view and action after handling `msg` in state `w`.
pub open spec fn step<C>(w: WorkerView, msg: LayoutMsg<C>) -> (WorkerView, LayoutAction<C>) {
    match msg {
        LayoutMsg::SetFinalUrl(url) => (
            WorkerView { url: url@, state: WorkerState::Processing, ..w },
            LayoutAction::Nothing,
        ),
        LayoutMsg::Reflow(req) => (
            WorkerView { window_size: req.window_size, state: WorkerState::Processing, ..w },
            LayoutAction::SignalCompletion(req.completion),
        ),
    }
}

/// The worker's view after handling every command of `msgs` in order.
pub open spec fn final_view<C>(w: WorkerView, msgs: Seq<LayoutMsg<C>>) -> WorkerView
    decreases msgs.len(),
{
    if msgs.len() == 0 {
        w
    } else {
        final_view(step(w, msgs[0]).0, msgs.drop_first())
    }
}

/// The actions taken while handling every command of `msgs` in order.
pub open spec fn actions<C>(w: WorkerView, msgs: Seq<LayoutMsg<C>>) -> Seq<LayoutAction<C>>
    decreases msgs.len(),
{
    if msgs.len() == 0 {
        Seq::empty()
    } else {
        seq![step(w, msgs[0]).1].add(actions(step(w, msgs[0]).0, msgs.drop_first()))
    }
}

/// The layout state of one page: its pipeline, document URL and viewport.
pub struct LayoutWorker {
    pipeline_id: PipelineId,
    url: String,
    window_size: WindowSize,
    state: WorkerState,
}

impl LayoutWorker {
    pub closed spec fn view(&self) -> WorkerView {
        WorkerView {
            pipeline_id: self.pipeline_id,
            url: self.url@,
            window_size: self.window_size,
            state: self.state,
        }
    }

    pub fn new(pipeline_id: PipelineId, url: String, window_size: WindowSize) -> (r: Self)
        ensures
            r.view() == (WorkerView { pipeline_id, url: url@, window_size, state: WorkerState::Idle }),
    {
        LayoutWorker { pipeline_id, url, window_size, state: WorkerState::Idle }
    }

    pub fn pipeline_id(&self) -> (r: PipelineId)
        ensures
            r == self.view().pipeline_id,
    {
        self.pipeline_id
    }

    pub fn url(&self) -> (r: &String)
        ensures
            r@ == self.view().url,
    {
        &self.url
    }

    pub fn window_size(&self) -> (r: WindowSize)
        ensures
            r == self.view().window_size,
    {
        self.window_size
    }

    pub fn state(&self) -> (r: WorkerState)
        ensures
            r == self.view().state,
    {
        self.state
    }

    /// Handles one command. A reflow hands back its completion endpoint, on
    /// which the caller signals once the pass is done.
    pub fn handle<C>(&mut self, msg: LayoutMsg<C>) -> (r: LayoutAction<C>)
        ensures
            (final(self).view(), r) == step(old(self).view(), msg),
    {
        self.state = WorkerState::Processing;
        match msg {
            LayoutMsg::SetFinalUrl(url) => {
                self.url = url;
                LayoutAction::Nothing
            },
            LayoutMsg::Reflow(req) => {
                self.window_size = req.window_size;
                LayoutAction::SignalCompletion(req.completion)
            },
        }
    }
}

/// Sending the final URL and then a reflow to a freshly constructed worker
/// yields no signal for the URL and exactly one completion signal, on the
/// request's own endpoint, for the reflow.
pub proof fn lemma_reflow_round_trip<C>(w: WorkerView, url: String, req: ReflowRequest<C>)
    requires
        w.state == WorkerState::Idle,
    ensures
        step(w, LayoutMsg::<C>::SetFinalUrl(url)).1 == LayoutAction::<C>::Nothing,
        step(step(w, LayoutMsg::<C>::SetFinalUrl(url)).0, LayoutMsg::Reflow(req)).1
            == LayoutAction::SignalCompletion(req.completion),
        actions(w, seq![LayoutMsg::SetFinalUrl(url), LayoutMsg::Reflow(req)])
            == seq![LayoutAction::Nothing, LayoutAction::SignalCompletion(req.completion)],
{
    let msgs = seq![LayoutMsg::SetFinalUrl(url), LayoutMsg::Reflow(req)];
    let w1 = step(w, msgs[0]).0;
    assert(msgs.drop_first() =~= seq![LayoutMsg::Reflow(req)]);
    assert(msgs.drop_first().drop_first() =~= Seq::<LayoutMsg<C>>::empty());
    assert(actions(step(w1, msgs[1]).0, msgs.drop_first().drop_first()) =~= Seq::empty());
    assert(actions(w1, msgs.drop_first()) =~= seq![LayoutAction::SignalCompletion(req.completion)]);
    assert(actions(w, msgs) =~= seq![LayoutAction::Nothing, LayoutAction::SignalCompletion(req.completion)]);
}

/// Whatever commands a worker handles, it takes one action per command, and
/// signals a completion exactly at the reflows, each on that reflow's own
/// endpoint: never more than once per request and never before it arrives.
pub proof fn lemma_completions_match_reflows<C>(w: WorkerView, msgs: Seq<LayoutMsg<C>>)
    ensures
        actions(w, msgs).len() == msgs.len(),
        forall|i: int| 0 <= i < msgs.len() ==>
            ((#[trigger] actions(w, msgs)[i]) is SignalCompletion <==> msgs[i] is Reflow),
        forall|i: int| 0 <= i < msgs.len() && msgs[i] is Reflow ==>
            (#[trigger] actions(w, msgs)[i]) == LayoutAction::SignalCompletion((msgs[i]->Reflow_0).completion),
    decreases msgs.len(),
{
    if msgs.len() > 0 {
        let w1 = step(w, msgs[0]).0;
        let rest = msgs.drop_first();
        lemma_completions_match_reflows(w1, rest);
        let acts = actions(w, msgs);
        assert(acts == seq![step(w, msgs[0]).1].add(actions(w1, rest)));
        assert forall|i: int| 0 < i < msgs.len() implies #[trigger] acts[i] == actions(w1, rest)[i - 1]
            && msgs[i] == rest[i - 1] by {
        }
    }
}

} // verus!
