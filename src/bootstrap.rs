use vstd::prelude::*;
use crate::layout::{ClipRect, Origin, ReflowGoal, ReflowRequest, WindowSize};

verus! {

#[verifier::external_type_specification]
#[verifier::external_body]
pub struct ExParseError(url::ParseError);

/// The serialization of the URL that `s` parses to, or `None` where it does
/// not parse.
pub uninterp spec fn parsed_url(s: Seq<char>) -> Option<Seq<char>>;

/// Relies on url::Url::parse, and on the serialization that a parsed `Url`
/// holds: both depend on the input string alone.
#[verifier::external_body]
fn parse_url(s: &str) -> (r: Result<String, url::ParseError>)
    ensures
        r is Ok <==> parsed_url(s@) is Some,
        r is Ok ==> parsed_url(s@) == Some(r->Ok_0@),
{
    match url::Url::parse(s) {
        Ok(u) => Ok(String::from(u)),
        Err(e) => Err(e),
    }
}

/// The subsystems of the pipeline, each started once.
#[derive(Clone, Copy, Debug, PartialEq, Eq, Structural)]
pub enum Component {
    Namespace,
    Profilers,
    EventLoopWaker,
    EmbedderProxy,
    ResourceLoader,
    CompositorProxy,
    FontCache,
    HangMonitor,
    ImageCache,
    LayoutWorker,
}

pub const COMPONENT_COUNT: u8 = 10;

/// The order in which the components are constructed: each after those it
/// holds handles to.
pub open spec fn dependency_order() -> Seq<Component> {
    seq![
        Component::Namespace,
        Component::Profilers,
        Component::EventLoopWaker,
        Component::EmbedderProxy,
        Component::ResourceLoader,
        Component::CompositorProxy,
        Component::FontCache,
        Component::HangMonitor,
        Component::ImageCache,
        Component::LayoutWorker,
    ]
}

/// The component constructed at position `i` of the dependency order.
pub fn component_at(i: u8) -> (r: Component)
    requires
        i < COMPONENT_COUNT,
    ensures
        r == dependency_order()[i as int],
{
    match i {
        0 => Component::Namespace,
        1 => Component::Profilers,
        2 => Component::EventLoopWaker,
        3 => Component::EmbedderProxy,
        4 => Component::ResourceLoader,
        5 => Component::CompositorProxy,
        6 => Component::FontCache,
        7 => Component::HangMonitor,
        8 => Component::ImageCache,
        _ => Component::LayoutWorker,
    }
}

#[derive(Clone, Copy, Debug, PartialEq, Eq, Structural)]
pub enum BootstrapError {
    /// A document URL did not parse.
    InvalidUrl,
    /// A component could not be constructed.
    ConstructionFailed(Component),
    /// A command could not be sent to the layout worker.
    SendFailed,
    /// The reflow's completion channel closed before the signal arrived.
    ChannelClosed,
    /// An event arrived that the current phase does not expect.
    UnexpectedEvent,
}

#[derive(Clone, Copy, Debug, PartialEq, Eq, Structural)]
pub enum Phase {
    Ready,
    /// Constructing the component at this position of the dependency order.
    Constructing(u8),
    /// The final URL is being sent to the layout worker.
    SettingUrl,
    /// The reflow was sent; waiting for its completion signal.
    Reflowing,
    Finished,
    Aborted(BootstrapError),
}

/// What the caller reports back after carrying out the last action.
#[derive(Clone, Copy, Debug, PartialEq, Eq, Structural)]
pub enum Event {
    Begin,
    StepDone,
    StepFailed,
    CompletionReceived,
    CompletionChannelClosed,
}

/// What the caller does next.
#[derive(Clone, Copy, Debug, PartialEq, Eq, Structural)]
pub enum BootstrapAction {
    Construct(Component),
    SendSetFinalUrl,
    /// Send the reflow and block on its completion channel.
    SendReflowAndWait,
    Exit,
    Abort(BootstrapError),
}

pub open spec fn phase_wf(p: Phase) -> bool {
    p matches Phase::Constructing(i) ==> i < COMPONENT_COUNT
}

/// The next phase and action, from phase `p` on event `e`.
pub open spec fn transition(p: Phase, e: Event) -> (Phase, BootstrapAction) {
    match p {
        Phase::Ready => match e {
            Event::Begin => (Phase::Constructing(0), BootstrapAction::Construct(dependency_order()[0])),
            _ => fail(BootstrapError::UnexpectedEvent),
        },
        Phase::Constructing(i) => match e {
            Event::StepDone => if i + 1 < COMPONENT_COUNT {
                (Phase::Constructing((i + 1) as u8), BootstrapAction::Construct(dependency_order()[i + 1]))
            } else {
                (Phase::SettingUrl, BootstrapAction::SendSetFinalUrl)
            },
            Event::StepFailed => fail(BootstrapError::ConstructionFailed(dependency_order()[i as int])),
            _ => fail(BootstrapError::UnexpectedEvent),
        },
        Phase::SettingUrl => match e {
            Event::StepDone => (Phase::Reflowing, BootstrapAction::SendReflowAndWait),
            Event::StepFailed => fail(BootstrapError::SendFailed),
            _ => fail(BootstrapError::UnexpectedEvent),
        },
        Phase::Reflowing => match e {
            Event::CompletionReceived => (Phase::Finished, BootstrapAction::Exit),
            Event::CompletionChannelClosed => fail(BootstrapError::ChannelClosed),
            Event::StepFailed => fail(BootstrapError::SendFailed),
            _ => fail(BootstrapError::UnexpectedEvent),
        },
        Phase::Finished => (Phase::Finished, BootstrapAction::Exit),
        Phase::Aborted(err) => fail(err),
    }
}

pub open spec fn fail(err: BootstrapError) -> (Phase, BootstrapAction) {
    (Phase::Aborted(err), BootstrapAction::Abort(err))
}

/// The phase reached from `p` after the events `es`.
pub open spec fn phase_after(p: Phase, es: Seq<Event>) -> Phase
    decreases es.len(),
{
    if es.len() == 0 {
        p
    } else {
        phase_after(transition(p, es[0]).0, es.drop_first())
    }
}

/// The actions taken from `p` on the events `es`, one per event.
pub open spec fn actions_after(p: Phase, es: Seq<Event>) -> Seq<BootstrapAction>
    decreases es.len(),
{
    if es.len() == 0 {
        Seq::empty()
    } else {
        seq![transition(p, es[0]).1].add(actions_after(transition(p, es[0]).0, es.drop_first()))
    }
}

/// The sequencing of the bootstrap: which component to construct next, when
/// to talk to the layout worker, and when to stop.
pub struct Orchestrator {
    phase: Phase,
}

impl Orchestrator {
    pub closed spec fn view(&self) -> Phase {
        self.phase
    }

    pub open spec fn wf(&self) -> bool {
        phase_wf(self.view())
    }

    pub fn new() -> (r: Self)
        ensures
            r.wf(),
            r.view() == Phase::Ready,
    {
        Orchestrator { phase: Phase::Ready }
    }

    pub fn phase(&self) -> (r: Phase)
        ensures
            r == self.view(),
    {
        self.phase
    }

    /// Advances on `event` and returns the next action.
    pub fn step(&mut self, event: Event) -> (r: BootstrapAction)
        requires
            old(self).wf(),
        ensures
            final(self).wf(),
            (final(self).view(), r) == transition(old(self).view(), event),
    {
        let (p, a) = match self.phase {
            Phase::Ready => match event {
                Event::Begin => (Phase::Constructing(0), BootstrapAction::Construct(component_at(0))),
                _ => abort(BootstrapError::UnexpectedEvent),
            },
            Phase::Constructing(i) => match event {
                Event::StepDone => if i + 1 < COMPONENT_COUNT {
                    (Phase::Constructing(i + 1), BootstrapAction::Construct(component_at(i + 1)))
                } else {
                    (Phase::SettingUrl, BootstrapAction::SendSetFinalUrl)
                },
                Event::StepFailed => abort(BootstrapError::ConstructionFailed(component_at(i))),
                _ => abort(BootstrapError::UnexpectedEvent),
            },
            Phase::SettingUrl => match event {
                Event::StepDone => (Phase::Reflowing, BootstrapAction::SendReflowAndWait),
                Event::StepFailed => abort(BootstrapError::SendFailed),
                _ => abort(BootstrapError::UnexpectedEvent),
            },
            Phase::Reflowing => match event {
                Event::CompletionReceived => (Phase::Finished, BootstrapAction::Exit),
                Event::CompletionChannelClosed => abort(BootstrapError::ChannelClosed),
                Event::StepFailed => abort(BootstrapError::SendFailed),
                _ => abort(BootstrapError::UnexpectedEvent),
            },
            Phase::Finished => (Phase::Finished, BootstrapAction::Exit),
            Phase::Aborted(err) => abort(err),
        };
        self.phase = p;
        a
    }
}

fn abort(err: BootstrapError) -> (r: (Phase, BootstrapAction))
    ensures
        r == fail(err),
{
    (Phase::Aborted(err), BootstrapAction::Abort(err))
}

/// A document URL in the form the URL parser serializes it, or `InvalidUrl`
/// where `s` does not parse.
pub fn parse_document_url(s: &str) -> (r: Result<String, BootstrapError>)
    ensures
        parsed_url(s@) is None ==> r == Err::<String, BootstrapError>(BootstrapError::InvalidUrl),
        parsed_url(s@) is Some ==> r is Ok && parsed_url(s@) == Some(r->Ok_0@),
{
    match parse_url(s) {
        Ok(u) => Ok(u),
        Err(_) => Err(BootstrapError::InvalidUrl),
    }
}

/// The initial document URL: `about:blank`, as the URL parser serializes it.
pub fn blank_document_url() -> (r: Result<String, BootstrapError>)
    ensures
        parsed_url("about:blank"@) is None ==> r == Err::<String, BootstrapError>(BootstrapError::InvalidUrl),
        parsed_url("about:blank"@) is Some ==> r is Ok && parsed_url("about:blank"@) == Some(r->Ok_0@),
{
    parse_document_url("about:blank")
}

/// The viewport the layout worker is created with: 800 by 600 CSS pixels
/// at a device pixel ratio of one.
pub fn initial_window_size() -> (r: WindowSize)
    ensures
        r == (WindowSize { width: 800, height: 600, device_pixel_ratio_millis: 1000 }),
{
    WindowSize { width: 800, height: 600, device_pixel_ratio_millis: 1000 }
}

/// The one reflow the harness drives: the clip rectangle (0, 0, 500, 500)
/// in app units, a 500 by 500 viewport at ratio one, unchanged stylesheets,
/// no dirty root, origin `http://quox.dev:80`, a full reflow, and
/// `completion` as its completion endpoint.
pub fn harness_reflow_request<C>(completion: C) -> (r: ReflowRequest<C>)
    ensures
        r.page_clip_rect == (ClipRect { x: 0, y: 0, width: 500, height: 500 }),
        r.window_size == (WindowSize { width: 500, height: 500, device_pixel_ratio_millis: 1000 }),
        !r.stylesheets_changed,
        r.dirty_root is None,
        r.origin.scheme@ == "http"@,
        r.origin.host@ == "quox.dev"@,
        r.origin.port == 80,
        r.goal == ReflowGoal::Full,
        r.completion == completion,
{
    ReflowRequest {
        page_clip_rect: ClipRect { x: 0, y: 0, width: 500, height: 500 },
        window_size: WindowSize { width: 500, height: 500, device_pixel_ratio_millis: 1000 },
        stylesheets_changed: false,
        dirty_root: None,
        origin: Origin { scheme: String::from_str("http"), host: String::from_str("quox.dev"), port: 80 },
        goal: ReflowGoal::Full,
        completion,
    }
}

/// Once the reflow is waiting, a completion channel that closes without a
/// signal aborts the bootstrap with `ChannelClosed`, and whatever the caller
/// reports afterwards the bootstrap stays aborted with that error and never
/// finishes.
pub proof fn lemma_closed_completion_is_fatal(es: Seq<Event>)
    ensures
        transition(Phase::Reflowing, Event::CompletionChannelClosed)
            == fail(BootstrapError::ChannelClosed),
        phase_after(Phase::Aborted(BootstrapError::ChannelClosed), es)
            == Phase::Aborted(BootstrapError::ChannelClosed),
        actions_after(Phase::Aborted(BootstrapError::ChannelClosed), es).len() == es.len(),
        forall|i: int| 0 <= i < es.len() ==>
            #[trigger] actions_after(Phase::Aborted(BootstrapError::ChannelClosed), es)[i]
                == BootstrapAction::Abort(BootstrapError::ChannelClosed),
    decreases es.len(),
{
    let p = Phase::Aborted(BootstrapError::ChannelClosed);
    if es.len() > 0 {
        let rest = es.drop_first();
        lemma_closed_completion_is_fatal(rest);
        let acts = actions_after(p, es);
        assert(acts == seq![BootstrapAction::Abort(BootstrapError::ChannelClosed)].add(actions_after(p, rest)));
        assert forall|i: int| 0 < i < es.len() implies #[trigger] acts[i] == actions_after(p, rest)[i - 1] by {}
    }
}

/// The events of a bootstrap in which every step succeeds: the start, one
/// per component, one for the final URL, and the reflow's completion.
pub open spec fn successful_run() -> Seq<Event> {
    seq![Event::Begin].add(Seq::new((COMPONENT_COUNT + 1) as nat, |i: int| Event::StepDone)).add(
        seq![Event::CompletionReceived],
    )
}

/// The actions of a successful bootstrap: construct each component once, in
/// dependency order, then send the final URL, then send the reflow and wait
/// once, then exit.
pub open spec fn successful_actions() -> Seq<BootstrapAction> {
    Seq::new(COMPONENT_COUNT as nat, |i: int| BootstrapAction::Construct(dependency_order()[i])).add(
        seq![BootstrapAction::SendSetFinalUrl, BootstrapAction::SendReflowAndWait, BootstrapAction::Exit],
    )
}

/// When every step succeeds, the bootstrap constructs the components in
/// dependency order, each once, drives exactly one reflow, and finishes.
pub proof fn lemma_successful_bootstrap()
    ensures
        phase_after(Phase::Ready, successful_run()) == Phase::Finished,
        actions_after(Phase::Ready, successful_run()) == successful_actions(),
{
    let n = COMPONENT_COUNT as int;
    let done = Seq::new((n + 1) as nat, |i: int| Event::StepDone);
    let begin = seq![Event::Begin];
    let tail = seq![Event::CompletionReceived];
    lemma_run_concat(Phase::Ready, begin, done);
    lemma_run_concat(Phase::Ready, begin.add(done), tail);
    assert(successful_run() == begin.add(done).add(tail));
    lemma_unfold_one(Phase::Ready, Event::Begin);
    let c0 = Phase::Constructing(0);
    assert(done == Seq::new((n - 0) as nat, |i: int| Event::StepDone).add(seq![Event::StepDone])) by {
        assert(done =~= Seq::new((n - 0) as nat, |i: int| Event::StepDone).add(seq![Event::StepDone]));
    }
    lemma_constructing(0);
    lemma_run_concat(c0, Seq::new((n - 0) as nat, |i: int| Event::StepDone), seq![Event::StepDone]);
    lemma_unfold_one(Phase::SettingUrl, Event::StepDone);
    lemma_unfold_one(Phase::Reflowing, Event::CompletionReceived);
    let cons = Seq::new((n - 1) as nat, |k: int| BootstrapAction::Construct(dependency_order()[1 + k]));
    assert(actions_after(c0, done) == cons.add(seq![BootstrapAction::SendSetFinalUrl]).add(
        seq![BootstrapAction::SendReflowAndWait],
    ));
    assert(actions_after(Phase::Ready, successful_run()) =~= successful_actions());
}

/// From constructing component `i`, successes take the bootstrap through the
/// remaining components to sending the final URL.
proof fn lemma_constructing(i: int)
    requires
        0 <= i < COMPONENT_COUNT,
    ensures
        phase_after(Phase::Constructing(i as u8), Seq::new((COMPONENT_COUNT - i) as nat, |k: int| Event::StepDone))
            == Phase::SettingUrl,
        actions_after(Phase::Constructing(i as u8), Seq::new((COMPONENT_COUNT - i) as nat, |k: int| Event::StepDone))
            == Seq::new((COMPONENT_COUNT - i - 1) as nat, |k: int| BootstrapAction::Construct(dependency_order()[i + 1 + k]))
                .add(seq![BootstrapAction::SendSetFinalUrl]),
    decreases COMPONENT_COUNT - i,
{
    let n = COMPONENT_COUNT as int;
    let es = Seq::new((n - i) as nat, |k: int| Event::StepDone);
    let p = Phase::Constructing(i as u8);
    lemma_unfold_one(p, Event::StepDone);
    assert(es == seq![Event::StepDone].add(es.drop_first())) by {
        assert(es =~= seq![Event::StepDone].add(es.drop_first()));
    }
    lemma_run_concat(p, seq![Event::StepDone], es.drop_first());
    if i + 1 < n {
        lemma_constructing(i + 1);
        assert(es.drop_first() =~= Seq::new((n - (i + 1)) as nat, |k: int| Event::StepDone));
        assert(((i + 1) as u8) == (i as u8) + 1);
        let rest = Seq::new((n - (i + 1) - 1) as nat, |k: int| BootstrapAction::Construct(dependency_order()[i + 1 + 1 + k]));
        assert(Seq::new((n - i - 1) as nat, |k: int| BootstrapAction::Construct(dependency_order()[i + 1 + k]))
            =~= seq![BootstrapAction::Construct(dependency_order()[i + 1])].add(rest));
        assert(actions_after(p, es) =~= seq![BootstrapAction::Construct(dependency_order()[i + 1])].add(rest).add(
            seq![BootstrapAction::SendSetFinalUrl],
        ));
    } else {
        assert(es.drop_first() =~= Seq::<Event>::empty());
        assert(actions_after(p, es) =~= Seq::new((n - i - 1) as nat, |k: int| BootstrapAction::Construct(dependency_order()[i + 1 + k]))
            .add(seq![BootstrapAction::SendSetFinalUrl]));
    }
}

proof fn lemma_unfold_one(p: Phase, e: Event)
    ensures
        phase_after(p, seq![e]) == transition(p, e).0,
        actions_after(p, seq![e]) == seq![transition(p, e).1],
{
    let q = transition(p, e).0;
    assert(seq![e].drop_first() =~= Seq::<Event>::empty());
    assert(phase_after(q, Seq::<Event>::empty()) == q);
    assert(actions_after(q, Seq::<Event>::empty()) == Seq::<BootstrapAction>::empty());
    assert(actions_after(p, seq![e]) =~= seq![transition(p, e).1]);
}

proof fn lemma_run_concat(p: Phase, a: Seq<Event>, b: Seq<Event>)
    ensures
        phase_after(p, a.add(b)) == phase_after(phase_after(p, a), b),
        actions_after(p, a.add(b)) == actions_after(p, a).add(actions_after(phase_after(p, a), b)),
    decreases a.len(),
{
    if a.len() == 0 {
        assert(a.add(b) =~= b);
        assert(actions_after(p, a).add(actions_after(p, b)) =~= actions_after(p, b));
    } else {
        let q = transition(p, a[0]).0;
        lemma_run_concat(q, a.drop_first(), b);
        assert(a.add(b).drop_first() =~= a.drop_first().add(b));
        assert(a.add(b)[0] == a[0]);
        assert(actions_after(p, a.add(b)) =~= actions_after(p, a).add(actions_after(phase_after(p, a), b)));
    }
}

} // verus!
