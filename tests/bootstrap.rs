use crossbeam_channel::unbounded;
use denate::bootstrap::{
    blank_document_url, component_at, harness_reflow_request, initial_window_size, parse_document_url, BootstrapAction,
    BootstrapError, Component, Event, Orchestrator, Phase,
};
use denate::font::{font_key_from_reply, FontKeyAllocator, FontRequest};
use denate::layout::{ClipRect, LayoutAction, LayoutMsg, LayoutWorker, ReflowGoal, WindowSize};
use denate::namespace::PipelineNamespace;
use denate::waker::WakerState;

#[test]
fn blank_url_serializes() {
    assert_eq!(blank_document_url(), Ok("about:blank".to_string()));
}

#[test]
fn document_url_is_normalized() {
    assert_eq!(parse_document_url("HTTP://Quox.Dev:80/a/../b"), Ok("http://quox.dev/b".to_string()));
}

#[test]
fn unparsable_document_url_is_rejected() {
    assert_eq!(parse_document_url("no scheme here"), Err(BootstrapError::InvalidUrl));
}

#[test]
fn harness_request_payload() {
    let r = harness_reflow_request(());
    assert_eq!(r.page_clip_rect, ClipRect { x: 0, y: 0, width: 500, height: 500 });
    assert_eq!(r.window_size, WindowSize { width: 500, height: 500, device_pixel_ratio_millis: 1000 });
    assert!(!r.stylesheets_changed);
    assert_eq!(r.dirty_root, None);
    assert_eq!(r.origin.scheme, "http");
    assert_eq!(r.origin.host, "quox.dev");
    assert_eq!(r.origin.port, 80);
    assert_eq!(r.goal, ReflowGoal::Full);
    assert_eq!(initial_window_size(), WindowSize { width: 800, height: 600, device_pixel_ratio_millis: 1000 });
}

#[test]
fn components_in_dependency_order() {
    assert_eq!(component_at(0), Component::Namespace);
    assert_eq!(component_at(4), Component::ResourceLoader);
    assert_eq!(component_at(6), Component::FontCache);
    assert_eq!(component_at(9), Component::LayoutWorker);
}

#[test]
fn successful_bootstrap_sequence() {
    let mut o = Orchestrator::new();
    assert_eq!(o.phase(), Phase::Ready);
    let mut actions = vec![o.step(Event::Begin)];
    for _ in 0..11 {
        actions.push(o.step(Event::StepDone));
    }
    actions.push(o.step(Event::CompletionReceived));
    let mut expected: Vec<BootstrapAction> = (0..10).map(|i| BootstrapAction::Construct(component_at(i))).collect();
    expected.push(BootstrapAction::SendSetFinalUrl);
    expected.push(BootstrapAction::SendReflowAndWait);
    expected.push(BootstrapAction::Exit);
    assert_eq!(actions, expected);
    assert_eq!(o.phase(), Phase::Finished);
}

#[test]
fn construction_failure_aborts() {
    let mut o = Orchestrator::new();
    o.step(Event::Begin);
    o.step(Event::StepDone);
    assert_eq!(
        o.step(Event::StepFailed),
        BootstrapAction::Abort(BootstrapError::ConstructionFailed(Component::Profilers))
    );
    assert_eq!(o.step(Event::StepDone), BootstrapAction::Abort(BootstrapError::ConstructionFailed(Component::Profilers)));
}

#[test]
fn unexpected_event_aborts() {
    let mut o = Orchestrator::new();
    assert_eq!(o.step(Event::CompletionReceived), BootstrapAction::Abort(BootstrapError::UnexpectedEvent));
    assert_eq!(o.phase(), Phase::Aborted(BootstrapError::UnexpectedEvent));
}

#[test]
fn url_send_failure_aborts() {
    let mut o = Orchestrator::new();
    o.step(Event::Begin);
    for _ in 0..10 {
        o.step(Event::StepDone);
    }
    assert_eq!(o.phase(), Phase::SettingUrl);
    assert_eq!(o.step(Event::StepFailed), BootstrapAction::Abort(BootstrapError::SendFailed));
}

fn reflowing_orchestrator() -> Orchestrator {
    let mut o = Orchestrator::new();
    o.step(Event::Begin);
    for _ in 0..11 {
        o.step(Event::StepDone);
    }
    assert_eq!(o.phase(), Phase::Reflowing);
    o
}

#[test]
fn torn_down_worker_gives_closed_channel_error() {
    let mut o = reflowing_orchestrator();
    let (done_tx, done_rx) = unbounded::<()>();
    let (layout_tx, layout_rx) = unbounded::<LayoutMsg<crossbeam_channel::Sender<()>>>();
    layout_tx.send(LayoutMsg::Reflow(harness_reflow_request(done_tx))).unwrap();
    // The worker receives the reflow and is torn down before signalling.
    let received = layout_rx.recv().unwrap();
    drop(received);
    drop(layout_rx);
    let event = match done_rx.recv() {
        Ok(()) => Event::CompletionReceived,
        Err(_) => Event::CompletionChannelClosed,
    };
    assert_eq!(event, Event::CompletionChannelClosed);
    assert_eq!(o.step(event), BootstrapAction::Abort(BootstrapError::ChannelClosed));
    assert_eq!(o.step(Event::CompletionReceived), BootstrapAction::Abort(BootstrapError::ChannelClosed));
    assert_eq!(o.phase(), Phase::Aborted(BootstrapError::ChannelClosed));
}

#[test]
fn end_to_end_single_reflow() {
    let mut o = Orchestrator::new();
    let (layout_tx, layout_rx) = unbounded::<LayoutMsg<crossbeam_channel::Sender<()>>>();
    let (done_tx, done_rx) = unbounded::<()>();
    let mut namespace = PipelineNamespace::new();
    let mut waker = WakerState::new();
    let mut fonts = FontKeyAllocator::new(1);
    let mut worker: Option<LayoutWorker> = None;
    let url = blank_document_url().unwrap();
    let mut completions = 0;
    let mut done_tx = Some(done_tx);
    let mut action = o.step(Event::Begin);
    loop {
        let event = match action {
            BootstrapAction::Construct(Component::Namespace) => {
                namespace.install(1).unwrap();
                Event::StepDone
            }
            BootstrapAction::Construct(Component::EventLoopWaker) => {
                waker.wake();
                assert!(waker.take_wakeup());
                Event::StepDone
            }
            BootstrapAction::Construct(Component::FontCache) => {
                let reply = fonts.register(&FontRequest::AddFont(vec![0])).ok();
                assert!(font_key_from_reply(reply).is_ok());
                Event::StepDone
            }
            BootstrapAction::Construct(Component::LayoutWorker) => {
                let id = namespace.new_pipeline_id().unwrap();
                worker = Some(LayoutWorker::new(id, url.clone(), initial_window_size()));
                Event::StepDone
            }
            BootstrapAction::Construct(_) => Event::StepDone,
            BootstrapAction::SendSetFinalUrl => {
                layout_tx.send(LayoutMsg::SetFinalUrl(url.clone())).unwrap();
                Event::StepDone
            }
            BootstrapAction::SendReflowAndWait => {
                assert!(done_rx.try_recv().is_err());
                layout_tx.send(LayoutMsg::Reflow(harness_reflow_request(done_tx.take().unwrap()))).unwrap();
                let w = worker.as_mut().unwrap();
                while let Ok(msg) = layout_rx.try_recv() {
                    if let LayoutAction::SignalCompletion(tx) = w.handle(msg) {
                        tx.send(()).unwrap();
                    }
                }
                match done_rx.recv() {
                    Ok(()) => {
                        completions += 1;
                        Event::CompletionReceived
                    }
                    Err(_) => Event::CompletionChannelClosed,
                }
            }
            BootstrapAction::Exit => break,
            BootstrapAction::Abort(e) => panic!("bootstrap aborted: {:?}", e),
        };
        action = o.step(event);
    }
    assert_eq!(completions, 1);
    assert!(done_rx.try_recv().is_err());
    assert_eq!(o.phase(), Phase::Finished);
    assert_eq!(worker.unwrap().window_size(), WindowSize { width: 500, height: 500, device_pixel_ratio_millis: 1000 });
}
