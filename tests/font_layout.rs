use denate::font::{
    font_instance_key_from_reply, font_key_from_reply, FontError, FontInstanceCache, FontInstanceKey, FontKey,
    FontKeyAllocator, FontReply, FontRequest,
};
use denate::layout::{LayoutAction, LayoutMsg, LayoutWorker, WindowSize, WorkerState};
use denate::bootstrap::{harness_reflow_request, initial_window_size};
use denate::namespace::PipelineId;

#[test]
fn registered_keys_are_distinct_and_in_order() {
    let mut alloc = FontKeyAllocator::new(7);
    let reqs = vec![
        FontRequest::AddFont(vec![1, 2, 3]),
        FontRequest::AddFontInstance(FontKey { namespace_id: 7, resource_id: 1 }, 960),
        FontRequest::AddFont(vec![]),
        FontRequest::AddFontInstance(FontKey { namespace_id: 7, resource_id: 3 }, 720),
    ];
    let replies: Vec<FontReply> = reqs.iter().map(|r| alloc.register(r).unwrap()).collect();
    assert_eq!(
        replies,
        vec![
            FontReply::Font(FontKey { namespace_id: 7, resource_id: 1 }),
            FontReply::Instance(FontInstanceKey { namespace_id: 7, resource_id: 2 }),
            FontReply::Font(FontKey { namespace_id: 7, resource_id: 3 }),
            FontReply::Instance(FontInstanceKey { namespace_id: 7, resource_id: 4 }),
        ]
    );
}

#[test]
fn font_reply_interpretation() {
    let k = FontKey { namespace_id: 2, resource_id: 9 };
    let ik = FontInstanceKey { namespace_id: 2, resource_id: 10 };
    assert_eq!(font_key_from_reply(Some(FontReply::Font(k))), Ok(k));
    assert_eq!(font_key_from_reply(None), Err(FontError::ChannelClosed));
    assert_eq!(font_key_from_reply(Some(FontReply::Instance(ik))), Err(FontError::MismatchedReply));
    assert_eq!(font_instance_key_from_reply(Some(FontReply::Instance(ik))), Ok(ik));
    assert_eq!(font_instance_key_from_reply(None), Err(FontError::ChannelClosed));
    assert_eq!(font_instance_key_from_reply(Some(FontReply::Font(k))), Err(FontError::MismatchedReply));
}

#[test]
fn reflow_round_trip_signals_once() {
    let id = PipelineId { namespace_id: 1, index: 1 };
    let mut worker = LayoutWorker::new(id, "about:blank".to_string(), initial_window_size());
    assert_eq!(worker.state(), WorkerState::Idle);
    let a = worker.handle(LayoutMsg::<u32>::SetFinalUrl("about:blank".to_string()));
    assert!(matches!(a, LayoutAction::Nothing));
    assert_eq!(worker.state(), WorkerState::Processing);
    assert_eq!(worker.url(), "about:blank");
    let a = worker.handle(LayoutMsg::Reflow(harness_reflow_request(42u32)));
    assert!(matches!(a, LayoutAction::SignalCompletion(42)));
    assert_eq!(
        worker.window_size(),
        WindowSize { width: 500, height: 500, device_pixel_ratio_millis: 1000 }
    );
    assert_eq!(worker.pipeline_id(), id);
}

#[test]
fn instance_cache_holds_only_acknowledged_keys() {
    let font = FontKey { namespace_id: 1, resource_id: 1 };
    let other = FontKey { namespace_id: 1, resource_id: 2 };
    let mut cache = FontInstanceCache::new();
    assert_eq!(cache.lookup(font, 960), None);
    let k1 = FontInstanceKey { namespace_id: 1, resource_id: 3 };
    assert_eq!(cache.record_reply(font, 960, Some(FontReply::Instance(k1))), Ok(k1));
    assert_eq!(cache.lookup(font, 960), Some(k1));
    assert_eq!(cache.lookup(font, 720), None);
    assert_eq!(cache.lookup(other, 960), None);
    assert_eq!(cache.record_reply(other, 960, None), Err(FontError::ChannelClosed));
    assert_eq!(cache.lookup(other, 960), None);
    assert_eq!(
        cache.record_reply(other, 960, Some(FontReply::Font(font))),
        Err(FontError::MismatchedReply)
    );
    assert_eq!(cache.lookup(other, 960), None);
    let k2 = FontInstanceKey { namespace_id: 1, resource_id: 4 };
    assert_eq!(cache.record_reply(font, 960, Some(FontReply::Instance(k2))), Ok(k2));
    assert_eq!(cache.lookup(font, 960), Some(k2));
}
