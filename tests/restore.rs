use originalbuffer::flow::GstFlowReturn;
use originalbuffer::format::{Caps, CapsState, VideoGeometry};
use originalbuffer::restore::{
    segment_forwarded, ChainStep, Delivery, OriginalBufferRestore, PadRequest, SinkEvent,
    SinkEventAction, State, StateChange,
};
use originalbuffer::unit::{
    Annotation, AnnotationTransform, DataUnit, Identity, PendingUnit, Timing, Transplant,
};

type Engine = OriginalBufferRestore<String>;

fn caps(s: &str) -> Caps {
    Caps::new(s.to_string())
}

fn geom(width: u32, height: u32) -> VideoGeometry {
    VideoGeometry { width, height }
}

fn timing(pts: u64) -> Timing {
    Timing { pts: Some(pts), dts: None, duration: Some(40), offset: 7, offset_end: 8 }
}

fn plain() -> Annotation {
    Annotation { identity: false, memory: false, memory_reference: false, size: false }
}

fn sized() -> Annotation {
    Annotation { size: true, ..plain() }
}

fn unit_with(original: &[u8], format: &str, vinfo: Option<VideoGeometry>, pts: u64, flags: u32, annotations: Vec<Annotation>) -> DataUnit<Vec<u8>> {
    DataUnit {
        payload: vec![0xee; 3],
        timing: timing(pts),
        flags,
        annotations,
        identity: Some(Identity { original: original.to_vec(), caps: caps(format), vinfo }),
    }
}

fn unit(format: &str, pts: u64) -> DataUnit<Vec<u8>> {
    unit_with(&[1, 2, 3, 4], format, None, pts, 0, vec![])
}

/// Drives one unit to the end, accepting every announcement and forwarding
/// every boundary; returns the announced formats, forwarded boundaries and
/// the delivery.
fn drive(engine: &mut Engine, u: DataUnit<Vec<u8>>) -> (Vec<String>, Vec<String>, Option<Delivery<Vec<u8>>>) {
    let mut announced = vec![];
    let mut forwarded = vec![];
    let mut step = engine.sink_chain(u);
    loop {
        step = match step {
            ChainStep::AnnounceCaps(p) => {
                announced.push(p.caps.desc.clone());
                engine.caps_announced(p, true)
            }
            ChainStep::ForwardSegment { segment, delivery } => {
                forwarded.push(segment);
                segment_forwarded(delivery, true)
            }
            ChainStep::Deliver(d) => return (announced, forwarded, Some(d)),
            ChainStep::PassThrough(_) | ChainStep::Fail(_) => return (announced, forwarded, None),
        }
    }
}

#[test]
fn new_engine_is_idle() {
    let e = Engine::new();
    assert_eq!(e.state.sinkpad_caps, CapsState::default());
    assert_eq!(e.state.meta_caps, CapsState::default());
    assert_eq!(e.state.sinkpad_segment, None);
    assert!(!e.state.modified_src_pad_requested);
}

#[test]
fn unit_without_identity_passes_through_unchanged() {
    let mut e = Engine::new();
    e.sink_event(SinkEvent::Segment("seg".to_string()));
    let before = e.clone();
    let u = DataUnit {
        payload: vec![9u8, 8, 7],
        timing: timing(5),
        flags: 3,
        annotations: vec![sized()],
        identity: None,
    };
    let step = e.sink_chain(u.clone());
    assert_eq!(step, ChainStep::PassThrough(u));
    assert_eq!(e, before);
}

#[test]
fn format_announced_once_for_many_units() {
    let mut e = Engine::new();
    let mut announced = vec![];
    for i in 0..5u64 {
        let (a, _, d) = drive(&mut e, unit("video/x-raw,width=8", i));
        announced.extend(a);
        assert!(d.is_some());
    }
    assert_eq!(announced, vec!["video/x-raw,width=8".to_string()]);
}

#[test]
fn new_format_is_announced_again() {
    let mut e = Engine::new();
    let (a1, _, _) = drive(&mut e, unit("a", 0));
    let (a2, _, _) = drive(&mut e, unit("a", 1));
    let (a3, _, _) = drive(&mut e, unit("b", 2));
    assert_eq!(a1, vec!["a".to_string()]);
    assert!(a2.is_empty());
    assert_eq!(a3, vec!["b".to_string()]);
}

#[test]
fn rejected_format_fails_not_negotiated() {
    let mut e = Engine::new();
    let step = e.sink_chain(unit("a", 0));
    let p = match step {
        ChainStep::AnnounceCaps(p) => p,
        other => panic!("unexpected step {:?}", other),
    };
    let before = e.clone();
    let step = e.caps_announced(p, false);
    assert_eq!(step, ChainStep::Fail(GstFlowReturn::NotNegotiated));
    assert_eq!(e, before);
    assert_eq!(e.state.meta_caps.caps, None);
    // The next unit of that format is announced again.
    assert!(matches!(e.sink_chain(unit("a", 1)), ChainStep::AnnounceCaps(_)));
}

#[test]
fn timing_and_flags_come_from_transformed_unit() {
    let mut e = Engine::new();
    let original = [10u8, 20, 30, 40, 50];
    let u = unit_with(&original, "a", None, 1234, 0x40, vec![]);
    let (_, _, d) = drive(&mut e, u);
    let d = d.unwrap();
    assert_eq!(d.restored.payload, original.to_vec());
    assert_eq!(d.restored.timing, timing(1234));
    assert_eq!(d.restored.flags, 0x40);
}

#[test]
fn size_annotations_rescaled_others_copied() {
    let mut e = Engine::new();
    e.sink_event(SinkEvent::Caps { caps: caps("small"), vinfo: Some(geom(640, 360)) });
    let anns = vec![sized(), plain(), Annotation { memory: true, ..sized() }];
    let u = unit_with(&[1], "big", Some(geom(1280, 720)), 0, 0, anns);
    let (_, _, d) = drive(&mut e, u);
    let d = d.unwrap();
    assert_eq!(
        d.restored.transplants,
        vec![
            Transplant {
                source: 0,
                transform: AnnotationTransform::Scale { from: geom(1280, 720), to: geom(640, 360) }
            },
            Transplant { source: 1, transform: AnnotationTransform::Copy },
        ]
    );
    if let AnnotationTransform::Scale { from, to } = d.restored.transplants[0].transform {
        assert_eq!(from.width, 2 * to.width);
        assert_eq!(from.height, 2 * to.height);
    }
}

#[test]
fn size_annotation_copied_when_geometry_same_or_unknown() {
    let anns = vec![sized()];
    let mut e = Engine::new();
    e.sink_event(SinkEvent::Caps { caps: caps("x"), vinfo: Some(geom(640, 360)) });
    let (_, _, d) = drive(&mut e, unit_with(&[1], "y", Some(geom(640, 360)), 0, 0, anns.clone()));
    assert_eq!(d.unwrap().restored.transplants, vec![Transplant { source: 0, transform: AnnotationTransform::Copy }]);

    let mut e = Engine::new();
    let (_, _, d) = drive(&mut e, unit_with(&[1], "y", Some(geom(1280, 720)), 0, 0, anns));
    assert_eq!(d.unwrap().restored.transplants, vec![Transplant { source: 0, transform: AnnotationTransform::Copy }]);
}

#[test]
fn identity_and_memory_annotations_skipped() {
    let anns = vec![
        Annotation { identity: true, ..plain() },
        Annotation { memory: true, ..plain() },
        Annotation { memory_reference: true, ..plain() },
        plain(),
    ];
    let mut e = Engine::new();
    let (_, _, d) = drive(&mut e, unit_with(&[1], "y", None, 0, 0, anns));
    assert_eq!(d.unwrap().restored.transplants, vec![Transplant { source: 3, transform: AnnotationTransform::Copy }]);
}

#[test]
fn boundary_forwarded_once_with_next_restored_unit() {
    let mut e = Engine::new();
    let action = e.sink_event(SinkEvent::Segment("seg1".to_string()));
    assert_eq!(action, SinkEventAction::Handled { to_aux: false });
    // A pass-through unit does not take it along.
    let plain_unit = DataUnit { payload: vec![1u8], timing: timing(0), flags: 0, annotations: vec![], identity: None };
    assert!(matches!(e.sink_chain(plain_unit), ChainStep::PassThrough(_)));
    let (_, f1, d1) = drive(&mut e, unit("a", 1));
    let (_, f2, d2) = drive(&mut e, unit("a", 2));
    assert_eq!(f1, vec!["seg1".to_string()]);
    assert!(f2.is_empty());
    assert!(d1.is_some() && d2.is_some());
}

#[test]
fn newer_boundary_replaces_pending_one() {
    let mut e = Engine::new();
    e.sink_event(SinkEvent::Segment("old".to_string()));
    e.sink_event(SinkEvent::Segment("new".to_string()));
    let (_, f, _) = drive(&mut e, unit("a", 1));
    assert_eq!(f, vec!["new".to_string()]);
}

#[test]
fn failed_boundary_forward_is_an_error() {
    let mut e = Engine::new();
    e.sink_event(SinkEvent::Segment("seg".to_string()));
    e.sink_event(SinkEvent::Caps { caps: caps("a"), vinfo: None });
    let step = e.sink_chain(unit("a", 0));
    let step = match step {
        ChainStep::AnnounceCaps(p) => e.caps_announced(p, true),
        other => other,
    };
    match step {
        ChainStep::ForwardSegment { segment, delivery } => {
            assert_eq!(segment, "seg");
            let r: ChainStep<Vec<u8>, String> = segment_forwarded(delivery, false);
            assert_eq!(r, ChainStep::Fail(GstFlowReturn::Error));
        }
        other => panic!("unexpected step {:?}", other),
    }
    assert_eq!(e.state.sinkpad_segment, None);
}

#[test]
fn other_sink_events_get_default_handling() {
    let mut e = Engine::new();
    let before = e.clone();
    assert_eq!(e.sink_event(SinkEvent::Other("eos".to_string())), SinkEventAction::Default("eos".to_string()));
    assert_eq!(e, before);
}

#[test]
fn sink_caps_fill_control_slot() {
    let mut e = Engine::new();
    e.sink_event(SinkEvent::Caps { caps: caps("c"), vinfo: Some(geom(2, 4)) });
    assert_eq!(e.state.sinkpad_caps, CapsState { caps: Some(caps("c")), vinfo: Some(geom(2, 4)) });
    // The metadata slot is untouched.
    assert_eq!(e.state.meta_caps, CapsState::default());
}

#[test]
fn aux_port_created_once() {
    let mut e = Engine::new();
    let t = "modified_src".to_string();
    assert_eq!(e.request_new_pad(&t), PadRequest::Create { stream_id: "originalbufferrestore".to_string() });
    assert_eq!(e.request_new_pad(&t), PadRequest::AlreadyRequested);
    assert!(e.state.modified_src_pad_requested);
    assert_eq!(e.request_new_pad(&"src".to_string()), PadRequest::UnknownTemplate);
}

#[test]
fn aux_port_gets_events_and_units_once_requested() {
    let mut e = Engine::new();
    assert_eq!(e.sink_event(SinkEvent::Caps { caps: caps("c"), vinfo: None }), SinkEventAction::Handled { to_aux: false });
    let (_, _, d) = drive(&mut e, unit("a", 0));
    assert!(!d.unwrap().to_aux);
    e.request_new_pad(&"modified_src".to_string());
    assert_eq!(e.sink_event(SinkEvent::Segment("s".to_string())), SinkEventAction::Handled { to_aux: true });
    let (_, _, d) = drive(&mut e, unit("a", 1));
    assert!(d.unwrap().to_aux);
}

#[test]
fn paused_to_ready_resets_everything() {
    let mut e = Engine::new();
    e.sink_event(SinkEvent::Caps { caps: caps("c"), vinfo: Some(geom(1, 1)) });
    e.sink_event(SinkEvent::Segment("s".to_string()));
    e.request_new_pad(&"modified_src".to_string());
    drive(&mut e, unit("a", 0));
    e.sink_event(SinkEvent::Segment("t".to_string()));
    let before = e.clone();
    e.change_state(StateChange::ReadyToPaused);
    assert_eq!(e, before);
    e.change_state(StateChange::PausedToReady);
    assert_eq!(e.state, State::new());
    assert_eq!(e.request_new_pad(&"modified_src".to_string()), PadRequest::Create { stream_id: "originalbufferrestore".to_string() });
}

#[test]
fn caps_announced_reconstructs_pending_unit() {
    let mut e = Engine::new();
    let p = PendingUnit {
        original: vec![5u8],
        caps: caps("z"),
        vinfo: Some(geom(3, 3)),
        timing: timing(9),
        flags: 1,
        annotations: vec![plain()],
    };
    let step = e.caps_announced(p, true);
    assert_eq!(e.state.meta_caps, CapsState { caps: Some(caps("z")), vinfo: Some(geom(3, 3)) });
    match step {
        ChainStep::Deliver(d) => {
            assert_eq!(d.restored.payload, vec![5u8]);
            assert_eq!(d.restored.timing, timing(9));
            assert_eq!(d.restored.flags, 1);
        }
        other => panic!("unexpected step {:?}", other),
    }
}

#[test]
fn failed_port_creation_allows_new_request() {
    let mut e = Engine::new();
    let t = "modified_src".to_string();
    assert!(matches!(e.request_new_pad(&t), PadRequest::Create { .. }));
    e.pad_creation_failed();
    assert!(!e.state.modified_src_pad_requested);
    assert!(matches!(e.request_new_pad(&t), PadRequest::Create { .. }));
}
