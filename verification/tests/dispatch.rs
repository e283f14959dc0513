use fw16_led_matrixd::config::Matrix;
use fw16_led_matrixd::handler::{
    anim_finish, anim_step, build_response, handler, keepalive, HandlerData, QueryKind, Target,
    Warning,
};
use fw16_led_matrixd::ipc::{IpcCommand, IpcResponse};
use fw16_led_matrixd::matrix::{DeviceCall, Side};

fn ramp(len: usize) -> Vec<u8> {
    let mut v = Vec::new();
    for i in 0..len {
        v.push((i % 256) as u8);
    }
    v
}

fn endpoint(sleeping: bool) -> Matrix {
    Matrix {
        port: String::from("/dev/ttyACM0"),
        baudrate: 115200,
        sleeping,
    }
}

fn stage_count(calls: &[(Side, DeviceCall)]) -> usize {
    calls.iter().filter(|(_, c)| c.request[2] == 0x07).count()
}

fn flush_count(calls: &[(Side, DeviceCall)]) -> usize {
    calls.iter().filter(|(_, c)| c.request[2] == 0x08).count()
}

#[test]
fn get_sleep_reads_the_tracked_flag_without_device_calls() {
    let mut data = HandlerData::new(Some(endpoint(true)), Some(endpoint(false)));
    let mut response = None;
    let d = handler(IpcCommand::GetSleep(true, true), &mut response, &mut data);
    assert!(d.calls.is_empty());
    assert!(d.query.is_none());
    assert!(d.anims.is_empty());
    match response {
        Some(IpcResponse::Sleeping(l, r)) => {
            assert_eq!(l, Some(true));
            assert_eq!(r, Some(false));
        }
        other => panic!("unexpected: {:?}", other),
    }
    // The tracked flag itself is left alone by the query.
    assert!(data.left_port.as_ref().unwrap().sleeping);
}

#[test]
fn get_brightness_plans_reads_for_configured_sides() {
    let mut data = HandlerData::new(Some(endpoint(false)), None);
    let mut response = None;
    let d = handler(
        IpcCommand::GetBrightness(true, true),
        &mut response,
        &mut data,
    );
    assert!(response.is_none());
    let q = d.query.unwrap();
    assert_eq!(q.kind, QueryKind::Brightness);
    let lc = q.left.unwrap();
    assert_eq!(lc.request, vec![0x32, 0xAC, 0x00]);
    assert_eq!(lc.response_size, 1);
    assert!(q.right.is_none());
    assert_eq!(d.warnings, vec![Warning::MissingRight]);
}

#[test]
fn visual_command_wakes_a_sleeping_device() {
    let mut data = HandlerData::new(Some(endpoint(true)), None);
    let mut response = None;
    let d = handler(
        IpcCommand::PatternGradient(true, false),
        &mut response,
        &mut data,
    );
    assert!(!data.left_port.as_ref().unwrap().sleeping);
    assert_eq!(d.calls.len(), 1);
    assert_eq!(d.calls[0].0, Side::Left);
    assert_eq!(d.calls[0].1.request, vec![0x32, 0xAC, 0x01, 0x01]);
}

#[test]
fn set_sleep_tracks_the_new_state() {
    let mut data = HandlerData::new(Some(endpoint(false)), None);
    let mut response = None;
    let d = handler(
        IpcCommand::SetSleep(Some(true), None),
        &mut response,
        &mut data,
    );
    assert!(data.left_port.as_ref().unwrap().sleeping);
    assert_eq!(d.calls.len(), 1);
    assert_eq!(d.calls[0].1.request, vec![0x32, 0xAC, 0x03, 1]);
}

#[test]
fn set_brightness_does_not_preempt_animations() {
    let mut data = HandlerData::new(Some(endpoint(false)), None);
    let mut response = None;
    let frames = vec![(ramp(306), 20u64), (ramp(306), 20u64)];
    let d = handler(
        IpcCommand::RenderSingle(Some(frames), None),
        &mut response,
        &mut data,
    );
    assert_eq!(d.anims.len(), 1);
    assert!(data.is_left_animated());
    let d = handler(
        IpcCommand::SetBrightness(Some(3), None),
        &mut response,
        &mut data,
    );
    assert!(data.is_left_animated());
    assert_eq!(d.calls[0].1.request, vec![0x32, 0xAC, 0x00, 3]);
}

#[test]
fn single_frame_render_is_synchronous() {
    let mut data = HandlerData::new(Some(endpoint(false)), None);
    let mut response = None;
    let frames = vec![(ramp(306), 0u64)];
    let d = handler(
        IpcCommand::RenderSingle(Some(frames), None),
        &mut response,
        &mut data,
    );
    assert!(d.anims.is_empty());
    assert!(!data.is_left_animated());
    assert_eq!(d.calls.len(), 10);
    assert_eq!(stage_count(&d.calls), 9);
    assert_eq!(flush_count(&d.calls), 1);
    // Columns come out in ascending order.
    for col in 0..9usize {
        assert_eq!(d.calls[col].1.request[3], col as u8);
    }
}

#[test]
fn starting_a_new_animation_invalidates_the_old_token() {
    let mut data = HandlerData::new(Some(endpoint(false)), None);
    let mut response = None;
    let frames = vec![(ramp(306), 20u64), (ramp(306), 20u64)];
    let d = handler(
        IpcCommand::RenderSingle(Some(frames.clone()), None),
        &mut response,
        &mut data,
    );
    let old_token = d.anims[0].token;

    let d = handler(
        IpcCommand::RenderSingle(Some(frames), None),
        &mut response,
        &mut data,
    );
    let new_token = d.anims[0].token;
    assert_ne!(old_token, new_token);

    // The preempted task observes the invalidation at its next frame.
    let frame = ramp(306);
    assert!(anim_step(&mut data, Target::Left, old_token, &frame).is_none());
    // The new task still runs.
    assert!(anim_step(&mut data, Target::Left, new_token, &frame).is_some());
}

#[test]
fn pair_render_preempts_both_sides() {
    let mut data = HandlerData::new(Some(endpoint(false)), Some(endpoint(false)));
    let mut response = None;
    let frames = vec![(ramp(306), 20u64), (ramp(306), 20u64)];
    let d = handler(
        IpcCommand::RenderSingle(Some(frames.clone()), Some(frames)),
        &mut response,
        &mut data,
    );
    assert_eq!(d.anims.len(), 2);
    assert_eq!(d.anims[0].target, Target::Left);
    assert_eq!(d.anims[1].target, Target::Right);
    let left_token = d.anims[0].token;

    let pair_frames = vec![(ramp(612), 20u64), (ramp(612), 20u64)];
    let d = handler(IpcCommand::RenderPair(pair_frames), &mut response, &mut data);
    assert_eq!(d.anims.len(), 1);
    assert_eq!(d.anims[0].target, Target::Pair);
    assert!(!data.is_left_animated());
    assert!(!data.is_right_animated());
    assert!(data.is_pair_animated());
    let frame = ramp(306);
    assert!(anim_step(&mut data, Target::Left, left_token, &frame).is_none());
}

#[test]
fn pair_command_with_a_missing_side_is_a_warned_no_op() {
    let mut data = HandlerData::new(Some(endpoint(true)), None);
    let mut response = None;
    let d = handler(
        IpcCommand::RenderPair(vec![(ramp(612), 0u64)]),
        &mut response,
        &mut data,
    );
    assert!(d.calls.is_empty());
    assert!(d.anims.is_empty());
    assert_eq!(d.warnings, vec![Warning::MissingPair]);
    // The no-op did not touch the left device, so it stays asleep.
    assert!(data.left_port.as_ref().unwrap().sleeping);
}

#[test]
fn synchronous_pair_render_spans_both_devices() {
    let mut data = HandlerData::new(Some(endpoint(false)), Some(endpoint(false)));
    let mut response = None;
    let frame = ramp(612);
    let d = handler(
        IpcCommand::RenderPair(vec![(frame.clone(), 0u64)]),
        &mut response,
        &mut data,
    );
    assert!(d.anims.is_empty());
    assert_eq!(d.calls.len(), 20);
    assert_eq!(d.calls[17].0, Side::Right);
    assert_eq!(d.calls[17].1.request[3], 8);
    assert_eq!(&d.calls[17].1.request[4..], &frame[578..612]);
}

#[test]
fn animation_step_stops_when_the_device_is_gone() {
    let mut data = HandlerData::new(None, None);
    let mut response = None;
    let frames = vec![(ramp(306), 20u64), (ramp(306), 20u64)];
    let d = handler(
        IpcCommand::RenderSingle(Some(frames), None),
        &mut response,
        &mut data,
    );
    let token = d.anims[0].token;
    assert!(data.is_left_animated());
    let frame = ramp(306);
    assert!(anim_step(&mut data, Target::Left, token, &frame).is_none());
    assert!(!data.is_left_animated());
}

#[test]
fn keepalive_pings_only_idle_awake_devices() {
    let data = HandlerData::new(Some(endpoint(false)), Some(endpoint(true)));
    let calls = keepalive(&data);
    assert_eq!(calls.len(), 1);
    assert_eq!(calls[0].0, Side::Left);
    assert_eq!(calls[0].1.request, vec![0x32, 0xAC, 0x20]);
    assert_eq!(calls[0].1.response_size, 3);

    let mut data = HandlerData::new(Some(endpoint(false)), Some(endpoint(false)));
    let mut response = None;
    let pair_frames = vec![(ramp(612), 20u64), (ramp(612), 20u64)];
    handler(IpcCommand::RenderPair(pair_frames), &mut response, &mut data);
    assert!(keepalive(&data).is_empty());
}

#[test]
fn responses_decode_the_raw_bytes() {
    let r = build_response(QueryKind::Brightness, Some(vec![7]), None);
    assert!(matches!(r, IpcResponse::Brightness(Some(7), None)));
    let r = build_response(QueryKind::Scroll, Some(vec![0]), Some(vec![2]));
    assert!(matches!(r, IpcResponse::Animated(Some(false), Some(true))));
    let r = build_response(QueryKind::Version, None, Some(vec![1, 0x23, 0]));
    match r {
        IpcResponse::Version(None, Some(v)) => assert_eq!(v, vec![1, 0x23, 0]),
        other => panic!("unexpected: {:?}", other),
    }
}

#[test]
fn daemon_round_trip_with_a_left_only_configuration() {
    // A daemon configured with only a left endpoint.
    let mut data = HandlerData::new(Some(endpoint(false)), None);
    let mut response = None;

    // A sleep query for both sides answers left=false, right=absent.
    handler(IpcCommand::GetSleep(true, true), &mut response, &mut data);
    match response.take() {
        Some(IpcResponse::Sleeping(l, r)) => {
            assert_eq!(l, Some(false));
            assert_eq!(r, None);
        }
        other => panic!("unexpected: {:?}", other),
    }

    // A one-frame render on both sides is synchronous; only the
    // configured side gets its sequence, the other is warned about.
    let one = vec![(ramp(306), 0u64)];
    let d = handler(
        IpcCommand::RenderSingle(Some(one.clone()), Some(one)),
        &mut response,
        &mut data,
    );
    assert!(d.anims.is_empty());
    assert_eq!(d.calls.len(), 10);
    assert_eq!(d.warnings, vec![Warning::MissingRight]);

    // A three-frame render on the left starts a background task that
    // plays the sequence once: three stage-and-flush rounds, then a
    // natural exit.
    let frames = vec![
        (ramp(306), 40u64),
        (ramp(306), 40u64),
        (ramp(306), 40u64),
    ];
    let d = handler(
        IpcCommand::RenderSingle(Some(frames.clone()), None),
        &mut response,
        &mut data,
    );
    assert_eq!(d.anims.len(), 1);
    let anim = &d.anims[0];
    assert_eq!(anim.target, Target::Left);
    assert_eq!(anim.frames.len(), 3);

    let mut stages = 0usize;
    let mut flushes = 0usize;
    for (pixels, _millis) in &anim.frames {
        let calls = anim_step(&mut data, Target::Left, anim.token, pixels).unwrap();
        stages += stage_count(&calls);
        flushes += flush_count(&calls);
    }
    assert_eq!(stages, 3 * 9);
    assert_eq!(flushes, 3);

    anim_finish(&mut data, Target::Left, anim.token);
    assert!(!data.is_left_animated());
    let frame = ramp(306);
    assert!(anim_step(&mut data, Target::Left, anim.token, &frame).is_none());
}

#[test]
fn both_sides_render_two_independent_sequences() {
    let mut data = HandlerData::new(Some(endpoint(false)), Some(endpoint(false)));
    let mut response = None;
    let one = vec![(ramp(306), 0u64)];
    let d = handler(
        IpcCommand::RenderSingle(Some(one.clone()), Some(one)),
        &mut response,
        &mut data,
    );
    assert!(d.anims.is_empty());
    assert_eq!(d.calls.len(), 20);
    assert!(d.calls[..10].iter().all(|(s, _)| *s == Side::Left));
    assert!(d.calls[10..].iter().all(|(s, _)| *s == Side::Right));
    assert_eq!(flush_count(&d.calls), 2);
}

#[test]
fn get_ports_reflects_the_configuration() {
    let data = HandlerData::new(Some(endpoint(false)), None);
    let (l, r) = data.get_ports();
    assert!(l.is_some());
    assert!(r.is_none());
}
