use fw16_led_matrixd::args::{
    stage_col_command, to_command, render_frames_command, render_raw_command, AnimateArgs,
    BrightnessArgs, Commands, DrawBWArgs, Matrix, MatrixNoPair, PatternArgs, RenderArgs, SleepArgs,
    StageColArgs, VersionArgs,
};
use fw16_led_matrixd::error::Error;
use fw16_led_matrixd::ipc::IpcCommand;

fn ramp(len: usize) -> Vec<u8> {
    let mut v = Vec::new();
    for i in 0..len {
        v.push((i % 256) as u8);
    }
    v
}

#[test]
fn validate_rejects_bad_bitmap_lengths() {
    let r = IpcCommand::DrawBW(Some(ramp(38)), None).validate();
    match r {
        Err(Error::InvalidVecSize(m, n)) => {
            assert_eq!(m, "left matrix has ");
            assert_eq!(n, 39);
        }
        other => panic!("unexpected: {:?}", other),
    }
    let r = IpcCommand::DrawBW(None, Some(ramp(40))).validate();
    match r {
        Err(Error::InvalidVecSize(m, n)) => {
            assert_eq!(m, "right matrix has ");
            assert_eq!(n, 39);
        }
        other => panic!("unexpected: {:?}", other),
    }
    let r = IpcCommand::DrawBW(Some(ramp(1)), Some(ramp(2))).validate();
    match r {
        Err(Error::InvalidVecSize(m, n)) => {
            assert_eq!(m, "both matrixes have ");
            assert_eq!(n, 39);
        }
        other => panic!("unexpected: {:?}", other),
    }
    assert!(IpcCommand::DrawBW(Some(ramp(39)), Some(ramp(39)))
        .validate()
        .is_ok());
}

#[test]
fn validate_rejects_out_of_range_columns() {
    let r = IpcCommand::StageCol(Some((9, ramp(34))), None).validate();
    assert!(matches!(r, Err(Error::InvalidColNumber(9))));
    let r = IpcCommand::StageCol(None, Some((17, ramp(34)))).validate();
    assert!(matches!(r, Err(Error::InvalidColNumber(17))));
    // The left column is checked before the right length.
    let r = IpcCommand::StageCol(Some((12, ramp(2))), Some((1, ramp(2)))).validate();
    assert!(matches!(r, Err(Error::InvalidColNumber(12))));
    assert!(IpcCommand::StageCol(Some((8, ramp(34))), Some((0, ramp(34))))
        .validate()
        .is_ok());
}

#[test]
fn validate_rejects_bad_column_value_lengths() {
    let r = IpcCommand::StageCol(Some((3, ramp(33))), None).validate();
    match r {
        Err(Error::InvalidVecSize(m, n)) => {
            assert_eq!(m, "left matrix has ");
            assert_eq!(n, 34);
        }
        other => panic!("unexpected: {:?}", other),
    }
    let r = IpcCommand::StageCol(Some((3, ramp(35))), Some((4, ramp(33)))).validate();
    match r {
        Err(Error::InvalidVecSize(m, n)) => {
            assert_eq!(m, "both matrixes have ");
            assert_eq!(n, 34);
        }
        other => panic!("unexpected: {:?}", other),
    }
}

#[test]
fn validate_names_the_offending_frame() {
    let frames = vec![(ramp(306), 40u64), (ramp(305), 40u64), (ramp(306), 40u64)];
    let r = IpcCommand::RenderSingle(Some(frames), None).validate();
    match r {
        Err(Error::InvalidVecSizeFrame(m, sz, idx)) => {
            assert_eq!(m, "left matrix has ");
            assert_eq!(sz, 305);
            assert_eq!(idx, 1);
        }
        other => panic!("unexpected: {:?}", other),
    }
    let ok = vec![(ramp(306), 0u64)];
    let bad = vec![(ramp(306), 0u64), (ramp(307), 0u64)];
    let r = IpcCommand::RenderSingle(Some(ok), Some(bad)).validate();
    match r {
        Err(Error::InvalidVecSizeFrame(m, sz, idx)) => {
            assert_eq!(m, "right matrix has ");
            assert_eq!(sz, 307);
            assert_eq!(idx, 1);
        }
        other => panic!("unexpected: {:?}", other),
    }
}

#[test]
fn validate_checks_pair_frames_against_612() {
    let r = IpcCommand::RenderPair(vec![(ramp(612), 16u64), (ramp(306), 16u64)]).validate();
    match r {
        Err(Error::InvalidVecSizeFrame(m, sz, idx)) => {
            assert_eq!(m, "");
            assert_eq!(sz, 306);
            assert_eq!(idx, 1);
        }
        other => panic!("unexpected: {:?}", other),
    }
    assert!(IpcCommand::RenderPair(vec![(ramp(612), 16u64)])
        .validate()
        .is_ok());
    // A side-targeted render must not accept pair-sized frames.
    assert!(IpcCommand::RenderSingle(Some(vec![(ramp(612), 0u64)]), None)
        .validate()
        .is_err());
}

#[test]
fn needs_response_only_for_queries() {
    assert!(IpcCommand::GetBrightness(true, false).needs_response());
    assert!(IpcCommand::GetSleep(true, true).needs_response());
    assert!(IpcCommand::GetAnimate(false, true).needs_response());
    assert!(IpcCommand::Version(true, true).needs_response());
    assert!(!IpcCommand::SetBrightness(Some(1), None).needs_response());
    assert!(!IpcCommand::RenderPair(vec![]).needs_response());
    assert!(!IpcCommand::Crash(true, true).needs_response());
}

#[test]
fn pair_column_seventeen_routes_to_right_device_at_eight() {
    let vals = ramp(34);
    let cmd = stage_col_command(Matrix::Pair, 17, vals.clone());
    match cmd {
        IpcCommand::StageCol(None, Some((col, v))) => {
            assert_eq!(col, 8);
            assert_eq!(v, vals);
        }
        other => panic!("unexpected: {:?}", other),
    }
}

#[test]
fn pair_column_eight_routes_to_left_device() {
    let vals = ramp(34);
    let cmd = stage_col_command(Matrix::Pair, 8, vals.clone());
    match cmd {
        IpcCommand::StageCol(Some((col, v)), None) => {
            assert_eq!(col, 8);
            assert_eq!(v, vals);
        }
        other => panic!("unexpected: {:?}", other),
    }
    // Column nine is the first to wrap onto the right device.
    let cmd = stage_col_command(Matrix::Pair, 9, vals.clone());
    match cmd {
        IpcCommand::StageCol(None, Some((col, _))) => assert_eq!(col, 0),
        other => panic!("unexpected: {:?}", other),
    }
}

#[test]
fn side_column_selection_keeps_the_index() {
    let vals = ramp(34);
    match stage_col_command(Matrix::Left, 5, vals.clone()) {
        IpcCommand::StageCol(Some((5, _)), None) => {}
        other => panic!("unexpected: {:?}", other),
    }
    match stage_col_command(Matrix::Right, 5, vals.clone()) {
        IpcCommand::StageCol(None, Some((5, _))) => {}
        other => panic!("unexpected: {:?}", other),
    }
    match stage_col_command(Matrix::Both, 5, vals.clone()) {
        IpcCommand::StageCol(Some((5, a)), Some((5, b))) => {
            assert_eq!(a, vals);
            assert_eq!(b, vals);
        }
        other => panic!("unexpected: {:?}", other),
    }
}

#[test]
fn raw_render_wraps_one_frame() {
    let raw = ramp(306);
    match render_raw_command(Matrix::Both, raw.clone()) {
        IpcCommand::RenderSingle(Some(l), Some(r)) => {
            assert_eq!(l.len(), 1);
            assert_eq!(r.len(), 1);
            assert_eq!(l[0].0, raw);
            assert_eq!(r[0].0, raw);
            assert_eq!(l[0].1, 0);
        }
        other => panic!("unexpected: {:?}", other),
    }
    let raw = ramp(612);
    match render_raw_command(Matrix::Pair, raw.clone()) {
        IpcCommand::RenderPair(p) => {
            assert_eq!(p.len(), 1);
            assert_eq!(p[0].0, raw);
        }
        other => panic!("unexpected: {:?}", other),
    }
}

#[test]
fn frames_render_keeps_the_sequence() {
    let frames = vec![(ramp(306), 40u64), (ramp(306), 80u64)];
    match render_frames_command(Matrix::Left, frames.clone()) {
        IpcCommand::RenderSingle(Some(l), None) => {
            assert_eq!(l.len(), 2);
            assert_eq!(l[1].1, 80);
        }
        other => panic!("unexpected: {:?}", other),
    }
    match render_frames_command(Matrix::Both, frames.clone()) {
        IpcCommand::RenderSingle(Some(l), Some(r)) => {
            assert_eq!(l, frames);
            assert_eq!(r, frames);
        }
        other => panic!("unexpected: {:?}", other),
    }
}

#[test]
fn subcommands_translate_to_their_commands() {
    let cmd = to_command(Commands::Brightness(BrightnessArgs {
        matrix: MatrixNoPair::Both,
        set: None,
        get: true,
    }));
    assert!(matches!(cmd, Some(IpcCommand::GetBrightness(true, true))));

    let cmd = to_command(Commands::Brightness(BrightnessArgs {
        matrix: MatrixNoPair::Right,
        set: Some(9),
        get: false,
    }));
    assert!(matches!(cmd, Some(IpcCommand::SetBrightness(None, Some(9)))));

    let cmd = to_command(Commands::Sleep(SleepArgs {
        matrix: MatrixNoPair::Left,
        set: Some(true),
        get: false,
    }));
    assert!(matches!(cmd, Some(IpcCommand::SetSleep(Some(true), None))));

    let cmd = to_command(Commands::Animate(AnimateArgs {
        matrix: MatrixNoPair::Both,
        set: None,
        get: true,
    }));
    assert!(matches!(cmd, Some(IpcCommand::GetAnimate(true, true))));

    let cmd = to_command(Commands::Version(VersionArgs {
        matrix: MatrixNoPair::Left,
    }));
    assert!(matches!(cmd, Some(IpcCommand::Version(true, false))));

    let cmd = to_command(Commands::List);
    assert!(cmd.is_none());
}

#[test]
fn pattern_flags_translate_in_priority_order() {
    let base = PatternArgs {
        matrix: MatrixNoPair::Left,
        percentage: None,
        gradient: false,
        double_gradient: false,
        lotus_horizontal: false,
        lotus_vertical: false,
        zigzag: false,
        fullbright: false,
        panic_text: false,
    };
    let mut a = base.clone();
    a.percentage = Some(40);
    a.gradient = true;
    let cmd = to_command(Commands::Pattern(a));
    assert!(matches!(
        cmd,
        Some(IpcCommand::PatternPercentage(Some(40), None))
    ));

    let mut a = base.clone();
    a.zigzag = true;
    let cmd = to_command(Commands::Pattern(a));
    assert!(matches!(cmd, Some(IpcCommand::PatternZigzag(true, false))));

    let cmd = to_command(Commands::Pattern(base.clone()));
    assert!(cmd.is_none());
}

#[test]
fn drawbw_translates_per_side() {
    let bitmap = ramp(39);
    let cmd = to_command(Commands::DrawBW(DrawBWArgs {
        matrix: MatrixNoPair::Both,
        bitmap: bitmap.clone(),
    }));
    match cmd {
        Some(IpcCommand::DrawBW(Some(a), Some(b))) => {
            assert_eq!(a, bitmap);
            assert_eq!(b, bitmap);
        }
        other => panic!("unexpected: {:?}", other),
    }
}

#[test]
fn render_with_file_is_decoded_outside_the_translation() {
    let cmd = to_command(Commands::Render(RenderArgs {
        matrix: Matrix::Left,
        file: Some(String::from("image.gif")),
        raw: None,
    }));
    assert!(cmd.is_none());
    let cmd = to_command(Commands::Render(RenderArgs {
        matrix: Matrix::Right,
        file: None,
        raw: Some(ramp(306)),
    }));
    assert!(matches!(cmd, Some(IpcCommand::RenderSingle(None, Some(_)))));
}

#[test]
fn stage_col_subcommand_routes_like_the_builder() {
    let cmd = to_command(Commands::StageCol(StageColArgs {
        matrix: Matrix::Pair,
        column: 17,
        values: ramp(34),
    }));
    match cmd {
        Some(IpcCommand::StageCol(None, Some((8, _)))) => {}
        other => panic!("unexpected: {:?}", other),
    }
}
