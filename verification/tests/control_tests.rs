use hwtools::control::{
    key_from_arg, keys_from_args, AppOp, Focus, FocusAction, MainLoop, PumpAction, PumpOp,
    PumpState, RedrawKind,
};

#[test]
fn op_codes() {
    assert_eq!(AppOp::from_usize(0), Some(AppOp::Redraw));
    assert_eq!(AppOp::from_usize(1), Some(AppOp::Rawkeys));
    assert_eq!(AppOp::from_usize(4), Some(AppOp::Quit));
    assert_eq!(AppOp::from_usize(5), None);
    assert_eq!(AppOp::Pump.to_usize(), 3);
    assert_eq!(PumpOp::from_usize(2), Some(PumpOp::Pump));
    assert_eq!(PumpOp::from_usize(4), None);
    assert_eq!(PumpOp::Quit.to_usize(), 3);
}

#[test]
fn raw_keys() {
    assert_eq!(key_from_arg(0x61), Some('a'));
    assert_eq!(key_from_arg(0), None);
    assert_eq!(key_from_arg(0xD800), None);
    assert_eq!(key_from_arg(0x2192), Some('\u{2192}'));
    assert_eq!(keys_from_args([0x71, 0, 0xD800, 0x32]), vec!['q', '2']);
    assert_eq!(keys_from_args([0, 0, 0, 0]), Vec::<char>::new());
}

#[test]
fn redraw_and_focus() {
    let mut l = MainLoop::new();
    assert_eq!(l.on_redraw(), RedrawKind::Content);
    assert!(l.on_pump());
    assert_eq!(l.on_focus(Focus::Background), FocusAction { refresh_now: false, pump: PumpOp::Stop });
    assert_eq!(l.on_redraw(), RedrawKind::Skip);
    assert!(!l.on_pump());
    assert_eq!(l.on_focus(Focus::Foreground), FocusAction { refresh_now: true, pump: PumpOp::Run });
    assert_eq!(l.on_redraw(), RedrawKind::Full);
    assert_eq!(l.on_redraw(), RedrawKind::Content);
}

#[test]
fn pump_states() {
    let mut p = PumpState::new();
    assert_eq!(p.step(PumpOp::Pump), PumpAction::Idle);
    assert_eq!(p.step(PumpOp::Run), PumpAction::Schedule);
    assert_eq!(p.step(PumpOp::Pump), PumpAction::TickAndReschedule);
    assert_eq!(p.step(PumpOp::Stop), PumpAction::Idle);
    assert_eq!(p.step(PumpOp::Pump), PumpAction::Idle);
    assert_eq!(p.step(PumpOp::Quit), PumpAction::Exit);
}

#[test]
fn op_codes_roundtrip() {
    for op in [AppOp::Redraw, AppOp::Rawkeys, AppOp::FocusChange, AppOp::Pump, AppOp::Quit] {
        assert_eq!(AppOp::from_usize(op.to_usize()), Some(op));
    }
    for op in [PumpOp::Run, PumpOp::Stop, PumpOp::Pump, PumpOp::Quit] {
        assert_eq!(PumpOp::from_usize(op.to_usize()), Some(op));
    }
}
