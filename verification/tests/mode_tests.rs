use elp::mode::{mode_flags, ElpError, OperationMode};

#[test]
fn mode_new_accepts_plain() {
    let m = OperationMode::new(0, false).unwrap();
    assert_eq!(m.verbosity, 0);
    assert!(!m.quiet);
}

#[test]
fn mode_new_accepts_verbose() {
    let m = OperationMode::new(3, false).unwrap();
    assert_eq!(m.verbosity, 3);
    assert!(!m.quiet);
}

#[test]
fn mode_new_accepts_quiet() {
    let m = OperationMode::new(0, true).unwrap();
    assert_eq!(m.verbosity, 0);
    assert!(m.quiet);
}

#[test]
fn mode_new_rejects_verbose_and_quiet() {
    assert_eq!(OperationMode::new(1, true), Err(ElpError::Configuration));
    assert_eq!(OperationMode::new(7, true), Err(ElpError::Configuration));
}

#[test]
fn flags_quiet_wins_over_any_verbosity() {
    let m = OperationMode { verbosity: 0, quiet: true };
    assert_eq!(mode_flags(&m), vec!["-q".to_string()]);
    let noisy = OperationMode { verbosity: 9, quiet: true };
    assert_eq!(mode_flags(&noisy), vec!["-q".to_string()]);
}

#[test]
fn flags_default_mode_adds_nothing() {
    let m = OperationMode { verbosity: 0, quiet: false };
    assert_eq!(mode_flags(&m), Vec::<String>::new());
}

#[test]
fn flags_single_verbose_tier() {
    let m = OperationMode { verbosity: 1, quiet: false };
    assert_eq!(mode_flags(&m), vec!["-v".to_string()]);
}

#[test]
fn flags_doubled_verbose_tier_is_one_flag() {
    let m = OperationMode { verbosity: 2, quiet: false };
    assert_eq!(mode_flags(&m), vec!["-vv".to_string()]);
    let noisier = OperationMode { verbosity: 6, quiet: false };
    assert_eq!(mode_flags(&noisier), vec!["-vv".to_string()]);
}
