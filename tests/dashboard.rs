use universal_robot::dashboard::{
    check_reply, load_installation_command, load_program_command, op_mode_command, parse_loaded_program,
    parse_op_mode, parse_program_state, parse_remote, parse_robot_mode, parse_running, parse_safety_status,
    parse_saved, robot_mode_from_words, safety_status_from_words, OpMode, ProgramState, RobotMode,
    SafetyStatus,
};
use universal_robot::Error;

#[test]
fn reply_check_ignores_case() {
    assert_eq!(check_reply("Robotmode: RUNNING\n", "robotmode").unwrap(), "robotmode: running\n");
    assert_eq!(check_reply("Loading program: x.urp", "LOADING PROGRAM").unwrap(), "loading program: x.urp");
    assert!(matches!(check_reply("File not found", "loading program"), Err(Error::UnexpectedResponse(_))));
    assert!(check_reply("anything", "").is_ok());
}

#[test]
fn test_get_mode() {
    assert_eq!(parse_robot_mode("robotmode: running\n").unwrap(), RobotMode::Running);
    assert_eq!(parse_robot_mode("robotmode: power_off").unwrap(), RobotMode::PowerOff);
    assert_eq!(parse_robot_mode("robotmode:   no_controller ").unwrap(), RobotMode::NoController);
    assert!(matches!(parse_robot_mode("robotmode: flying"), Err(Error::UnexpectedResponse(_))));
    assert!(matches!(parse_robot_mode("robotmode:"), Err(Error::UnexpectedResponse(_))));
    assert_eq!(robot_mode_from_words(&["robotmode:", "idle"]).unwrap(), RobotMode::Idle);
}

#[test]
fn powered_modes() {
    assert!(RobotMode::PowerOn.is_powered());
    assert!(RobotMode::Idle.is_powered());
    assert!(RobotMode::Running.is_powered());
    assert!(!RobotMode::PowerOff.is_powered());
    assert!(!RobotMode::Booting.is_powered());
}

#[test]
fn test_is_running() {
    assert_eq!(parse_running("program running: true\n").unwrap(), true);
    assert_eq!(parse_running("program running: false").unwrap(), false);
    assert!(matches!(parse_running("program running: maybe"), Err(Error::UnexpectedResponse(_))));
    assert!(matches!(parse_running(""), Err(Error::UnexpectedResponse(_))));
}

#[test]
fn test_is_saved() {
    assert_eq!(parse_saved("true prog.urp\n").unwrap(), (true, Some("prog.urp".to_string())));
    assert_eq!(parse_saved("false prog.urp").unwrap(), (false, Some("prog.urp".to_string())));
    assert_eq!(parse_saved("program running: false").unwrap(), (false, None));
    assert!(matches!(parse_saved("true"), Err(Error::UnexpectedResponse(_))));
    assert!(matches!(parse_saved("yes prog.urp"), Err(Error::UnexpectedResponse(_))));
}

#[test]
fn test_is_remote_mode() {
    assert_eq!(parse_remote("true\n").unwrap(), true);
    assert_eq!(parse_remote("  false ").unwrap(), false);
    assert!(matches!(parse_remote("local"), Err(Error::UnexpectedResponse(_))));
}

#[test]
fn test_get_program_state() {
    match parse_program_state("playing prog.urp\n").unwrap() {
        ProgramState::Playing(p) => assert_eq!(p, "prog.urp"),
        other => panic!("{:?}", other),
    }
    match parse_program_state("paused prog.urp").unwrap() {
        ProgramState::Paused(p) => assert_eq!(p, "prog.urp"),
        other => panic!("{:?}", other),
    }
    assert!(matches!(parse_program_state("stopped <unnamed>").unwrap(), ProgramState::Stopped(None)));
    match parse_program_state("stopped prog.urp").unwrap() {
        ProgramState::Stopped(Some(p)) => assert_eq!(p, "prog.urp"),
        other => panic!("{:?}", other),
    }
    assert!(matches!(parse_program_state("stopped"), Err(Error::UnexpectedResponse(_))));
    assert!(matches!(parse_program_state("running prog.urp"), Err(Error::UnexpectedResponse(_))));
}

#[test]
fn test_get_loaded_program() {
    assert_eq!(
        parse_loaded_program("loaded program: /ursim/programs/rtde_control_loop.urp\n").unwrap(),
        "rtde_control_loop.urp"
    );
    assert_eq!(parse_loaded_program("loaded program: /other/x.urp").unwrap(), "/other/x.urp");
    assert!(matches!(parse_loaded_program("no program"), Err(Error::UnexpectedResponse(_))));
}

#[test]
fn test_get_op_mode() {
    assert_eq!(parse_op_mode("manual\n").unwrap(), Some(OpMode::Manual));
    assert_eq!(parse_op_mode("automatic").unwrap(), Some(OpMode::Automatic));
    assert_eq!(parse_op_mode("none").unwrap(), None);
    assert!(matches!(parse_op_mode("other"), Err(Error::UnexpectedResponse(_))));
}

#[test]
fn test_get_safety_status() {
    assert_eq!(parse_safety_status("safetystatus: normal\n").unwrap(), SafetyStatus::Normal);
    assert_eq!(
        parse_safety_status("safetystatus: system_three_position_enabling_stop").unwrap(),
        SafetyStatus::SystemThreePositionEnablingStop
    );
    assert!(matches!(parse_safety_status("safetystatus:"), Err(Error::UnexpectedResponse(_))));
    assert!(matches!(parse_safety_status("safetystatus: odd"), Err(Error::UnexpectedResponse(_))));
    assert_eq!(safety_status_from_words(&["safetystatus:", "fault"]).unwrap(), SafetyStatus::Fault);
}

#[test]
fn test_load_program() {
    assert_eq!(load_program_command("rtde_control_loop.urp"), "Load rtde_control_loop.urp");
    assert_eq!(load_program_command("rtde_control_loop"), "Load rtde_control_loop.urp");
}

#[test]
fn test_load_installation() {
    assert_eq!(load_installation_command(None), "load installation default.installation");
    assert_eq!(load_installation_command(Some("x")), "load installation x.installation");
    assert_eq!(load_installation_command(Some("x.installation")), "load installation x.installation");
}

#[test]
fn test_set_op_mode() {
    let (cmd, pat) = op_mode_command(Some(OpMode::Manual));
    assert_eq!((cmd.as_str(), pat.as_str()), ("set operational mode manual", "operational mode 'manual' is set"));
    let (cmd, pat) = op_mode_command(Some(OpMode::Automatic));
    assert_eq!(
        (cmd.as_str(), pat.as_str()),
        ("set operational mode automatic", "operational mode 'automatic' is set")
    );
    let (cmd, pat) = op_mode_command(None);
    assert_eq!((cmd.as_str(), pat.as_str()), ("clear operational mode", "no longer controlling the operational mode"));
}
