//! The Dashboard server's line protocol: the command lines a client sends and
//! what the replies mean.
//!
//! Each command is one line; the server answers with one line. A reply is
//! accepted when, ignoring case, it contains a phrase that the command
//! expects; the queries then read the lower-cased reply word by word.

use vstd::prelude::*;

use crate::error::Error;
use crate::text::{
    contains_text, ends_with_text, has_infix, has_suffix, join_text, lower_of, lowercase,
    same_text, strip_leading, strip_prefixes, trimmed, trimmed_of, words, words_of,
};

verus! {

/// The TCP port of the Dashboard server.
pub const DASHBOARD_PORT: u16 = 29999;

/// Robot status mode.
#[derive(Debug, Clone, Copy, PartialEq, Eq, Structural)]
pub enum RobotMode {
    NoController,
    Disconnected,
    ConfirmSafety,
    Booting,
    PowerOff,
    PowerOn,
    Idle,
    Backdrive,
    Running,
}

/// Robot state: slowly changing metadata.
#[derive(Debug)]
pub struct RobotState {
    pub program: Option<String>,
    pub is_saved: bool,
    pub version: String,
    pub mode: RobotMode,
    pub operational_mode: Option<OpMode>,
    pub safety_state: SafetyStatus,
    pub is_remote: bool,
    pub serial: String,
    pub model: String,
}

/// Program operational state data.
#[derive(Debug)]
pub struct OperationalState {
    pub mode: RobotMode,
    pub state: ProgramState,
}

/// State of the active program and path to the loaded program file; stopped
/// without a name when no program is loaded.
#[derive(Debug)]
pub enum ProgramState {
    Stopped(Option<String>),
    Playing(String),
    Paused(String),
}

/// Robot operational mode.
#[derive(Debug, Clone, Copy, PartialEq, Eq, Structural)]
pub enum OpMode {
    Manual,
    Automatic,
}

/// Robot safety status.
#[derive(Debug, Clone, Copy, PartialEq, Eq, Structural)]
pub enum SafetyStatus {
    Normal,
    Reduced,
    ProtectiveStop,
    Recovery,
    SafeguardStop,
    SystemEmergencyStop,
    RobotEmergencyStop,
    Violation,
    Fault,
    AutomaticModeSafeguardStop,
    SystemThreePositionEnablingStop,
}

/// The views of a list of words.
pub open spec fn word_views(w: Seq<&str>) -> Seq<Seq<char>> {
    w.map_values(|s: &str| s@)
}

/// Checks a reply: it is accepted when its lower-cased form contains the
/// lower-cased `expected` phrase, and is then returned lower-cased.
pub fn check_reply(reply: &str, expected: &str) -> (r: Result<String, Error>)
    ensures
        has_infix(lower_of(reply@), lower_of(expected@)) ==> r is Ok && r->Ok_0@ == lower_of(
            reply@,
        ),
        !has_infix(lower_of(reply@), lower_of(expected@)) ==> r is Err
            && r->Err_0 is UnexpectedResponse,
{
    let lower = lowercase(reply);
    let phrase = lowercase(expected);
    if contains_text(lower.as_str(), phrase.as_str()) {
        Ok(lower)
    } else {
        Err(Error::UnexpectedResponse(lower))
    }
}

/// The robot mode a reply word names.
pub open spec fn robot_mode_named(w: Seq<char>) -> Option<RobotMode> {
    if w == "no_controller"@ {
        Some(RobotMode::NoController)
    } else if w == "disconnected"@ {
        Some(RobotMode::Disconnected)
    } else if w == "confirm_safety"@ {
        Some(RobotMode::ConfirmSafety)
    } else if w == "booting"@ {
        Some(RobotMode::Booting)
    } else if w == "power_off"@ {
        Some(RobotMode::PowerOff)
    } else if w == "power_on"@ {
        Some(RobotMode::PowerOn)
    } else if w == "idle"@ {
        Some(RobotMode::Idle)
    } else if w == "backdrive"@ {
        Some(RobotMode::Backdrive)
    } else if w == "running"@ {
        Some(RobotMode::Running)
    } else {
        None
    }
}

impl RobotMode {
    /// The robot mode a reply word names.
    pub fn from_word(w: &str) -> (r: Option<RobotMode>)
        ensures
            r == robot_mode_named(w@),
    {
        if same_text(w, "no_controller") {
            Some(RobotMode::NoController)
        } else if same_text(w, "disconnected") {
            Some(RobotMode::Disconnected)
        } else if same_text(w, "confirm_safety") {
            Some(RobotMode::ConfirmSafety)
        } else if same_text(w, "booting") {
            Some(RobotMode::Booting)
        } else if same_text(w, "power_off") {
            Some(RobotMode::PowerOff)
        } else if same_text(w, "power_on") {
            Some(RobotMode::PowerOn)
        } else if same_text(w, "idle") {
            Some(RobotMode::Idle)
        } else if same_text(w, "backdrive") {
            Some(RobotMode::Backdrive)
        } else if same_text(w, "running") {
            Some(RobotMode::Running)
        } else {
            None
        }
    }

    /// Whether the arm has power: powered on, idle or running.
    pub fn is_powered(&self) -> (r: bool)
        ensures
            r == (*self == RobotMode::PowerOn || *self == RobotMode::Idle || *self
                == RobotMode::Running),
    {
        match self {
            RobotMode::PowerOn | RobotMode::Idle | RobotMode::Running => true,
            _ => false,
        }
    }
}

/// Reads the words of a robot mode reply, `robotmode: <mode>`.
pub fn robot_mode_from_words(w: &[&str]) -> (r: Result<RobotMode, Error>)
    ensures
        w@.len() >= 2 && robot_mode_named(w@[1]@) is Some ==> r == Ok::<RobotMode, Error>(
            robot_mode_named(w@[1]@).unwrap(),
        ),
        !(w@.len() >= 2 && robot_mode_named(w@[1]@) is Some) ==> r is Err
            && r->Err_0 is UnexpectedResponse,
{
    if w.len() < 2 {
        return Err(Error::UnexpectedResponse("robot mode reply without a mode".to_owned()));
    }
    match RobotMode::from_word(w[1]) {
        Some(m) => Ok(m),
        None => Err(Error::UnexpectedResponse(join_text("Unknown Robot Mode: ", w[1]))),
    }
}

/// Reads a lower-cased robot mode reply.
pub fn parse_robot_mode(reply: &str) -> (r: Result<RobotMode, Error>)
    ensures
        words_of(reply@).len() >= 2 && robot_mode_named(words_of(reply@)[1]) is Some ==> r == Ok::<
            RobotMode,
            Error,
        >(robot_mode_named(words_of(reply@)[1]).unwrap()),
        !(words_of(reply@).len() >= 2 && robot_mode_named(words_of(reply@)[1]) is Some) ==> r is Err
            && r->Err_0 is UnexpectedResponse,
{
    let w = words(reply);
    proof {
        if w@.len() >= 2 {
            assert(w@[1]@ == words_of(reply@)[1]);
        }
    }
    robot_mode_from_words(w.as_slice())
}

/// The boolean a reply word spells.
pub open spec fn bool_named(w: Seq<char>) -> Option<bool> {
    if w == "true"@ {
        Some(true)
    } else if w == "false"@ {
        Some(false)
    } else {
        None
    }
}

/// The boolean a reply word spells.
pub fn bool_from_word(w: &str) -> (r: Option<bool>)
    ensures
        r == bool_named(w@),
{
    if same_text(w, "true") {
        Some(true)
    } else if same_text(w, "false") {
        Some(false)
    } else {
        None
    }
}

/// Reads the words of a running reply, `program running: <bool>`: its last word.
pub fn running_from_words(w: &[&str]) -> (r: Option<bool>)
    ensures
        w@.len() == 0 ==> r is None,
        w@.len() > 0 ==> r == bool_named(w@.last()@),
{
    if w.len() == 0 {
        return None;
    }
    bool_from_word(w[w.len() - 1])
}

/// Reads a lower-cased running reply.
pub fn parse_running(reply: &str) -> (r: Result<bool, Error>)
    ensures
        words_of(reply@).len() > 0 && bool_named(words_of(reply@).last()) is Some ==> r == Ok::<
            bool,
            Error,
        >(bool_named(words_of(reply@).last()).unwrap()),
        !(words_of(reply@).len() > 0 && bool_named(words_of(reply@).last()) is Some) ==> r is Err
            && r->Err_0 is UnexpectedResponse,
{
    let w = words(reply);
    proof {
        if w@.len() > 0 {
            assert(w@.last()@ == words_of(reply@).last());
        }
    }
    match running_from_words(w.as_slice()) {
        Some(b) => Ok(b),
        None => Err(Error::UnexpectedResponse(reply.to_owned())),
    }
}

/// Reads the words of a saved-state reply, `<bool> <program>`.
pub fn saved_from_words(w: &[&str]) -> (r: Result<(bool, Option<String>), Error>)
    ensures
        w@.len() >= 2 && bool_named(w@[0]@) is Some ==> r is Ok && r->Ok_0.0 == bool_named(
            w@[0]@,
        ).unwrap() && r->Ok_0.1 is Some && r->Ok_0.1->0@ == w@[1]@,
        !(w@.len() >= 2 && bool_named(w@[0]@) is Some) ==> r is Err
            && r->Err_0 is UnexpectedResponse,
{
    if w.len() < 2 {
        return Err(Error::UnexpectedResponse("saved reply without a program".to_owned()));
    }
    match bool_from_word(w[0]) {
        Some(b) => Ok((b, Some(w[1].to_owned()))),
        None => Err(Error::UnexpectedResponse(join_text("Unknown saved state: ", w[0]))),
    }
}

/// Reads a lower-cased saved-state reply: whether the loaded program is saved,
/// and its name. A reply that no program is running has neither.
pub fn parse_saved(reply: &str) -> (r: Result<(bool, Option<String>), Error>)
    ensures
        has_infix(reply@, "program running: false"@) ==> r is Ok && r->Ok_0.0 == false
            && r->Ok_0.1 is None,
        !has_infix(reply@, "program running: false"@) && words_of(reply@).len() >= 2 && bool_named(
            words_of(reply@)[0],
        ) is Some ==> r is Ok && r->Ok_0.0 == bool_named(words_of(reply@)[0]).unwrap()
            && r->Ok_0.1 is Some && r->Ok_0.1->0@ == words_of(reply@)[1],
        !has_infix(reply@, "program running: false"@) && !(words_of(reply@).len() >= 2
            && bool_named(words_of(reply@)[0]) is Some) ==> r is Err
            && r->Err_0 is UnexpectedResponse,
{
    if contains_text(reply, "program running: false") {
        return Ok((false, None));
    }
    let w = words(reply);
    proof {
        if w@.len() >= 2 {
            assert(w@[0]@ == words_of(reply@)[0]);
            assert(w@[1]@ == words_of(reply@)[1]);
        }
    }
    saved_from_words(w.as_slice())
}

/// Reads a lower-cased remote-control reply, `true` or `false`.
pub fn parse_remote(reply: &str) -> (r: Result<bool, Error>)
    ensures
        bool_named(trimmed_of(reply@)) is Some ==> r == Ok::<bool, Error>(
            bool_named(trimmed_of(reply@)).unwrap(),
        ),
        bool_named(trimmed_of(reply@)) is None ==> r is Err && r->Err_0 is UnexpectedResponse,
{
    match bool_from_word(trimmed(reply)) {
        Some(b) => Ok(b),
        None => Err(Error::UnexpectedResponse(reply.to_owned())),
    }
}

/// Which program state a reply word names: 0 playing, 1 paused, 2 stopped.
pub open spec fn program_status_named(w: Seq<char>) -> Option<int> {
    if w == "playing"@ {
        Some(0)
    } else if w == "paused"@ {
        Some(1)
    } else if w == "stopped"@ {
        Some(2)
    } else {
        None
    }
}

/// Whether `state` is the one that `status` and `program` describe.
pub open spec fn program_state_is(state: ProgramState, status: Seq<char>, program: Seq<char>) -> bool {
    match state {
        ProgramState::Playing(p) => program_status_named(status) == Some(0int) && p@ == program,
        ProgramState::Paused(p) => program_status_named(status) == Some(1int) && p@ == program,
        ProgramState::Stopped(None) => program_status_named(status) == Some(2int) && program
            == "<unnamed>"@,
        ProgramState::Stopped(Some(p)) => program_status_named(status) == Some(2int) && program
            != "<unnamed>"@ && p@ == program,
    }
}

/// Reads the words of a program state reply, `<state> <program>`.
pub fn program_state_from_words(w: &[&str]) -> (r: Result<ProgramState, Error>)
    ensures
        w@.len() >= 2 && program_status_named(w@[0]@) is Some ==> r is Ok && program_state_is(
            r->Ok_0,
            w@[0]@,
            w@[1]@,
        ),
        !(w@.len() >= 2 && program_status_named(w@[0]@) is Some) ==> r is Err
            && r->Err_0 is UnexpectedResponse,
{
    if w.len() < 2 {
        return Err(Error::UnexpectedResponse("program state reply without a program".to_owned()));
    }
    let status = w[0];
    let program = w[1];
    if same_text(status, "playing") {
        Ok(ProgramState::Playing(program.to_owned()))
    } else if same_text(status, "paused") {
        Ok(ProgramState::Paused(program.to_owned()))
    } else if same_text(status, "stopped") {
        if same_text(program, "<unnamed>") {
            Ok(ProgramState::Stopped(None))
        } else {
            Ok(ProgramState::Stopped(Some(program.to_owned())))
        }
    } else {
        Err(Error::UnexpectedResponse(join_text("Unknown program state: ", status)))
    }
}

/// Reads a lower-cased program state reply.
pub fn parse_program_state(reply: &str) -> (r: Result<ProgramState, Error>)
    ensures
        words_of(reply@).len() >= 2 && program_status_named(words_of(reply@)[0]) is Some ==> r is Ok
            && program_state_is(r->Ok_0, words_of(reply@)[0], words_of(reply@)[1]),
        !(words_of(reply@).len() >= 2 && program_status_named(words_of(reply@)[0]) is Some) ==> r is Err
            && r->Err_0 is UnexpectedResponse,
{
    let w = words(reply);
    proof {
        if w@.len() >= 2 {
            assert(w@[0]@ == words_of(reply@)[0]);
            assert(w@[1]@ == words_of(reply@)[1]);
        }
    }
    program_state_from_words(w.as_slice())
}

/// Reads the words of a loaded program reply, `loaded program: <path>`: the
/// path, without the simulator's program directory.
pub fn loaded_program_from_words(w: &[&str]) -> (r: Result<String, Error>)
    ensures
        w@.len() >= 3 ==> r is Ok && r->Ok_0@ == strip_prefixes(w@[2]@, "/ursim/programs/"@),
        w@.len() < 3 ==> r is Err && r->Err_0 is UnexpectedResponse,
{
    if w.len() < 3 {
        return Err(Error::UnexpectedResponse("loaded program reply without a path".to_owned()));
    }
    proof {
        reveal_strlit("/ursim/programs/");
    }
    Ok(strip_leading(w[2], "/ursim/programs/").to_owned())
}

/// Reads a lower-cased loaded program reply.
pub fn parse_loaded_program(reply: &str) -> (r: Result<String, Error>)
    ensures
        words_of(reply@).len() >= 3 ==> r is Ok && r->Ok_0@ == strip_prefixes(
            words_of(reply@)[2],
            "/ursim/programs/"@,
        ),
        words_of(reply@).len() < 3 ==> r is Err && r->Err_0 is UnexpectedResponse,
{
    let w = words(reply);
    proof {
        if w@.len() >= 3 {
            assert(w@[2]@ == words_of(reply@)[2]);
        }
    }
    loaded_program_from_words(w.as_slice())
}

/// The operational mode a reply names: `manual`, `automatic`, or `none` when
/// no mode is enforced.
pub open spec fn op_mode_named(w: Seq<char>) -> Option<Option<OpMode>> {
    if w == "manual"@ {
        Some(Some(OpMode::Manual))
    } else if w == "automatic"@ {
        Some(Some(OpMode::Automatic))
    } else if w == "none"@ {
        Some(None)
    } else {
        None
    }
}

/// The operational mode a reply names.
pub fn op_mode_from_word(w: &str) -> (r: Option<Option<OpMode>>)
    ensures
        r == op_mode_named(w@),
{
    if same_text(w, "manual") {
        Some(Some(OpMode::Manual))
    } else if same_text(w, "automatic") {
        Some(Some(OpMode::Automatic))
    } else if same_text(w, "none") {
        Some(None)
    } else {
        None
    }
}

/// Reads a lower-cased operational mode reply.
pub fn parse_op_mode(reply: &str) -> (r: Result<Option<OpMode>, Error>)
    ensures
        op_mode_named(trimmed_of(reply@)) is Some ==> r == Ok::<Option<OpMode>, Error>(
            op_mode_named(trimmed_of(reply@)).unwrap(),
        ),
        op_mode_named(trimmed_of(reply@)) is None ==> r is Err && r->Err_0 is UnexpectedResponse,
{
    match op_mode_from_word(trimmed(reply)) {
        Some(m) => Ok(m),
        None => Err(Error::UnexpectedResponse(reply.to_owned())),
    }
}

/// The safety status a reply word names.
pub open spec fn safety_status_named(w: Seq<char>) -> Option<SafetyStatus> {
    if w == "normal"@ {
        Some(SafetyStatus::Normal)
    } else if w == "reduced"@ {
        Some(SafetyStatus::Reduced)
    } else if w == "protective_stop"@ {
        Some(SafetyStatus::ProtectiveStop)
    } else if w == "recovery"@ {
        Some(SafetyStatus::Recovery)
    } else if w == "safeguard_stop"@ {
        Some(SafetyStatus::SafeguardStop)
    } else if w == "system_emergency_stop"@ {
        Some(SafetyStatus::SystemEmergencyStop)
    } else if w == "robot_emergency_stop"@ {
        Some(SafetyStatus::RobotEmergencyStop)
    } else if w == "violation"@ {
        Some(SafetyStatus::Violation)
    } else if w == "fault"@ {
        Some(SafetyStatus::Fault)
    } else if w == "automatic_mode_safeguard_stop"@ {
        Some(SafetyStatus::AutomaticModeSafeguardStop)
    } else if w == "system_three_position_enabling_stop"@ {
        Some(SafetyStatus::SystemThreePositionEnablingStop)
    } else {
        None
    }
}

impl SafetyStatus {
    /// The safety status a reply word names.
    pub fn from_word(w: &str) -> (r: Option<SafetyStatus>)
        ensures
            r == safety_status_named(w@),
    {
        if same_text(w, "normal") {
            Some(SafetyStatus::Normal)
        } else if same_text(w, "reduced") {
            Some(SafetyStatus::Reduced)
        } else if same_text(w, "protective_stop") {
            Some(SafetyStatus::ProtectiveStop)
        } else if same_text(w, "recovery") {
            Some(SafetyStatus::Recovery)
        } else if same_text(w, "safeguard_stop") {
            Some(SafetyStatus::SafeguardStop)
        } else if same_text(w, "system_emergency_stop") {
            Some(SafetyStatus::SystemEmergencyStop)
        } else if same_text(w, "robot_emergency_stop") {
            Some(SafetyStatus::RobotEmergencyStop)
        } else if same_text(w, "violation") {
            Some(SafetyStatus::Violation)
        } else if same_text(w, "fault") {
            Some(SafetyStatus::Fault)
        } else if same_text(w, "automatic_mode_safeguard_stop") {
            Some(SafetyStatus::AutomaticModeSafeguardStop)
        } else if same_text(w, "system_three_position_enabling_stop") {
            Some(SafetyStatus::SystemThreePositionEnablingStop)
        } else {
            None
        }
    }
}

/// Reads the words of a safety status reply, `safetystatus: <status>`.
pub fn safety_status_from_words(w: &[&str]) -> (r: Result<SafetyStatus, Error>)
    ensures
        w@.len() >= 2 && safety_status_named(w@[1]@) is Some ==> r == Ok::<SafetyStatus, Error>(
            safety_status_named(w@[1]@).unwrap(),
        ),
        !(w@.len() >= 2 && safety_status_named(w@[1]@) is Some) ==> r is Err
            && r->Err_0 is UnexpectedResponse,
{
    if w.len() < 2 {
        return Err(Error::UnexpectedResponse("safety status reply without a status".to_owned()));
    }
    match SafetyStatus::from_word(w[1]) {
        Some(s) => Ok(s),
        None => Err(Error::UnexpectedResponse(join_text("Unknown Safety Status: ", w[1]))),
    }
}

/// Reads a lower-cased safety status reply.
pub fn parse_safety_status(reply: &str) -> (r: Result<SafetyStatus, Error>)
    ensures
        words_of(reply@).len() >= 2 && safety_status_named(words_of(reply@)[1]) is Some ==> r == Ok::<
            SafetyStatus,
            Error,
        >(safety_status_named(words_of(reply@)[1]).unwrap()),
        !(words_of(reply@).len() >= 2 && safety_status_named(words_of(reply@)[1]) is Some) ==> r is Err
            && r->Err_0 is UnexpectedResponse,
{
    let w = words(reply);
    proof {
        if w@.len() >= 2 {
            assert(w@[1]@ == words_of(reply@)[1]);
        }
    }
    safety_status_from_words(w.as_slice())
}

/// The command that loads `program`, adding the `.urp` extension when it is missing.
pub fn load_program_command(program: &str) -> (r: String)
    ensures
        has_suffix(program@, ".urp"@) ==> r@ == "Load "@ + program@,
        !has_suffix(program@, ".urp"@) ==> r@ == "Load "@ + program@ + ".urp"@,
{
    let line = join_text("Load ", program);
    if ends_with_text(program, ".urp") {
        line
    } else {
        join_text(line.as_str(), ".urp")
    }
}

/// The command that loads `installation`, adding the `.installation`
/// extension when it is missing; without one, the default installation.
pub fn load_installation_command(installation: Option<&str>) -> (r: String)
    ensures
        installation is None ==> r@ == "load installation default.installation"@,
        installation is Some && has_suffix(installation->0@, ".installation"@) ==> r@
            == "load installation "@ + installation->0@,
        installation is Some && !has_suffix(installation->0@, ".installation"@) ==> r@
            == "load installation "@ + installation->0@ + ".installation"@,
{
    match installation {
        Some(name) => {
            let line = join_text("load installation ", name);
            if ends_with_text(name, ".installation") {
                line
            } else {
                join_text(line.as_str(), ".installation")
            }
        },
        None => "load installation default.installation".to_owned(),
    }
}

/// The command that sets the operational mode, and the phrase its reply
/// must contain; without a mode, the command that gives up control of it.
pub fn op_mode_command(mode: Option<OpMode>) -> (r: (String, String))
    ensures
        mode == Some(OpMode::Manual) ==> r.0@ == "set operational mode manual"@ && r.1@
            == "operational mode 'manual' is set"@,
        mode == Some(OpMode::Automatic) ==> r.0@ == "set operational mode automatic"@ && r.1@
            == "operational mode 'automatic' is set"@,
        mode is None ==> r.0@ == "clear operational mode"@ && r.1@
            == "no longer controlling the operational mode"@,
{
    match mode {
        Some(OpMode::Manual) => (
            "set operational mode manual".to_owned(),
            "operational mode 'manual' is set".to_owned(),
        ),
        Some(OpMode::Automatic) => (
            "set operational mode automatic".to_owned(),
            "operational mode 'automatic' is set".to_owned(),
        ),
        None => (
            "clear operational mode".to_owned(),
            "no longer controlling the operational mode".to_owned(),
        ),
    }
}

} // verus!
