//! The commands of the interactive mode: one command per input line.
use vstd::prelude::*;

use crate::text::chars_eq;
use crate::text::chars_of;
use crate::text::concat;
use crate::text::pop_chars;
use crate::text::pop_last;

verus! {

/// A command typed in the interactive mode.
#[derive(PartialEq, Eq, Structural, Clone, Copy, Debug)]
pub enum Command {
    Help,
    GetFreq,
    GetPower,
    GetUsage,
    GetTurbo,
    GetAvailableGovernors,
    GetCpus,
    GetSpeeds,
    GetTemp,
    GetGovs,
    GetBatteryCondition,
    SetGovPerformance,
    SetGovPowersave,
    DaemonDisable,
    DaemonEnable,
    DaemonStatus,
    DaemonToggle,
    Exit,
    /// Any other line.
    NotFound,
}

/// The command that a line (without its newline) names.
pub open spec fn command_of(line: Seq<char>) -> Command {
    if line == "help"@ {
        Command::Help
    } else if line == "get freq"@ {
        Command::GetFreq
    } else if line == "get power"@ {
        Command::GetPower
    } else if line == "get usage"@ {
        Command::GetUsage
    } else if line == "get turbo"@ {
        Command::GetTurbo
    } else if line == "get available_governors"@ {
        Command::GetAvailableGovernors
    } else if line == "get cpus"@ {
        Command::GetCpus
    } else if line == "get speeds"@ {
        Command::GetSpeeds
    } else if line == "get temp"@ {
        Command::GetTemp
    } else if line == "get govs"@ {
        Command::GetGovs
    } else if line == "get battery_condition"@ {
        Command::GetBatteryCondition
    } else if line == "set gov performance"@ {
        Command::SetGovPerformance
    } else if line == "set gov powersave"@ {
        Command::SetGovPowersave
    } else if line == "daemon disable"@ {
        Command::DaemonDisable
    } else if line == "daemon enable"@ {
        Command::DaemonEnable
    } else if line == "daemon status"@ {
        Command::DaemonStatus
    } else if line == "daemon toggle"@ {
        Command::DaemonToggle
    } else if line == "exit"@ {
        Command::Exit
    } else {
        Command::NotFound
    }
}

fn is(v: &Vec<char>, word: &str) -> (r: bool)
    ensures
        r == (v@ == word@),
{
    chars_eq(v, &chars_of(word))
}

/// The command that a line read from the terminal names: the line without
/// its last character (the newline).
pub fn read_command(input: &str) -> (c: Command)
    ensures
        c == command_of(pop_last(input@)),
{
    let v = pop_chars(&chars_of(input));
    if is(&v, "help") {
        Command::Help
    } else if is(&v, "get freq") {
        Command::GetFreq
    } else if is(&v, "get power") {
        Command::GetPower
    } else if is(&v, "get usage") {
        Command::GetUsage
    } else if is(&v, "get turbo") {
        Command::GetTurbo
    } else if is(&v, "get available_governors") {
        Command::GetAvailableGovernors
    } else if is(&v, "get cpus") {
        Command::GetCpus
    } else if is(&v, "get speeds") {
        Command::GetSpeeds
    } else if is(&v, "get temp") {
        Command::GetTemp
    } else if is(&v, "get govs") {
        Command::GetGovs
    } else if is(&v, "get battery_condition") {
        Command::GetBatteryCondition
    } else if is(&v, "set gov performance") {
        Command::SetGovPerformance
    } else if is(&v, "set gov powersave") {
        Command::SetGovPowersave
    } else if is(&v, "daemon disable") {
        Command::DaemonDisable
    } else if is(&v, "daemon enable") {
        Command::DaemonEnable
    } else if is(&v, "daemon status") {
        Command::DaemonStatus
    } else if is(&v, "daemon toggle") {
        Command::DaemonToggle
    } else if is(&v, "exit") {
        Command::Exit
    } else {
        Command::NotFound
    }
}

/// What the interactive mode says about a line that names no command.
pub fn not_found_message(line: &str) -> (m: String)
    ensures
        m@ == "Command '"@ + line@ + "' not found. Use 'help'."@,
{
    let a = concat("Command '", line);
    concat(a.as_str(), "' not found. Use 'help'.")
}

/// The line that names a command (`NotFound` is named by no line).
pub open spec fn command_text(c: Command) -> Seq<char> {
    match c {
        Command::Help => "help"@,
        Command::GetFreq => "get freq"@,
        Command::GetPower => "get power"@,
        Command::GetUsage => "get usage"@,
        Command::GetTurbo => "get turbo"@,
        Command::GetAvailableGovernors => "get available_governors"@,
        Command::GetCpus => "get cpus"@,
        Command::GetSpeeds => "get speeds"@,
        Command::GetTemp => "get temp"@,
        Command::GetGovs => "get govs"@,
        Command::GetBatteryCondition => "get battery_condition"@,
        Command::SetGovPerformance => "set gov performance"@,
        Command::SetGovPowersave => "set gov powersave"@,
        Command::DaemonDisable => "daemon disable"@,
        Command::DaemonEnable => "daemon enable"@,
        Command::DaemonStatus => "daemon status"@,
        Command::DaemonToggle => "daemon toggle"@,
        Command::Exit => "exit"@,
        Command::NotFound => Seq::<char>::empty(),
    }
}

/// Every command that the help lists is read as itself: no command's line
/// is taken for another's.
pub proof fn law_commands_recognized(c: Command)
    requires
        c != Command::NotFound,
    ensures
        command_of(command_text(c)) == c,
{
    reveal_strlit("help");
    reveal_strlit("get freq");
    reveal_strlit("get power");
    reveal_strlit("get usage");
    reveal_strlit("get turbo");
    reveal_strlit("get available_governors");
    reveal_strlit("get cpus");
    reveal_strlit("get speeds");
    reveal_strlit("get temp");
    reveal_strlit("get govs");
    reveal_strlit("get battery_condition");
    reveal_strlit("set gov performance");
    reveal_strlit("set gov powersave");
    reveal_strlit("daemon disable");
    reveal_strlit("daemon enable");
    reveal_strlit("daemon status");
    reveal_strlit("daemon toggle");
    reveal_strlit("exit");
    assert("help"@.len() == 4);
    assert("get freq"@.len() == 8);
    assert("get power"@.len() == 9);
    assert("get usage"@.len() == 9);
    assert("get turbo"@.len() == 9);
    assert("get available_governors"@.len() == 23);
    assert("get cpus"@.len() == 8);
    assert("get speeds"@.len() == 10);
    assert("get temp"@.len() == 8);
    assert("get govs"@.len() == 8);
    assert("get battery_condition"@.len() == 21);
    assert("set gov performance"@.len() == 19);
    assert("set gov powersave"@.len() == 17);
    assert("daemon disable"@.len() == 14);
    assert("daemon enable"@.len() == 13);
    assert("daemon status"@.len() == 13);
    assert("daemon toggle"@.len() == 13);
    assert("exit"@.len() == 4);
    assert("get power"@[4] != "get usage"@[4]);
    assert("get power"@[4] != "get turbo"@[4]);
    assert("get usage"@[4] != "get turbo"@[4]);
    assert("get freq"@[4] != "get cpus"@[4]);
    assert("get freq"@[4] != "get temp"@[4]);
    assert("get cpus"@[4] != "get temp"@[4]);
    assert("get freq"@[4] != "get govs"@[4]);
    assert("get cpus"@[4] != "get govs"@[4]);
    assert("get temp"@[4] != "get govs"@[4]);
    assert("daemon enable"@[7] != "daemon status"@[7]);
    assert("daemon enable"@[7] != "daemon toggle"@[7]);
    assert("daemon status"@[7] != "daemon toggle"@[7]);
    assert("help"@[0] != "exit"@[0]);
}

} // verus!
