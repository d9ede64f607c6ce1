//! The daemon's decisions.
//!
//! In edit mode the daemon picks a state of the machine from a set of
//! rules (battery, lid, charger, CPU usage) and sets the governor that the
//! state calls for; in monitor mode it only shows what it reads. Clients
//! can pause and resume it over a socket. The reading of the machine, the
//! writing of governors, the printing and the socket are done by the
//! program that drives these functions.
use vstd::prelude::*;

use crate::config::Config;
use crate::error::Error;
use crate::cpu::CPU;
use crate::gov::gov_name;
use crate::gov::Gov;
use crate::logger::timestamp_nanos;
use crate::logger::Interface;
use crate::logger::Log;
use crate::logger::Logger;
use crate::logger::Severity;
use crate::logger::Timestamp;
use crate::graph::graph_type_name;
use crate::graph::GraphType;
use crate::network::parse_packet;
use crate::network::parse_packet_spec;
use crate::network::Packet;
use crate::network::PacketView;
use crate::power::battery::is_blank_battery;
use crate::power::battery::Battery;
use crate::power::lid::Lid;
use crate::power::lid::LidState;
use crate::power::Power;
use crate::settings::Settings;
use crate::setup::docker_text;
use crate::setup::inside_docker_message;
use crate::setup::inside_wsl_message;
use crate::setup::wsl_text;
use crate::system::get_highest_temp;
use crate::system::highest_temp;
use crate::system::lemma_highest_temp_bounds;
use crate::text::chars_eq;
use crate::text::chars_of;
use crate::text::concat;
use crate::text::dec_int;
use crate::text::dec_nat;
use crate::text::fmt_i64;
use crate::text::fmt_u64;
use crate::text::views;

verus! {

/// Describes the state of the machine
///
/// - The state is stored in the Daemon
/// - The state value is updated in the run_state_machine method.
#[derive(PartialEq, Eq, Structural, Clone, Copy, Debug)]
pub enum State {
    /// System will be in powersave mode unless it gets plugged in
    Normal,
    /// System will always be in powersave mode
    BatteryLow,
    /// System will always be in powersave mode
    LidClosed,
    /// The system will be in performance mode unless the battery is low
    Charging,
    /// The cpu usage has been high for a certain amount of time
    /// The cpu will enter performance mode until the usage goes down
    CpuUsageHigh,
    /// We down know what state the system is in
    Unknown,
}

/// The governor that a state calls for.
pub open spec fn governor_of(s: State) -> Seq<char> {
    match s {
        State::Charging => "performance"@,
        State::CpuUsageHigh => "performance"@,
        _ => "powersave"@,
    }
}

/// Returns the expected governor string based on current state:
/// `performance` while charging or under high usage, `powersave` otherwise.
pub fn get_governor(current_state: &State) -> (g: &'static str)
    ensures
        g@ == governor_of(*current_state),
{
    match current_state {
        State::Normal => "powersave",
        State::BatteryLow => "powersave",
        State::LidClosed => "powersave",
        State::Charging => "performance",
        State::CpuUsageHigh => "performance",
        State::Unknown => "powersave",
    }
}

/// The name of a state as the log shows it (its `Debug`).
pub open spec fn state_name(s: State) -> Seq<char> {
    match s {
        State::Normal => "Normal"@,
        State::BatteryLow => "BatteryLow"@,
        State::LidClosed => "LidClosed"@,
        State::Charging => "Charging"@,
        State::CpuUsageHigh => "CpuUsageHigh"@,
        State::Unknown => "Unknown"@,
    }
}

/// The name of a state as the log shows it.
pub fn state_debug_name(s: &State) -> (n: &'static str)
    ensures
        n@ == state_name(*s),
{
    match s {
        State::Normal => "Normal",
        State::BatteryLow => "BatteryLow",
        State::LidClosed => "LidClosed",
        State::Charging => "Charging",
        State::CpuUsageHigh => "CpuUsageHigh",
        State::Unknown => "Unknown",
    }
}

// ---------------------------------------------------------------------
// The rules
// ---------------------------------------------------------------------

/// How long, in nanoseconds, the usage must stay above the threshold before
/// the usage rule applies (15 s).
pub open spec fn high_usage_span() -> int {
    15_000_000_000
}

/// When the usage went above the threshold, after a reading: the usage rule
/// records the first reading above it and forgets it at the first reading at
/// or below it. (Both tests false is possible: a usage that is no number.)
pub open spec fn next_last_below(
    rules: Seq<State>,
    last: Option<Timestamp>,
    above: bool,
    at_or_below: bool,
    now: Timestamp,
) -> Option<Timestamp> {
    if !rules.contains(State::CpuUsageHigh) {
        last
    } else if at_or_below {
        None
    } else if above && last is None {
        Some(now)
    } else {
        last
    }
}

/// Whether the usage rule applies: it is active and the usage has been above
/// the threshold for the span.
pub open spec fn usage_held_high(rules: Seq<State>, last: Option<Timestamp>, now: Timestamp)
    -> bool {
    rules.contains(State::CpuUsageHigh) && match last {
        Some(l) => timestamp_nanos(now) - timestamp_nanos(l) >= high_usage_span(),
        None => false,
    }
}

/// The state the rules choose, in order of precedence: a low battery, then
/// the charger, then a closed lid, then high usage; `Normal` when none
/// applies. A rule applies only when it is active.
pub open spec fn chosen_state(
    rules: Seq<State>,
    held_high: bool,
    lid: LidState,
    charging: bool,
    charge: i8,
    powersave_under: i8,
) -> State {
    if rules.contains(State::BatteryLow) && charge < powersave_under {
        State::BatteryLow
    } else if rules.contains(State::Charging) && charging {
        State::Charging
    } else if rules.contains(State::LidClosed) && lid == LidState::Closed {
        State::LidClosed
    } else if held_high {
        State::CpuUsageHigh
    } else {
        State::Normal
    }
}

/// Whether a rule is among the active ones.
pub fn rules_contain(rules: &Vec<State>, s: State) -> (r: bool)
    ensures
        r == rules@.contains(s),
{
    let mut i: usize = 0;
    while i < rules.len()
        invariant
            i <= rules.len(),
            forall|k: int| 0 <= k < i ==> rules@[k] != s,
        decreases rules.len() - i,
    {
        if rules[i] == s {
            assert(rules@[i as int] == s);
            return true;
        }
        i = i + 1;
    }
    false
}

// ---------------------------------------------------------------------
// Painting text for the terminal
// ---------------------------------------------------------------------

/// The escape sequence that starts red text.
pub open spec fn ansi_red() -> Seq<char> {
    seq!['\x1b', '[', '3', '1', 'm']
}

/// The escape sequence that starts yellow text.
pub open spec fn ansi_yellow() -> Seq<char> {
    seq!['\x1b', '[', '3', '3', 'm']
}

/// The escape sequence that ends colored text.
pub open spec fn ansi_reset() -> Seq<char> {
    seq!['\x1b', '[', '0', 'm']
}

/// `out` is `s`, shown plain or between `start` and the reset sequence.
pub open spec fn painted(out: Seq<char>, s: Seq<char>, start: Seq<char>) -> bool {
    out == s || out == start + s + ansi_reset()
}

pub open spec fn escape_free(s: Seq<char>) -> bool {
    forall|i: int| 0 <= i < s.len() ==> s[i] != '\x1b'
}

/// `colored`'s red text (`Colorize::red`, then `Display`). Whether it is
/// colored depends on the environment and the terminal: either the text, or
/// the text between the red and reset sequences.
#[verifier::external_body]
fn red(s: &str) -> (r: String)
    requires
        escape_free(s@),
    ensures
        painted(r@, s@, ansi_red()),
{
    colored::Colorize::red(s).to_string()
}

/// `colored`'s yellow text: the text, or the text between the yellow and
/// reset sequences.
#[verifier::external_body]
fn yellow(s: &str) -> (r: String)
    requires
        escape_free(s@),
    ensures
        painted(r@, s@, ansi_yellow()),
{
    colored::Colorize::yellow(s).to_string()
}

/// `colored`'s plain text (`Colorize::normal`): always the text itself.
#[verifier::external_body]
fn normal(s: &str) -> (r: String)
    ensures
        r@ == s@,
{
    colored::Colorize::normal(s).to_string()
}

// ---------------------------------------------------------------------
// Starting the daemon
// ---------------------------------------------------------------------

/// The mode the daemon runs in, and why it was forced out of edit mode.
pub struct ModeDecision {
    pub edit: bool,
    pub forced_reason: String,
    /// The user is told that edit mode needs root (and, outside tests,
    /// given five seconds to read it).
    pub warn_not_root: bool,
}

/// Why the daemon was forced out of edit mode.
pub open spec fn forced_reason_of(requested: bool, has_battery: bool, is_root: bool) -> Seq<char> {
    if !has_battery {
        "the device has no battery"@
    } else if requested && !is_root {
        "acs was not run as root"@
    } else {
        Seq::<char>::empty()
    }
}

/// Edit mode is kept only on a machine with a battery and for root.
pub fn decide_mode(requested_edit: bool, has_battery: bool, is_root: bool) -> (d: ModeDecision)
    ensures
        d.edit == (requested_edit && has_battery && is_root),
        d.warn_not_root == (requested_edit && has_battery && !is_root),
        d.forced_reason@ == forced_reason_of(requested_edit, has_battery, is_root),
{
    let mut edit = requested_edit;
    let mut forced_reason = String::new();
    let mut warn_not_root = false;
    if !has_battery {
        edit = false;
        forced_reason = String::from_str("the device has no battery");
    }
    if edit {
        if !is_root {
            warn_not_root = true;
            forced_reason = String::from_str("acs was not run as root");
            edit = false;
        }
    }
    ModeDecision { edit, forced_reason, warn_not_root }
}

/// The greeting of the daemon: its mode (as painted), its two delays, and,
/// when it was forced out of edit mode, the painted reason.
pub open spec fn init_message(mode: Seq<char>, delay: u64, delay_battery: u64, forced: Seq<char>)
    -> Seq<char> {
    "Auto Clock Speed daemon has been initialized in "@ + mode + " mode with a delay of "@
        + dec_nat(delay as nat) + "ms normally and "@ + dec_nat(delay_battery as nat)
        + "ms when on battery"@ + forced + "\n"@
}

/// The text that says why the daemon was forced to monitor mode.
pub open spec fn forced_text(reason: Seq<char>) -> Seq<char> {
    "\nForced to monitor mode because "@ + reason + "!"@
}

/// The greeting, from its already painted parts.
pub fn compose_init_message(mode: &str, delay: u64, delay_battery: u64, forced: &str) -> (m:
    String)
    ensures
        m@ == init_message(mode@, delay, delay_battery, forced@),
{
    let a = concat("Auto Clock Speed daemon has been initialized in ", mode);
    let b = concat(a.as_str(), " mode with a delay of ");
    let c = concat(b.as_str(), fmt_u64(delay).as_str());
    let d = concat(c.as_str(), "ms normally and ");
    let e = concat(d.as_str(), fmt_u64(delay_battery).as_str());
    let f = concat(e.as_str(), "ms when on battery");
    let g = concat(f.as_str(), forced);
    let h = concat(g.as_str(), "\n");
    assert(h@ =~= init_message(mode@, delay, delay_battery, forced@));
    h
}

proof fn lemma_literals_escape_free()
    ensures
        escape_free("edit"@),
        escape_free("monitor"@),
        escape_free("\nForced to monitor mode because "@),
        escape_free("!"@),
{
    reveal_strlit("edit");
    reveal_strlit("monitor");
    reveal_strlit("\nForced to monitor mode because ");
    reveal_strlit("!");
}

/// The greeting of the daemon: the mode in red (edit) or yellow (monitor),
/// the delays, and, when the mode differs from the one asked for, the
/// reason in red.
pub fn format_message(
    edit: bool,
    started_as_edit: bool,
    forced_reason: String,
    delay: u64,
    delay_battery: u64,
) -> (m: String)
    requires
        escape_free(forced_reason@),
    ensures
        exists|mode: Seq<char>, forced: Seq<char>|
            {
                &&& (if edit {
                    painted(mode, "edit"@, ansi_red())
                } else {
                    painted(mode, "monitor"@, ansi_yellow())
                })
                &&& (if started_as_edit != edit {
                    painted(forced, forced_text(forced_reason@), ansi_red())
                } else {
                    forced.len() == 0
                })
                &&& m@ == init_message(mode, delay, delay_battery, forced)
            },
{
    proof {
        lemma_literals_escape_free();
    }
    let mode = if edit {
        red("edit")
    } else {
        yellow("monitor")
    };
    let forced = if started_as_edit != edit {
        let a = concat("\nForced to monitor mode because ", forced_reason.as_str());
        let t = concat(a.as_str(), "!");
        assert(t@ == forced_text(forced_reason@));
        assert(escape_free(t@)) by {
            assert forall|i: int| 0 <= i < t@.len() implies t@[i] != '\x1b' by {
                let p = "\nForced to monitor mode because "@;
                if i < p.len() {
                    assert(t@[i] == p[i]);
                } else if i < p.len() + forced_reason@.len() {
                    assert(t@[i] == forced_reason@[i - p.len()]);
                } else {
                    assert(t@[i] == "!"@[i - p.len() - forced_reason@.len()]);
                }
            }
        }
        red(t.as_str())
    } else {
        let n = normal("");
        proof {
            reveal_strlit("");
        }
        n
    };
    compose_init_message(mode.as_str(), delay, delay_battery, forced.as_str())
}

/// What the program found when it looked at the machine, before the daemon
/// starts.
pub struct Probe {
    pub has_battery: bool,
    pub is_root: bool,
    /// The battery, where one could be set up.
    pub battery: Option<Battery>,
    pub power: Power,
    /// Whether the adapter is online, where that could be read.
    pub ac: Option<bool>,
    pub lid: Lid,
    pub cpus: Vec<CPU>,
}

/// The settings with the edit mode replaced.
pub open spec fn settings_with_edit(s: Settings, edit: bool) -> Settings {
    Settings { edit, ..s }
}

/// The warnings logged at start: a missing battery, then a missing adapter.
pub open spec fn init_warnings(battery_present: bool, ac_present: bool) -> Seq<(Seq<char>, Severity)> {
    (if battery_present {
        Seq::empty()
    } else {
        seq![("Failed to detect a laptop battery"@, Severity::Warning)]
    }) + (if ac_present {
        Seq::empty()
    } else {
        seq![("Failed to detect AC power source"@, Severity::Warning)]
    })
}

/// The messages and severities of log entries.
pub open spec fn log_entries(logs: Seq<Log>) -> Seq<(Seq<char>, Severity)> {
    logs.map_values(|l: Log| (l.message@, l.severity))
}

/// The daemon as it starts: in edit mode only if that was asked for and the
/// machine has a battery and the user is root; state unknown, not paused,
/// charge 100 % until read, charging unless the adapter says otherwise, the
/// battery updated only if one was found, and a warning logged for a
/// missing battery or adapter.
pub fn daemon_init(settings: Settings, config: Config, probe: Probe) -> (d: Daemon)
    ensures
        d.settings == settings_with_edit(
            settings,
            settings.edit && probe.has_battery && probe.is_root,
        ),
        d.config == config,
        d.state == State::Unknown,
        !d.paused,
        d.charge == 100,
        d.charging == match probe.ac {
            Some(b) => b,
            None => true,
        },
        d.do_update_battery == probe.battery is Some,
        d.lid_state == LidState::Unknown,
        d.last_below_cpu_usage_percent is None,
        d.temp_max == 0,
        d.timeout == 1,
        d.timeout_battery == 2,
        d.cpus@ == probe.cpus@,
        d.power == probe.power,
        d.lid == probe.lid,
        match probe.battery {
            Some(b) => d.battery == b,
            None => is_blank_battery(d.battery),
        },
        d.graph@.len() == 0,
        d.commit_hash@.len() == 0,
        log_entries(d.logger.logs@) == init_warnings(probe.battery is Some, probe.ac is Some),
        exists|mode: Seq<char>, forced: Seq<char>|
            {
                &&& (if settings.edit && probe.has_battery && probe.is_root {
                    painted(mode, "edit"@, ansi_red())
                } else {
                    painted(mode, "monitor"@, ansi_yellow())
                })
                &&& (if settings.edit != (settings.edit && probe.has_battery && probe.is_root) {
                    painted(
                        forced,
                        forced_text(
                            forced_reason_of(settings.edit, probe.has_battery, probe.is_root),
                        ),
                        ansi_red(),
                    )
                } else {
                    forced.len() == 0
                })
                &&& d.message@ == init_message(mode, settings.delay, settings.delay_battery, forced)
            },
{
    let started_as_edit = settings.edit;
    let mode = decide_mode(settings.edit, probe.has_battery, probe.is_root);
    proof {
        reveal_strlit("the device has no battery");
        reveal_strlit("acs was not run as root");
    }
    let message = format_message(
        mode.edit,
        started_as_edit,
        mode.forced_reason,
        settings.delay,
        settings.delay_battery,
    );
    let new_settings = Settings { edit: mode.edit, ..settings };
    let Probe { has_battery: _, is_root: _, battery, power, ac, lid, cpus } = probe;
    let battery_present = battery.is_some();
    let ac_present = ac.is_some();
    let mut daemon = Daemon {
        battery: match battery {
            Some(b) => b,
            None => Battery::default(),
        },
        power,
        lid,
        lid_state: LidState::Unknown,
        config,
        settings: new_settings,
        state: State::Unknown,
        logger: Logger::new(),
        cpus,
        message,
        charging: match ac {
            Some(b) => b,
            None => true,
        },
        charge: 100,
        last_below_cpu_usage_percent: None,
        graph: String::new(),
        temp_max: 0,
        commit_hash: String::new(),
        paused: false,
        do_update_battery: true,
        timeout: 1,
        timeout_battery: 2,
    };
    assert(log_entries(daemon.logger.logs@) =~= Seq::<(Seq<char>, Severity)>::empty());
    if !battery_present {
        daemon.do_update_battery = false;
        let ghost before = daemon.logger.logs@;
        daemon.logger.log("Failed to detect a laptop battery", Severity::Warning);
        proof {
            lemma_log_entries_push(before, daemon.logger.logs@);
        }
    }
    if !ac_present {
        let ghost before = daemon.logger.logs@;
        daemon.logger.log("Failed to detect AC power source", Severity::Warning);
        proof {
            lemma_log_entries_push(before, daemon.logger.logs@);
        }
    }
    assert(log_entries(daemon.logger.logs@) =~= init_warnings(battery_present, ac_present));
    daemon
}

/// Appending an entry appends its message and severity.
pub proof fn lemma_log_entries_push(before: Seq<Log>, after: Seq<Log>)
    requires
        after.len() == before.len() + 1,
        after.take(before.len() as int) == before,
    ensures
        log_entries(after) == log_entries(before).push((after.last().message@, after.last().severity)),
{
    assert forall|i: int| 0 <= i < before.len() implies after[i] == before[i] by {
        assert(after.take(before.len() as int)[i] == after[i]);
    }
    assert(log_entries(after) =~= log_entries(before).push(
        (after.last().message@, after.last().severity),
    ));
}

// ---------------------------------------------------------------------
// The running daemon
// ---------------------------------------------------------------------

/// The daemon structure which contains information about the auto clock
/// speed instance. The CPU usage, the graph's data and the last `/proc/stat`
/// timings, all floats, are kept beside it by the program that drives it.
pub struct Daemon {
    pub battery: Battery,
    pub power: Power,
    pub lid: Lid,
    pub lid_state: LidState,
    pub config: Config,
    pub settings: Settings,
    pub state: State,
    pub logger: Logger,
    pub cpus: Vec<CPU>,
    pub message: String,
    pub charging: bool,
    pub charge: i8,
    pub last_below_cpu_usage_percent: Option<Timestamp>,
    pub graph: String,
    pub temp_max: i8,
    pub commit_hash: String,
    pub paused: bool,
    pub do_update_battery: bool,
    /// Milliseconds between updates when connected to a power source.
    pub timeout: u64,
    /// Milliseconds between updates on battery.
    pub timeout_battery: u64,
}

/// How the CSV file was prepared at start.
#[derive(PartialEq, Eq, Structural, Clone, Copy, Debug)]
pub enum CsvSetup {
    /// The file was created and its header written.
    Created,
    /// The file was created but its header could not be written.
    HeaderWriteFailed,
    /// The file could not be created.
    CreateFailed,
    /// The file was there already; rows are appended to it.
    AlreadyExists,
}

/// The file size, in bytes, at which CSV logging stops: the cutoff in MB
/// times a million, as a 64-bit size (a negative cutoff wraps to a huge
/// size).
pub open spec fn csv_size_limit(cutoff_mb: i32) -> u64 {
    (cutoff_mb * 1_000_000) as u64
}

/// What the daemon logs about the preparation of the CSV file.
pub open spec fn csv_setup_log(outcome: CsvSetup, csv_file: Seq<char>) -> Seq<(Seq<char>, Severity)> {
    match outcome {
        CsvSetup::Created => Seq::empty(),
        CsvSetup::HeaderWriteFailed => seq![("Could not write to CSV file."@, Severity::Warning)],
        CsvSetup::CreateFailed => seq![
            ("Could not create file. Turning csv log mode off and continuing."@, Severity::Warning),
        ],
        CsvSetup::AlreadyExists => seq![
            (
                "File \""@ + csv_file + "\" already exists, continuing in append mode."@,
                Severity::Warning,
            ),
        ],
    }
}

/// The response the daemon gives to a request, if any, and whether it is
/// paused after it.
pub open spec fn serve(paused: bool, p: PacketView) -> (bool, Option<PacketView>) {
    match p {
        PacketView::Hello(hi) => (paused, Some(PacketView::HelloResponse(hi, 0))),
        PacketView::DaemonDisableRequest => if paused {
            (true, Some(PacketView::DaemonDisableResponse(false)))
        } else {
            (true, Some(PacketView::DaemonDisableResponse(true)))
        },
        PacketView::DaemonEnableRequest => if !paused {
            (false, Some(PacketView::DaemonEnableResponse(false)))
        } else {
            (false, Some(PacketView::DaemonEnableResponse(true)))
        },
        PacketView::DaemonStatusRequest => (paused, Some(PacketView::DaemonStatusResponse(!paused))),
        _ => (paused, None),
    }
}

/// The message the daemon logs on a request, if any.
pub open spec fn serve_log(paused: bool, p: PacketView) -> Option<Seq<char>> {
    match p {
        PacketView::Hello(hi) => Some("Received hello packet: "@ + hi),
        PacketView::DaemonDisableRequest => if paused {
            None
        } else {
            Some("Daemon has been disabled by a client"@)
        },
        PacketView::DaemonEnableRequest => if !paused {
            None
        } else {
            Some("Daemon has been enabled by a client"@)
        },
        _ => None,
    }
}

/// What the daemon does about a governor other than the three it knows:
/// `None` when it is available (then it logs that it is not supported yet),
/// else the text printed as an error.
pub open spec fn other_governor_text(gov: Seq<char>, available: Option<Seq<Seq<char>>>) -> Option<
    Seq<char>,
> {
    match available {
        Some(list) => if list.contains(gov) {
            None
        } else {
            Some("Governor not available"@)
        },
        None => Some("Error checking \""@ + gov + "\" governor"@),
    }
}

/// The part of the monitor's screen below the turbo line.
pub open spec fn postprint_text(
    graph: GraphType,
    plot: Seq<char>,
    commit: bool,
    commit_hash: Seq<char>,
    verbose: bool,
    log_lines: Seq<char>,
) -> Seq<char> {
    (if graph != GraphType::Hidden {
        "Graphing: "@ + graph_type_name(graph)
    } else {
        Seq::<char>::empty()
    }) + "\n"@ + (if graph != GraphType::Hidden {
        plot
    } else {
        Seq::<char>::empty()
    }) + "\n\n"@ + (if commit {
        "Commit hash: "@ + commit_hash
    } else {
        Seq::<char>::empty()
    }) + "\n\n"@ + "ctrl+c to stop running"@ + "\n\n"@ + (if verbose {
        log_lines
    } else {
        Seq::<char>::empty()
    })
}

/// The governor that `set_govs` applies for a name: the three it knows, or
/// `None` for any other.
pub open spec fn gov_plan(gov: Seq<char>) -> Option<Gov> {
    if gov == "performance"@ {
        Some(Gov::Performance)
    } else if gov == "powersave"@ {
        Some(Gov::Powersave)
    } else if gov == "schedutil"@ {
        Some(Gov::Schedutil)
    } else {
        None
    }
}

/// The governor that `set_govs` applies to every core for a name; `None`
/// for a name other than `performance`, `powersave` and `schedutil`.
pub fn govs_plan(gov: &str) -> (g: Option<Gov>)
    ensures
        g == gov_plan(gov@),
{
    let v = chars_of(gov);
    if chars_eq(&v, &chars_of("performance")) {
        Some(Gov::Performance)
    } else if chars_eq(&v, &chars_of("powersave")) {
        Some(Gov::Powersave)
    } else if chars_eq(&v, &chars_of("schedutil")) {
        Some(Gov::Schedutil)
    } else {
        None
    }
}

impl Daemon {
    /// Appends an entry to the daemon's log, changing nothing else.
    pub fn log_entry(&mut self, msg: &str, sev: Severity)
        ensures
            log_entries(final(self).logger.logs@) == log_entries(old(self).logger.logs@).push(
                (msg@, sev),
            ),
            *final(self) == (Daemon { logger: final(self).logger, ..*old(self) }),
    {
        let ghost before = self.logger.logs@;
        self.logger.log(msg, sev);
        proof {
            lemma_log_entries_push(before, self.logger.logs@);
        }
    }

    /// Returns the wanted `State` of the machine based on a set of rules
    /// (see `chosen_state`), first recording when the usage went above the
    /// threshold: `usage_above` and `usage_at_or_below` are the usage
    /// compared with `config.high_cpu_threshold`, `now` the time of the
    /// reading.
    pub fn run_state_machine(&mut self, usage_above: bool, usage_at_or_below: bool, now: Timestamp)
        -> (s: State)
        requires
            old(self).last_below_cpu_usage_percent matches Some(l) ==> timestamp_nanos(l)
                <= timestamp_nanos(now),
        ensures
            final(self).last_below_cpu_usage_percent == next_last_below(
                old(self).config.active_rules@,
                old(self).last_below_cpu_usage_percent,
                usage_above,
                usage_at_or_below,
                now,
            ),
            s == chosen_state(
                old(self).config.active_rules@,
                usage_held_high(
                    old(self).config.active_rules@,
                    final(self).last_below_cpu_usage_percent,
                    now,
                ),
                old(self).lid_state,
                old(self).charging,
                old(self).charge,
                old(self).config.powersave_under,
            ),
            *final(self) == (Daemon {
                last_below_cpu_usage_percent: final(self).last_below_cpu_usage_percent,
                ..*old(self)
            }),
    {
        let mut state = State::Normal;
        if rules_contain(&self.config.active_rules, State::CpuUsageHigh) {
            if usage_above && self.last_below_cpu_usage_percent.is_none() {
                self.last_below_cpu_usage_percent = Some(now);
            }
            if usage_at_or_below {
                self.last_below_cpu_usage_percent = None;
            }
            match self.last_below_cpu_usage_percent {
                Some(last) => {
                    if now.as_nanos() - last.as_nanos() >= 15_000_000_000 {
                        state = State::CpuUsageHigh;
                    }
                },
                None => {},
            }
        }
        if rules_contain(&self.config.active_rules, State::LidClosed) && self.lid_state
            == LidState::Closed {
            state = State::LidClosed;
        }
        if rules_contain(&self.config.active_rules, State::Charging) && self.charging {
            state = State::Charging;
        }
        if rules_contain(&self.config.active_rules, State::BatteryLow) && self.charge
            < self.config.powersave_under {
            state = State::BatteryLow;
        }
        state
    }

    /// The decision of one edit step: when the daemon is not paused, runs
    /// the rules, and when the state they choose differs from the current
    /// one, logs the change and returns the new state, whose governor the
    /// driver then sets on every core (and only then takes the state on).
    /// A paused daemon changes nothing.
    pub fn edit_decision(&mut self, usage_above: bool, usage_at_or_below: bool, now: Timestamp)
        -> (change: Option<State>)
        requires
            !old(self).paused ==> (old(self).last_below_cpu_usage_percent matches Some(l)
                ==> timestamp_nanos(l) <= timestamp_nanos(now)),
        ensures
            old(self).paused ==> change is None && *final(self) == *old(self),
            !old(self).paused ==> {
                let last = next_last_below(
                    old(self).config.active_rules@,
                    old(self).last_below_cpu_usage_percent,
                    usage_above,
                    usage_at_or_below,
                    now,
                );
                let s = chosen_state(
                    old(self).config.active_rules@,
                    usage_held_high(old(self).config.active_rules@, last, now),
                    old(self).lid_state,
                    old(self).charging,
                    old(self).charge,
                    old(self).config.powersave_under,
                );
                &&& final(self).last_below_cpu_usage_percent == last
                &&& change == (if s != old(self).state {
                    Some(s)
                } else {
                    None
                })
                &&& *final(self) == (Daemon {
                    last_below_cpu_usage_percent: last,
                    logger: final(self).logger,
                    ..*old(self)
                })
                &&& log_entries(final(self).logger.logs@) == if s != old(self).state {
                    log_entries(old(self).logger.logs@).push(
                        (
                            "State changed: "@ + state_name(old(self).state) + " -> "@
                                + state_name(s),
                            Severity::Log,
                        ),
                    )
                } else {
                    log_entries(old(self).logger.logs@)
                }
            },
    {
        if self.paused {
            return None;
        }
        let state = self.run_state_machine(usage_above, usage_at_or_below, now);
        if self.state != state {
            let a = concat("State changed: ", state_debug_name(&self.state));
            let b = concat(a.as_str(), " -> ");
            let msg = concat(b.as_str(), state_debug_name(&state));
            self.log_entry(msg.as_str(), Severity::Log);
            Some(state)
        } else {
            None
        }
    }

    /// Handles a request from a client: answers a hello, pauses or resumes
    /// the daemon (answering whether that changed anything), or reports
    /// whether it runs; logs what it did. Other packets get no answer.
    pub fn handle_packet(&mut self, packet: &Packet) -> (response: Option<Packet>)
        requires
            !(packet is DaemonStatusResponse),
        ensures
            final(self).paused == serve(old(self).paused, packet@).0,
            match response {
                Some(r) => serve(old(self).paused, packet@).1 == Some(r@),
                None => serve(old(self).paused, packet@).1 is None,
            },
            log_entries(final(self).logger.logs@) == match serve_log(old(self).paused, packet@) {
                Some(m) => log_entries(old(self).logger.logs@).push((m, Severity::Log)),
                None => log_entries(old(self).logger.logs@),
            },
            *final(self) == (Daemon {
                paused: final(self).paused,
                logger: final(self).logger,
                ..*old(self)
            }),
    {
        match packet {
            Packet::Hello(hi) => {
                let msg = concat("Received hello packet: ", hi.as_str());
                self.log_entry(msg.as_str(), Severity::Log);
                Some(Packet::HelloResponse(hi.clone(), 0))
            },
            Packet::DaemonDisableRequest() => {
                if self.paused {
                    Some(Packet::DaemonDisableResponse(false))
                } else {
                    self.log_entry("Daemon has been disabled by a client", Severity::Log);
                    self.paused = true;
                    Some(Packet::DaemonDisableResponse(true))
                }
            },
            Packet::DaemonEnableRequest() => {
                if !self.paused {
                    Some(Packet::DaemonEnableResponse(false))
                } else {
                    self.log_entry("Daemon has been enabled by a client", Severity::Log);
                    self.paused = false;
                    Some(Packet::DaemonEnableResponse(true))
                }
            },
            Packet::DaemonStatusRequest() => Some(Packet::DaemonStatusResponse(!self.paused)),
            _ => None,
        }
    }

    /// After `set_govs` found a governor other than the three it applies:
    /// `available` is the list of available governors, if it could be read.
    /// Logs that the governor is not supported yet when it is available;
    /// otherwise returns the error text to print.
    pub fn other_governor(&mut self, gov: &str, available: Option<Vec<String>>) -> (err: Option<
        String,
    >)
        ensures
            match err {
                Some(t) => other_governor_text(
                    gov@,
                    match available {
                        Some(l) => Some(views(l@)),
                        None => None,
                    },
                ) == Some(t@),
                None => other_governor_text(
                    gov@,
                    match available {
                        Some(l) => Some(views(l@)),
                        None => None,
                    },
                ) is None,
            },
            log_entries(final(self).logger.logs@) == if err is None {
                log_entries(old(self).logger.logs@).push(
                    ("Other governors not supported yet"@, Severity::Log),
                )
            } else {
                log_entries(old(self).logger.logs@)
            },
            *final(self) == (Daemon { logger: final(self).logger, ..*old(self) }),
    {
        match available {
            Some(list) => {
                let g = chars_of(gov);
                let mut i: usize = 0;
                let mut found = false;
                while i < list.len()
                    invariant
                        i <= list.len(),
                        g@ == gov@,
                        found == views(list@).take(i as int).contains(gov@),
                    decreases list.len() - i,
                {
                    let hit = chars_eq(&g, &chars_of(list[i].as_str()));
                    proof {
                        let t = views(list@).take(i + 1);
                        assert(t =~= views(list@).take(i as int).push(list@[i as int]@));
                        if views(list@).take(i as int).contains(gov@) {
                            let k = choose|k: int|
                                0 <= k < i && views(list@).take(i as int)[k] == gov@;
                            assert(t[k] == gov@);
                        }
                        if hit {
                            assert(t[i as int] == gov@);
                        }
                        if t.contains(gov@) {
                            let k = choose|k: int| 0 <= k < t.len() && t[k] == gov@;
                            if k < i {
                                assert(views(list@).take(i as int)[k] == gov@);
                            }
                        }
                    }
                    found = found || hit;
                    i = i + 1;
                }
                assert(views(list@).take(list.len() as int) =~= views(list@));
                if found {
                    self.log_entry("Other governors not supported yet", Severity::Log);
                    None
                } else {
                    Some(String::from_str("Governor not available"))
                }
            },
            None => {
                let a = concat("Error checking \"", gov);
                Some(concat(a.as_str(), "\" governor"))
            },
        }
    }

    /// Prepares the daemon for its loop: the commit hash (when asked for),
    /// the two delays, the CSV file's preparation (when logging to CSV), and
    /// a warning when running under WSL or in docker.
    pub fn init(
        &mut self,
        git_hash: &str,
        csv: Option<CsvSetup>,
        inside_wsl: bool,
        inside_docker: bool,
    )
        ensures
            final(self).commit_hash@ == if old(self).settings.commit {
                git_hash@
            } else {
                old(self).commit_hash@
            },
            final(self).timeout == old(self).settings.delay,
            final(self).timeout_battery == old(self).settings.delay_battery,
            final(self).settings == (Settings {
                log_csv: old(self).settings.log_csv && !(old(self).settings.log_csv && csv == Some(
                    CsvSetup::CreateFailed,
                )),
                ..old(self).settings
            }),
            log_entries(final(self).logger.logs@) == log_entries(old(self).logger.logs@) + (
            if old(self).settings.log_csv && csv is Some {
                csv_setup_log(csv->0, old(self).settings.csv_file@)
            } else {
                Seq::empty()
            }) + (if inside_wsl {
                seq![(wsl_text(), Severity::Warning)]
            } else {
                Seq::empty()
            }) + (if inside_docker {
                seq![(docker_text(), Severity::Warning)]
            } else {
                Seq::empty()
            }),
            *final(self) == (Daemon {
                commit_hash: final(self).commit_hash,
                timeout: final(self).timeout,
                timeout_battery: final(self).timeout_battery,
                settings: final(self).settings,
                logger: final(self).logger,
                ..*old(self)
            }),
    {
        if self.settings.commit {
            self.commit_hash = String::from_str(git_hash);
        }
        self.timeout_battery = self.settings.delay_battery;
        self.timeout = self.settings.delay;
        self.prepare_csv(csv);
        self.warn_environment(inside_wsl, inside_docker);
    }

    /// The CSV part of `init`.
    fn prepare_csv(&mut self, csv: Option<CsvSetup>)
        ensures
            log_entries(final(self).logger.logs@) == log_entries(old(self).logger.logs@) + (
            if old(self).settings.log_csv && csv is Some {
                csv_setup_log(csv->0, old(self).settings.csv_file@)
            } else {
                Seq::empty()
            }),
            *final(self) == (Daemon {
                settings: Settings {
                    log_csv: old(self).settings.log_csv && !(old(self).settings.log_csv && csv
                        == Some(CsvSetup::CreateFailed)),
                    ..old(self).settings
                },
                logger: final(self).logger,
                ..*old(self)
            }),
    {
        if self.settings.log_csv {
            match csv {
                Some(outcome) => self.setup_csv_logging(outcome),
                None => {
                    assert(log_entries(self.logger.logs@) =~= log_entries(self.logger.logs@)
                        + Seq::<(Seq<char>, Severity)>::empty());
                },
            }
        } else {
            assert(log_entries(self.logger.logs@) =~= log_entries(self.logger.logs@) + Seq::<
                (Seq<char>, Severity),
            >::empty());
        }
    }

    /// The warnings of `init` about the environment.
    fn warn_environment(&mut self, inside_wsl: bool, inside_docker: bool)
        ensures
            log_entries(final(self).logger.logs@) == log_entries(old(self).logger.logs@) + (
            if inside_wsl {
                seq![(wsl_text(), Severity::Warning)]
            } else {
                Seq::empty()
            }) + (if inside_docker {
                seq![(docker_text(), Severity::Warning)]
            } else {
                Seq::empty()
            }),
            *final(self) == (Daemon { logger: final(self).logger, ..*old(self) }),
    {
        let ghost start = log_entries(self.logger.logs@);
        if inside_wsl {
            let m = inside_wsl_message();
            self.log_entry(m.as_str(), Severity::Warning);
        }
        let ghost after_wsl = log_entries(self.logger.logs@);
        assert(after_wsl =~= start + if inside_wsl {
            seq![(wsl_text(), Severity::Warning)]
        } else {
            Seq::empty()
        });
        if inside_docker {
            let m = inside_docker_message();
            self.log_entry(m.as_str(), Severity::Warning);
        }
        assert(log_entries(self.logger.logs@) =~= after_wsl + if inside_docker {
            seq![(docker_text(), Severity::Warning)]
        } else {
            Seq::empty()
        });
    }

    /// Logs how the CSV file was prepared: a failed header write, or a file
    /// that could not be created (which turns CSV logging off), or a file
    /// that is appended to.
    pub fn setup_csv_logging(&mut self, outcome: CsvSetup)
        ensures
            *final(self) == (Daemon {
                logger: final(self).logger,
                settings: Settings {
                    log_csv: old(self).settings.log_csv && outcome != CsvSetup::CreateFailed,
                    ..old(self).settings
                },
                ..*old(self)
            }),
            log_entries(final(self).logger.logs@) == log_entries(old(self).logger.logs@)
                + csv_setup_log(outcome, old(self).settings.csv_file@),
    {
        match outcome {
            CsvSetup::Created => {},
            CsvSetup::HeaderWriteFailed => {
                self.log_entry("Could not write to CSV file.", Severity::Warning);
            },
            CsvSetup::CreateFailed => {
                self.log_entry(
                    "Could not create file. Turning csv log mode off and continuing.",
                    Severity::Warning,
                );
                self.settings.log_csv = false;
            },
            CsvSetup::AlreadyExists => {
                let a = concat("File \"", self.settings.csv_file.as_str());
                let m = concat(a.as_str(), "\" already exists, continuing in append mode.");
                self.log_entry(m.as_str(), Severity::Warning);
            },
        }
    }

    /// Whether a row may be written to a CSV file of `file_len` bytes: while
    /// the file is under the cutoff. At the cutoff, logs that the maximum
    /// was reached and turns CSV logging off.
    pub fn csv_write_decision(&mut self, file_len: u64) -> (write: bool)
        requires
            -2147 <= old(self).settings.log_size_cutoff <= 2147,
        ensures
            write == (file_len < csv_size_limit(old(self).settings.log_size_cutoff)),
            *final(self) == (Daemon {
                logger: final(self).logger,
                settings: Settings { log_csv: old(self).settings.log_csv && write, ..old(self).settings },
                ..*old(self)
            }),
            log_entries(final(self).logger.logs@) == if write {
                log_entries(old(self).logger.logs@)
            } else {
                log_entries(old(self).logger.logs@).push(
                    (
                        "Max log file size reached of "@ + dec_int(
                            old(self).settings.log_size_cutoff as int,
                        ) + "MB"@,
                        Severity::Warning,
                    ),
                )
            },
    {
        let limit: u64 = (self.settings.log_size_cutoff * 1_000_000) as u64;
        if file_len < limit {
            true
        } else {
            let a = concat("Max log file size reached of ", fmt_i64(self.settings.log_size_cutoff as i64).as_str());
            let m = concat(a.as_str(), "MB");
            self.log_entry(m.as_str(), Severity::Warning);
            self.settings.log_csv = false;
            false
        }
    }

    /// Logs that the CSV file could not be opened to append to it, and turns
    /// CSV logging off.
    pub fn csv_open_failed(&mut self)
        ensures
            log_entries(final(self).logger.logs@) == log_entries(old(self).logger.logs@).push(
                (
                    "Could not open CSV file. Turning csv log mode off and continuing."@,
                    Severity::Warning,
                ),
            ),
            *final(self) == (Daemon {
                logger: final(self).logger,
                settings: Settings { log_csv: false, ..old(self).settings },
                ..*old(self)
            }),
    {
        self.log_entry(
            "Could not open CSV file. Turning csv log mode off and continuing.",
            Severity::Warning,
        );
        self.settings.log_csv = false;
    }

    /// After an update of the battery, with its outcome and the text of its
    /// error: an error other than a missing battery stops the battery's
    /// updates and is logged; anything else changes nothing.
    pub fn battery_updated(&mut self, outcome: &Result<(), Error>, error_text: &str)
        ensures
            ({
                let stop = old(self).do_update_battery && (outcome matches Err(e) && !(e is HdwNotFound));
                &&& final(self).do_update_battery == (old(self).do_update_battery && !stop)
                &&& log_entries(final(self).logger.logs@) == if stop {
                    log_entries(old(self).logger.logs@).push(
                        ("Battery error: "@ + error_text@, Severity::Error),
                    )
                } else {
                    log_entries(old(self).logger.logs@)
                }
                &&& *final(self) == (Daemon {
                    do_update_battery: final(self).do_update_battery,
                    logger: final(self).logger,
                    ..*old(self)
                })
            }),
    {
        if self.do_update_battery {
            match outcome {
                Err(Error::HdwNotFound) => {},
                Err(_) => {
                    self.do_update_battery = false;
                    let msg = concat("Battery error: ", error_text);
                    self.log_entry(msg.as_str(), Severity::Error);
                },
                Ok(_) => {},
            }
        }
    }

    /// Logs that a row could not be written to the CSV file.
    pub fn csv_write_failed(&mut self)
        ensures
            log_entries(final(self).logger.logs@) == log_entries(old(self).logger.logs@).push(
                ("Could not write to CSV file."@, Severity::Warning),
            ),
            *final(self) == (Daemon { logger: final(self).logger, ..*old(self) }),
    {
        self.log_entry("Could not write to CSV file.", Severity::Warning);
    }

    /// Records the highest core temperature, in degrees (the kernel reports
    /// millidegrees), as an `i8`.
    pub fn update_temp_max(&mut self)
        ensures
            final(self).temp_max == (highest_temp(old(self).cpus@) / 1000) as i8,
            *final(self) == (Daemon { temp_max: final(self).temp_max, ..*old(self) }),
    {
        let t = get_highest_temp(&self.cpus);
        proof {
            lemma_highest_temp_bounds(self.cpus@);
        }
        self.temp_max = (t / 1000) as i8;
    }

    /// Serves one line that a client sent: a line that is no packet is
    /// logged as an error and gets no answer; a packet is handled as
    /// `handle_packet` does.
    pub fn serve_line(&mut self, line: &str) -> (response: Option<Packet>)
        requires
            !(parse_packet_spec(line@) matches Some(PacketView::DaemonStatusResponse(_))),
        ensures
            match parse_packet_spec(line@) {
                Some(p) => {
                    &&& final(self).paused == serve(old(self).paused, p).0
                    &&& match response {
                        Some(r) => serve(old(self).paused, p).1 == Some(r@),
                        None => serve(old(self).paused, p).1 is None,
                    }
                    &&& log_entries(final(self).logger.logs@) == match serve_log(
                        old(self).paused,
                        p,
                    ) {
                        Some(m) => log_entries(old(self).logger.logs@).push((m, Severity::Log)),
                        None => log_entries(old(self).logger.logs@),
                    }
                },
                None => {
                    &&& response is None
                    &&& final(self).paused == old(self).paused
                    &&& log_entries(final(self).logger.logs@) == log_entries(
                        old(self).logger.logs@,
                    ).push(
                        (
                            "Received malfomed packet: Packet parse error occured"@,
                            Severity::Error,
                        ),
                    )
                },
            },
            *final(self) == (Daemon {
                paused: final(self).paused,
                logger: final(self).logger,
                ..*old(self)
            }),
    {
        match parse_packet(line) {
            Ok(p) => self.handle_packet(&p),
            Err(e) => {
                let msg = concat("Received malfomed packet: ", e.message());
                proof {
                    reveal_strlit("Received malfomed packet: ");
                    reveal_strlit("Packet parse error occured");
                    reveal_strlit("Received malfomed packet: Packet parse error occured");
                    assert(msg@ =~= "Received malfomed packet: Packet parse error occured"@);
                }
                self.log_entry(msg.as_str(), Severity::Error);
                None
            },
        }
    }

    /// The part of the monitor's screen above the turbo line: the greeting,
    /// the (painted) title, the rows of the cores, the (painted) battery
    /// status and the battery condition.
    pub fn preprint_render(&self, title: &str, cpu_rows: &str, battery_status: &str) -> (s:
        String)
        ensures
            s@ == self.message@ + "\n"@ + title@ + cpu_rows@ + "\n"@ + battery_status@ + "\n"@
                + "Condition: "@ + dec_int(self.battery.condition as int) + "%"@ + "\n"@,
    {
        let a = concat(self.message.as_str(), "\n");
        let b = concat(a.as_str(), title);
        let c = concat(b.as_str(), cpu_rows);
        let d = concat(c.as_str(), "\n");
        let e = concat(d.as_str(), battery_status);
        let f = concat(e.as_str(), "\n");
        let g = concat(f.as_str(), "Condition: ");
        let h = concat(g.as_str(), fmt_i64(self.battery.condition as i64).as_str());
        let i = concat(h.as_str(), "%");
        let r = concat(i.as_str(), "\n");
        assert(r@ =~= self.message@ + "\n"@ + title@ + cpu_rows@ + "\n"@ + battery_status@
            + "\n"@ + "Condition: "@ + dec_int(self.battery.condition as int) + "%"@ + "\n"@);
        r
    }

    /// The part of the monitor's screen below the turbo line: the graph and
    /// its kind (unless hidden), the commit hash (when asked for), how to
    /// stop, and the log (`log_lines`, each entry rendered on a line) when
    /// verbose.
    pub fn postprint_render(&self, log_lines: &str) -> (s: String)
        ensures
            s@ == postprint_text(
                self.settings.graph,
                self.graph@,
                self.settings.commit,
                self.commit_hash@,
                self.settings.verbose,
                log_lines@,
            ),
    {
        let shown = self.settings.graph != GraphType::Hidden;
        let graph_type = if shown {
            concat("Graphing: ", self.settings.graph.name())
        } else {
            String::new()
        };
        let graph = if shown {
            self.graph.clone()
        } else {
            String::new()
        };
        let commit = if self.settings.commit {
            concat("Commit hash: ", self.commit_hash.as_str())
        } else {
            String::new()
        };
        let logs = if self.settings.verbose {
            String::from_str(log_lines)
        } else {
            String::new()
        };
        let a = concat(graph_type.as_str(), "\n");
        let b = concat(a.as_str(), graph.as_str());
        let c = concat(b.as_str(), "\n\n");
        let d = concat(c.as_str(), commit.as_str());
        let e = concat(d.as_str(), "\n\n");
        let f = concat(e.as_str(), "ctrl+c to stop running");
        let g = concat(f.as_str(), "\n\n");
        let r = concat(g.as_str(), logs.as_str());
        assert(r@ =~= postprint_text(
            self.settings.graph,
            self.graph@,
            self.settings.commit,
            self.commit_hash@,
            self.settings.verbose,
            log_lines@,
        ));
        r
    }

    /// The delay until the next update: the charging delay while charging,
    /// else the battery delay.
    pub fn effective_timeout(&self) -> (t: u64)
        ensures
            t == if self.charging {
                self.timeout
            } else {
                self.timeout_battery
            },
    {
        if self.charging {
            self.timeout
        } else {
            self.timeout_battery
        }
    }
}


// ---------------------------------------------------------------------
// Laws of the rules and of the pause protocol
// ---------------------------------------------------------------------

/// A low battery wins over everything: with the battery rule active and the
/// charge under the threshold, the rules choose `BatteryLow`, and so
/// `powersave`, whether or not the machine is charging, its lid closed or
/// its usage high.
pub proof fn law_low_battery_wins(
    rules: Seq<State>,
    held_high: bool,
    lid: LidState,
    charging: bool,
    charge: i8,
    powersave_under: i8,
)
    requires
        rules.contains(State::BatteryLow),
        charge < powersave_under,
    ensures
        chosen_state(rules, held_high, lid, charging, charge, powersave_under) == State::BatteryLow,
        governor_of(chosen_state(rules, held_high, lid, charging, charge, powersave_under))
            == "powersave"@,
{
}

/// A closed lid wins over high usage: with the lid rule active and the lid
/// closed, unless the battery is low or the machine is charging (with those
/// rules active), the rules choose `LidClosed`, and so `powersave`, however
/// long the usage has been high.
pub proof fn law_lid_closed_wins(
    rules: Seq<State>,
    held_high: bool,
    charging: bool,
    charge: i8,
    powersave_under: i8,
)
    requires
        rules.contains(State::LidClosed),
        !(rules.contains(State::BatteryLow) && charge < powersave_under),
        !(rules.contains(State::Charging) && charging),
    ensures
        chosen_state(rules, held_high, LidState::Closed, charging, charge, powersave_under)
            == State::LidClosed,
        governor_of(chosen_state(rules, held_high, LidState::Closed, charging, charge, powersave_under))
            == "powersave"@,
{
}

/// High usage chooses `CpuUsageHigh` only when no other rule applies: the
/// usage has been high for the span, the battery is not low, the machine
/// is not charging and the lid is not closed (for each rule that is
/// active).
pub proof fn law_usage_rule_last(
    rules: Seq<State>,
    held_high: bool,
    lid: LidState,
    charging: bool,
    charge: i8,
    powersave_under: i8,
)
    ensures
        chosen_state(rules, held_high, lid, charging, charge, powersave_under)
            == State::CpuUsageHigh <==> {
            &&& held_high
            &&& !(rules.contains(State::BatteryLow) && charge < powersave_under)
            &&& !(rules.contains(State::Charging) && charging)
            &&& !(rules.contains(State::LidClosed) && lid == LidState::Closed)
        },
{
}

/// The governor set for a governor's name is the one of that name: for each
/// name that `set_govs` applies, the planned governor's kernel name is the
/// name asked for, so it is what is written to `scaling_governor`.
pub proof fn law_planned_governor_named(g: Seq<char>)
    ensures
        gov_plan(g) matches Some(x) ==> gov_name(x) == g,
        gov_plan(g) is None ==> g != "performance"@ && g != "powersave"@ && g != "schedutil"@,
{
}

/// The state's governor is the one the governor plan picks for its name:
/// a state change sets `performance` or `powersave` on the cores.
pub proof fn law_state_governor_planned(s: State)
    ensures
        gov_plan(governor_of(s)) matches Some(x) && gov_name(x) == governor_of(s),
{
}

/// While charging (with the charger rule active) the rules choose
/// `Charging`, and so `performance`, unless the battery is low.
pub proof fn law_charging_means_performance(
    rules: Seq<State>,
    held_high: bool,
    lid: LidState,
    charge: i8,
    powersave_under: i8,
)
    requires
        rules.contains(State::Charging),
        !(rules.contains(State::BatteryLow) && charge < powersave_under),
    ensures
        chosen_state(rules, held_high, lid, true, charge, powersave_under) == State::Charging,
        governor_of(chosen_state(rules, held_high, lid, true, charge, powersave_under))
            == "performance"@,
{
}

/// With no rule active the machine is always in the `Normal` state.
pub proof fn law_no_rules_normal(
    last: Option<Timestamp>,
    now: Timestamp,
    lid: LidState,
    charging: bool,
    charge: i8,
    powersave_under: i8,
)
    ensures
        chosen_state(
            Seq::<State>::empty(),
            usage_held_high(Seq::<State>::empty(), last, now),
            lid,
            charging,
            charge,
            powersave_under,
        ) == State::Normal,
{
}

/// Only the `Charging` and `CpuUsageHigh` states call for `performance`;
/// every other state calls for `powersave`.
pub proof fn law_performance_states(s: State)
    ensures
        (governor_of(s) == "performance"@) <==> (s == State::Charging || s == State::CpuUsageHigh),
        (governor_of(s) == "powersave"@) <==> !(s == State::Charging || s == State::CpuUsageHigh),
{
    reveal_strlit("performance");
    reveal_strlit("powersave");
    assert("performance"@[0] != "powersave"@[1]);
    assert("performance"@ != "powersave"@);
}

/// High usage must last: the first reading above the threshold starts the
/// clock and does not yet make the usage rule apply.
pub proof fn law_high_usage_starts_clock(rules: Seq<State>, now: Timestamp)
    requires
        rules.contains(State::CpuUsageHigh),
    ensures
        next_last_below(rules, None, true, false, now) == Some(now),
        !usage_held_high(rules, next_last_below(rules, None, true, false, now), now),
{
}

/// A reading at or below the threshold stops the clock: the usage rule no
/// longer applies.
pub proof fn law_low_usage_resets(rules: Seq<State>, last: Option<Timestamp>, above: bool, now: Timestamp)
    requires
        rules.contains(State::CpuUsageHigh),
    ensures
        next_last_below(rules, last, above, true, now) is None,
        !usage_held_high(rules, next_last_below(rules, last, above, true, now), now),
{
}

/// Usage that has stayed above the threshold for 15 seconds makes the usage
/// rule apply, and keeps its start.
pub proof fn law_high_usage_held(rules: Seq<State>, start: Timestamp, now: Timestamp)
    requires
        rules.contains(State::CpuUsageHigh),
        timestamp_nanos(now) - timestamp_nanos(start) >= high_usage_span(),
    ensures
        next_last_below(rules, Some(start), true, false, now) == Some(start),
        usage_held_high(rules, next_last_below(rules, Some(start), true, false, now), now),
{
}

/// The pause protocol: a disable request leaves the daemon paused and
/// answers whether it was running; an enable request leaves it running and
/// answers whether it was paused; a status request then reports the new
/// state; no other packet pauses or resumes it.
pub proof fn law_pause_protocol(paused: bool, other: PacketView)
    requires
        !(other is DaemonDisableRequest),
        !(other is DaemonEnableRequest),
    ensures
        serve(paused, PacketView::DaemonDisableRequest) == (
            true,
            Some(PacketView::DaemonDisableResponse(!paused)),
        ),
        serve(paused, PacketView::DaemonEnableRequest) == (
            false,
            Some(PacketView::DaemonEnableResponse(paused)),
        ),
        serve(serve(paused, PacketView::DaemonDisableRequest).0, PacketView::DaemonStatusRequest).1
            == Some(PacketView::DaemonStatusResponse(false)),
        serve(serve(paused, PacketView::DaemonEnableRequest).0, PacketView::DaemonStatusRequest).1
            == Some(PacketView::DaemonStatusResponse(true)),
        serve(paused, other).0 == paused,
{
}

/// Disabling twice: the second request changes nothing and says so.
pub proof fn law_disable_idempotent(paused: bool)
    ensures
        serve(serve(paused, PacketView::DaemonDisableRequest).0, PacketView::DaemonDisableRequest)
            == (true, Some(PacketView::DaemonDisableResponse(false))),
        serve(serve(paused, PacketView::DaemonEnableRequest).0, PacketView::DaemonEnableRequest)
            == (false, Some(PacketView::DaemonEnableResponse(false))),
{
}

} // verus!
