use autoclockspeed::args::monitor_settings;
use autoclockspeed::args::run_settings;
use autoclockspeed::display::battery_status_cell;
use autoclockspeed::display::battery_status_line;
use autoclockspeed::display::turbo_animation_frame;
use autoclockspeed::display::turbo_animation_plan;
use autoclockspeed::display::Paint;
use autoclockspeed::interactive::not_found_message;
use autoclockspeed::interactive::read_command;
use autoclockspeed::interactive::Command;
use autoclockspeed::network::hook_step;
use autoclockspeed::network::HookStep;
use autoclockspeed::power::battery::BatteryStatus;
use autoclockspeed::config::default_config;
use autoclockspeed::config::get_config;
use autoclockspeed::config::rule_from_name;
use autoclockspeed::config::SafeConfig;
use autoclockspeed::cpu::WritableValue;
use autoclockspeed::cpu::CPU;
use autoclockspeed::csv::CSVWriter;
use autoclockspeed::daemon::compose_init_message;
use autoclockspeed::daemon::daemon_init;
use autoclockspeed::daemon::decide_mode;
use autoclockspeed::daemon::format_message;
use autoclockspeed::daemon::get_governor;
use autoclockspeed::daemon::govs_plan;
use autoclockspeed::daemon::rules_contain;
use autoclockspeed::daemon::state_debug_name;
use autoclockspeed::daemon::CsvSetup;
use autoclockspeed::daemon::Daemon;
use autoclockspeed::daemon::Probe;
use autoclockspeed::daemon::State;
use autoclockspeed::display::print_available_governors;
use autoclockspeed::display::print_bat_cond;
use autoclockspeed::display::print_cpu_governors;
use autoclockspeed::display::print_cpu_speeds;
use autoclockspeed::display::print_cpu_temp;
use autoclockspeed::display::print_cpus;
use autoclockspeed::display::print_power;
use autoclockspeed::display::print_turbo;
use autoclockspeed::display::turbo_status_line;
use autoclockspeed::display::turbo_y_pos;
use autoclockspeed::gov::Gov;
use autoclockspeed::graph::get_graph_type;
use autoclockspeed::graph::graph_type_from_lowercase;
use autoclockspeed::graph::GraphType;
use autoclockspeed::interface::DaemonControl;
use autoclockspeed::logger::Interface;
use autoclockspeed::logger::Log;
use autoclockspeed::logger::Logger;
use autoclockspeed::logger::Severity;
use autoclockspeed::logger::Timestamp;
use autoclockspeed::network::parse_packet;
use autoclockspeed::network::Packet;
use autoclockspeed::power::battery::battery_path;
use autoclockspeed::power::battery::get_path_by_glob;
use autoclockspeed::power::battery::Battery;
use autoclockspeed::power::battery::BatteryConditionType;
use autoclockspeed::power::lid::lid_state_from;
use autoclockspeed::power::lid::Lid;
use autoclockspeed::power::lid::LidState;
use autoclockspeed::power::power_source_from;
use autoclockspeed::power::set_best_path;
use autoclockspeed::power::Power;
use autoclockspeed::settings::Settings;
use autoclockspeed::setup::setup;
use autoclockspeed::system::check_available_governors;
use autoclockspeed::system::check_turbo_enabled;
use autoclockspeed::system::cpus_from_entries;
use autoclockspeed::system::get_highest_temp;
use autoclockspeed::system::list_cpu_governors;
use autoclockspeed::system::list_cpu_speeds;
use autoclockspeed::system::sysfs_i8;
use autoclockspeed::system::sysfs_int;
use autoclockspeed::system::sysfs_str;
use autoclockspeed::text::fmt_i64;
use autoclockspeed::text::fmt_u64;
use autoclockspeed::text::parse_bool_str;
use autoclockspeed::text::parse_i32_str;
use autoclockspeed::text::parse_i8_str;
use autoclockspeed::text::parse_u32_str;
use autoclockspeed::thermal::is_thermal_zone_path;
use autoclockspeed::thermal::zone_file;
use autoclockspeed::thermal::ThermalZone;
use autoclockspeed::Error;

fn strings(items: &[&str]) -> Vec<String> {
    items.iter().map(|s| s.to_string()).collect()
}

fn at(secs: u64) -> Timestamp {
    Timestamp { secs, nanos: 0 }
}

fn probe(has_battery: bool, is_root: bool, battery: Option<Battery>, ac: Option<bool>) -> Probe {
    Probe {
        has_battery,
        is_root,
        battery,
        power: Power::new(&vec![false, false, false, false]),
        ac,
        lid: Lid::new(&vec![false, false, false, false]),
        cpus: Vec::new(),
    }
}

fn edit_settings() -> Settings {
    let mut s = Settings::default();
    s.edit = true;
    s
}

/// An edit-mode daemon with the given rules, on battery, half charged.
fn daemon_with_rules(rules: Vec<State>) -> Daemon {
    let mut config = default_config();
    config.active_rules = rules;
    let mut d = daemon_init(edit_settings(), config, probe(true, true, Some(Battery::default()), Some(false)));
    d.charge = 50;
    d
}

fn all_rules() -> Vec<State> {
    vec![State::BatteryLow, State::LidClosed, State::Charging, State::CpuUsageHigh]
}

fn messages(d: &Daemon) -> Vec<(String, Severity)> {
    d.logger.logs.iter().map(|l| (l.message.clone(), l.severity)).collect()
}

// ---------------------------------------------------------------------
// The packet protocol
// ---------------------------------------------------------------------

#[test]
fn packet_render_each_type() {
    assert_eq!(Packet::Hello("hi".to_string()).render(), "0|hi\n");
    assert_eq!(Packet::HelloResponse("hi".to_string(), 5).render(), "1|hi|5\n");
    assert_eq!(Packet::DaemonDisableRequest().render(), "2\n");
    assert_eq!(Packet::DaemonDisableResponse(true).render(), "3|true\n");
    assert_eq!(Packet::DaemonEnableRequest().render(), "4\n");
    assert_eq!(Packet::DaemonEnableResponse(false).render(), "5|false\n");
    assert_eq!(Packet::DaemonStatusRequest().render(), "6\n");
    assert_eq!(Packet::DaemonStatusResponse(true).render(), "7|true\n");
    assert_eq!(Packet::DaemonLogRequest().render(), "8\n");
    assert_eq!(Packet::DaemonLogResponse(strings(&["{a}", "{b}"])).render(), "9|{a}{b}\n");
    assert_eq!(Packet::Unknown.render(), "\n");
    assert_eq!(Packet::HelloResponse("x".to_string(), 4294967295).render(), "1|x|4294967295\n");
}

#[test]
fn packet_round_trip() {
    let packets = vec![
        Packet::Hello("hello there".to_string()),
        Packet::Hello(String::new()),
        Packet::HelloResponse("abc".to_string(), 0),
        Packet::HelloResponse("abc".to_string(), 123456),
        Packet::DaemonDisableRequest(),
        Packet::DaemonDisableResponse(true),
        Packet::DaemonDisableResponse(false),
        Packet::DaemonEnableRequest(),
        Packet::DaemonEnableResponse(true),
        Packet::DaemonEnableResponse(false),
        Packet::DaemonStatusRequest(),
        Packet::DaemonStatusResponse(true),
        Packet::DaemonStatusResponse(false),
        Packet::DaemonLogRequest(),
        Packet::DaemonLogResponse(strings(&["{\"message\":\"m\"}"])),
    ];
    for p in packets {
        let line = p.render();
        let parsed = parse_packet(line.trim_end_matches('\n')).unwrap();
        assert_eq!(parsed, p);
    }
}

#[test]
fn packet_parse_fields() {
    assert_eq!(parse_packet("2|ignored").unwrap(), Packet::DaemonDisableRequest());
    assert_eq!(parse_packet("1|a|+7").unwrap(), Packet::HelloResponse("a".to_string(), 7));
    assert_eq!(parse_packet("9|a|b").unwrap(), Packet::DaemonLogResponse(strings(&["a", "b"])));
    assert_eq!(parse_packet("9").unwrap(), Packet::DaemonLogResponse(Vec::new()));
    assert_eq!(
        parse_packet("10|{\"x\":1}").unwrap(),
        Packet::DaemonLogEvent("{\"x\":1}".to_string())
    );
    assert_eq!(parse_packet("0|").unwrap(), Packet::Hello(String::new()));
}

#[test]
fn packet_parse_errors() {
    for line in [
        "", "x", "0", "1|a", "1|a|x", "1|a|-1", "1|a|4294967296", "3", "3|yes", "5|True", "7|",
        "11", "10", "01", " 2",
    ] {
        assert!(parse_packet(line).is_err(), "{line:?} should not parse");
    }
    let e = parse_packet("x").unwrap_err();
    assert_eq!(e.message(), "Packet parse error occured");
}

// ---------------------------------------------------------------------
// The rules of the state machine
// ---------------------------------------------------------------------

#[test]
fn low_battery_wins_over_charging() {
    let mut d = daemon_with_rules(all_rules());
    d.charge = 10;
    d.charging = true;
    d.lid_state = LidState::Closed;
    let s = d.run_state_machine(true, false, at(100));
    assert_eq!(s, State::BatteryLow);
    assert_eq!(get_governor(&s), "powersave");
}

#[test]
fn charging_means_performance() {
    let mut d = daemon_with_rules(all_rules());
    d.charging = true;
    d.lid_state = LidState::Closed;
    let s = d.run_state_machine(false, true, at(100));
    assert_eq!(s, State::Charging);
    assert_eq!(get_governor(&s), "performance");
}

#[test]
fn closed_lid_means_powersave() {
    let mut d = daemon_with_rules(all_rules());
    d.lid_state = LidState::Closed;
    let s = d.run_state_machine(false, true, at(100));
    assert_eq!(s, State::LidClosed);
    assert_eq!(get_governor(&s), "powersave");
}

#[test]
fn battery_at_threshold_is_not_low() {
    let mut d = daemon_with_rules(all_rules());
    d.charge = 20;
    assert_eq!(d.run_state_machine(false, true, at(1)), State::Normal);
    d.charge = 19;
    assert_eq!(d.run_state_machine(false, true, at(2)), State::BatteryLow);
}

#[test]
fn high_usage_needs_fifteen_seconds() {
    let mut d = daemon_with_rules(all_rules());
    assert_eq!(d.run_state_machine(true, false, at(1000)), State::Normal);
    assert_eq!(d.last_below_cpu_usage_percent, Some(at(1000)));
    assert_eq!(d.run_state_machine(true, false, Timestamp { secs: 1014, nanos: 999_999_999 }), State::Normal);
    assert_eq!(d.run_state_machine(true, false, at(1015)), State::CpuUsageHigh);
    assert_eq!(get_governor(&State::CpuUsageHigh), "performance");
    assert_eq!(d.last_below_cpu_usage_percent, Some(at(1000)));
    assert_eq!(d.run_state_machine(false, true, at(1016)), State::Normal);
    assert_eq!(d.last_below_cpu_usage_percent, None);
}

#[test]
fn usage_rule_inactive_keeps_clock() {
    let mut d = daemon_with_rules(vec![State::BatteryLow]);
    assert_eq!(d.run_state_machine(true, false, at(10)), State::Normal);
    assert_eq!(d.last_below_cpu_usage_percent, None);
    assert_eq!(d.run_state_machine(true, false, at(100)), State::Normal);
}

#[test]
fn no_rules_is_normal() {
    let mut d = daemon_with_rules(Vec::new());
    d.charge = 1;
    d.charging = true;
    d.lid_state = LidState::Closed;
    assert_eq!(d.run_state_machine(true, false, at(5)), State::Normal);
    assert_eq!(get_governor(&State::Normal), "powersave");
}

#[test]
fn governors_and_names_of_states() {
    assert_eq!(get_governor(&State::Unknown), "powersave");
    assert_eq!(get_governor(&State::BatteryLow), "powersave");
    assert_eq!(state_debug_name(&State::CpuUsageHigh), "CpuUsageHigh");
    assert_eq!(state_debug_name(&State::LidClosed), "LidClosed");
    assert!(rules_contain(&all_rules(), State::Charging));
    assert!(!rules_contain(&all_rules(), State::Normal));
}

#[test]
fn edit_decision_logs_a_change() {
    let mut d = daemon_with_rules(all_rules());
    d.charging = true;
    let before = d.logger.logs.len();
    let change = d.edit_decision(false, true, at(10));
    assert_eq!(change, Some(State::Charging));
    assert_eq!(d.state, State::Unknown);
    assert_eq!(d.logger.logs.len(), before + 1);
    assert_eq!(d.logger.logs.last().unwrap().message, "State changed: Unknown -> Charging");
    assert_eq!(d.logger.logs.last().unwrap().severity, Severity::Log);
    d.state = State::Charging;
    assert_eq!(d.edit_decision(false, true, at(11)), None);
    assert_eq!(d.logger.logs.len(), before + 1);
}

#[test]
fn paused_daemon_decides_nothing() {
    let mut d = daemon_with_rules(all_rules());
    d.charging = true;
    d.paused = true;
    assert_eq!(d.edit_decision(true, false, at(10)), None);
    assert_eq!(d.last_below_cpu_usage_percent, None);
    assert_eq!(d.state, State::Unknown);
}

// ---------------------------------------------------------------------
// The pause protocol
// ---------------------------------------------------------------------

#[test]
fn pause_protocol() {
    let mut d = daemon_with_rules(all_rules());
    assert_eq!(d.handle_packet(&Packet::DaemonStatusRequest()), Some(Packet::DaemonStatusResponse(true)));
    assert_eq!(d.handle_packet(&Packet::DaemonDisableRequest()), Some(Packet::DaemonDisableResponse(true)));
    assert!(d.paused);
    assert_eq!(d.logger.logs.last().unwrap().message, "Daemon has been disabled by a client");
    assert_eq!(d.handle_packet(&Packet::DaemonDisableRequest()), Some(Packet::DaemonDisableResponse(false)));
    assert_eq!(d.handle_packet(&Packet::DaemonStatusRequest()), Some(Packet::DaemonStatusResponse(false)));
    assert_eq!(d.handle_packet(&Packet::DaemonEnableRequest()), Some(Packet::DaemonEnableResponse(true)));
    assert!(!d.paused);
    assert_eq!(d.logger.logs.last().unwrap().message, "Daemon has been enabled by a client");
    assert_eq!(d.handle_packet(&Packet::DaemonEnableRequest()), Some(Packet::DaemonEnableResponse(false)));
    assert_eq!(d.handle_packet(&Packet::DaemonStatusRequest()), Some(Packet::DaemonStatusResponse(true)));
}

#[test]
fn hello_is_answered_and_logged() {
    let mut d = daemon_with_rules(all_rules());
    let r = d.handle_packet(&Packet::Hello("client 1".to_string()));
    assert_eq!(r, Some(Packet::HelloResponse("client 1".to_string(), 0)));
    assert_eq!(d.logger.logs.last().unwrap().message, "Received hello packet: client 1");
    assert!(!d.paused);
}

#[test]
fn other_packets_get_no_answer() {
    let mut d = daemon_with_rules(all_rules());
    let before = d.logger.logs.len();
    assert_eq!(d.handle_packet(&Packet::DaemonLogRequest()), None);
    assert_eq!(d.handle_packet(&Packet::Unknown), None);
    assert_eq!(d.handle_packet(&Packet::DaemonEnableResponse(true)), None);
    assert_eq!(d.logger.logs.len(), before);
    assert!(!d.paused);
}

#[test]
fn client_texts() {
    let dc = DaemonControl {};
    assert_eq!(dc.disable_request(), Packet::DaemonDisableRequest());
    assert_eq!(dc.enable_request(), Packet::DaemonEnableRequest());
    assert_eq!(dc.status_request(), Packet::DaemonStatusRequest());
    assert_eq!(dc.disable_reply(&Packet::DaemonDisableResponse(true)), "The running daemon has been disabled");
    assert_eq!(dc.disable_reply(&Packet::DaemonDisableResponse(false)), "The running daemon is already disabled");
    assert_eq!(dc.enable_reply(&Packet::DaemonEnableResponse(true)), "The running daemon has been enabled");
    assert_eq!(dc.enable_reply(&Packet::DaemonEnableResponse(false)), "The running daemon is already enabled");
    assert_eq!(dc.status_reply(&Packet::DaemonStatusResponse(true)), "The daemon is currently enabled");
    assert_eq!(dc.status_reply(&Packet::DaemonStatusResponse(false)), "The daemon is currently disabled");
    assert_eq!(dc.status_reply(&Packet::Unknown), "Failed: Unexpected response packet");
    assert_eq!(dc.toggle_request(&Packet::DaemonStatusResponse(true)), Some(Packet::DaemonDisableRequest()));
    assert_eq!(dc.toggle_request(&Packet::DaemonStatusResponse(false)), Some(Packet::DaemonEnableRequest()));
    assert_eq!(dc.toggle_request(&Packet::Hello("x".to_string())), None);
    assert_eq!(dc.toggle_reply(&Packet::DaemonEnableResponse(false)), "The running daemon has been enabled");
    assert_eq!(dc.toggle_reply(&Packet::DaemonStatusResponse(false)), "Failed: Unexpected response packet");
}

// ---------------------------------------------------------------------
// Starting the daemon
// ---------------------------------------------------------------------

#[test]
fn mode_decisions() {
    let d = decide_mode(true, true, true);
    assert!(d.edit && !d.warn_not_root && d.forced_reason.is_empty());
    let d = decide_mode(true, true, false);
    assert!(!d.edit && d.warn_not_root);
    assert_eq!(d.forced_reason, "acs was not run as root");
    let d = decide_mode(true, false, true);
    assert!(!d.edit && !d.warn_not_root);
    assert_eq!(d.forced_reason, "the device has no battery");
    let d = decide_mode(false, false, false);
    assert!(!d.edit && !d.warn_not_root);
    assert_eq!(d.forced_reason, "the device has no battery");
    let d = decide_mode(false, true, false);
    assert!(!d.edit && !d.warn_not_root && d.forced_reason.is_empty());
}

#[test]
fn init_message_text() {
    assert_eq!(
        compose_init_message("edit", 1000, 2500, ""),
        "Auto Clock Speed daemon has been initialized in edit mode with a delay of 1000ms normally and 2500ms when on battery\n"
    );
    let m = format_message(false, true, "acs was not run as root".to_string(), 7, 8);
    assert!(m.starts_with("Auto Clock Speed daemon has been initialized in "));
    assert!(m.contains("monitor"));
    assert!(m.contains(" mode with a delay of 7ms normally and 8ms when on battery"));
    assert!(m.contains("\nForced to monitor mode because acs was not run as root!"));
    assert!(m.ends_with('\n'));
    let m = format_message(true, true, String::new(), 1, 2);
    assert!(m.contains("edit"));
    assert!(!m.contains("Forced"));
}

#[test]
fn daemon_init_without_hardware() {
    let d = daemon_init(edit_settings(), default_config(), probe(true, true, None, None));
    assert!(d.settings.edit);
    assert_eq!(d.state, State::Unknown);
    assert!(!d.paused);
    assert_eq!(d.charge, 100);
    assert!(d.charging);
    assert!(!d.do_update_battery);
    assert_eq!(d.lid_state, LidState::Unknown);
    assert_eq!(d.temp_max, 0);
    assert_eq!(d.timeout, 1);
    assert_eq!(d.timeout_battery, 2);
    assert_eq!(
        messages(&d),
        vec![
            ("Failed to detect a laptop battery".to_string(), Severity::Warning),
            ("Failed to detect AC power source".to_string(), Severity::Warning),
        ]
    );
    assert!(!d.message.contains("Forced"));
}

#[test]
fn daemon_init_forced_to_monitor() {
    let d = daemon_init(edit_settings(), default_config(), probe(true, false, Some(Battery::default()), Some(false)));
    assert!(!d.settings.edit);
    assert!(!d.charging);
    assert!(d.do_update_battery);
    assert!(d.logger.logs.is_empty());
    assert!(d.message.contains("Forced to monitor mode because acs was not run as root!"));
    let d = daemon_init(edit_settings(), default_config(), probe(false, true, None, Some(true)));
    assert!(!d.settings.edit);
    assert!(d.message.contains("Forced to monitor mode because the device has no battery!"));
    assert_eq!(messages(&d), vec![("Failed to detect a laptop battery".to_string(), Severity::Warning)]);
}

#[test]
fn daemon_init_step() {
    let mut s = edit_settings();
    s.commit = true;
    s.delay = 500;
    s.delay_battery = 3000;
    s.log_csv = true;
    s.csv_file = "out.csv".to_string();
    let mut d = daemon_init(s, default_config(), probe(true, true, Some(Battery::default()), Some(true)));
    d.init("abc123", Some(CsvSetup::CreateFailed), true, true);
    assert_eq!(d.commit_hash, "abc123");
    assert_eq!(d.timeout, 500);
    assert_eq!(d.timeout_battery, 3000);
    assert!(!d.settings.log_csv);
    let m = messages(&d);
    assert_eq!(m.len(), 3);
    assert_eq!(m[0].0, "Could not create file. Turning csv log mode off and continuing.");
    assert!(m[1].0.starts_with("ACS is intended to run on an actual linux distribution"));
    assert_eq!(m[2].0, "Stats may be incorrect if running inside docker.");
    assert_eq!(d.effective_timeout(), 500);
    d.charging = false;
    assert_eq!(d.effective_timeout(), 3000);
}

#[test]
fn csv_setup_messages() {
    let mut s = edit_settings();
    s.log_csv = true;
    s.csv_file = "out.csv".to_string();
    let mut d = daemon_init(s, default_config(), probe(true, true, Some(Battery::default()), Some(true)));
    d.setup_csv_logging(CsvSetup::Created);
    assert!(d.logger.logs.is_empty());
    d.setup_csv_logging(CsvSetup::AlreadyExists);
    assert_eq!(d.logger.logs[0].message, "File \"out.csv\" already exists, continuing in append mode.");
    d.setup_csv_logging(CsvSetup::HeaderWriteFailed);
    assert_eq!(d.logger.logs[1].message, "Could not write to CSV file.");
    assert!(d.settings.log_csv);
}

#[test]
fn csv_cutoff() {
    let mut s = edit_settings();
    s.log_csv = true;
    s.log_size_cutoff = 1;
    let mut d = daemon_init(s, default_config(), probe(true, true, Some(Battery::default()), Some(true)));
    assert!(d.csv_write_decision(999_999));
    assert!(d.settings.log_csv);
    assert!(!d.csv_write_decision(1_000_000));
    assert!(!d.settings.log_csv);
    assert_eq!(d.logger.logs.last().unwrap().message, "Max log file size reached of 1MB");
    d.csv_write_failed();
    assert_eq!(d.logger.logs.last().unwrap().message, "Could not write to CSV file.");

    let mut w = CSVWriter::new("log.csv".to_string(), 2);
    assert_eq!(w.path(), "log.csv");
    assert!(w.write(1_999_999));
    assert!(!w.write(2_000_000));
    assert!(!w.write(0));
    w.write_failed();
}

#[test]
fn governor_plans() {
    assert_eq!(govs_plan("performance"), Some(Gov::Performance));
    assert_eq!(govs_plan("powersave"), Some(Gov::Powersave));
    assert_eq!(govs_plan("schedutil"), Some(Gov::Schedutil));
    assert_eq!(govs_plan("ondemand"), None);
    assert_eq!(Gov::Schedutil.name(), "schedutil");
    let mut d = daemon_with_rules(all_rules());
    let before = d.logger.logs.len();
    assert_eq!(d.other_governor("conservative", Some(strings(&["performance", "conservative"]))), None);
    assert_eq!(d.logger.logs.last().unwrap().message, "Other governors not supported yet");
    assert_eq!(
        d.other_governor("conservative", Some(strings(&["performance"]))),
        Some("Governor not available".to_string())
    );
    assert_eq!(
        d.other_governor("conservative", None),
        Some("Error checking \"conservative\" governor".to_string())
    );
    assert_eq!(d.logger.logs.len(), before + 1);
}

#[test]
fn highest_temperature() {
    let mut d = daemon_with_rules(all_rules());
    let mut a = CPU::new("cpu0".to_string(), 0);
    a.cur_temp = 45000;
    let mut b = CPU::new("cpu1".to_string(), 1);
    b.cur_temp = 52999;
    d.cpus = vec![a, b];
    d.update_temp_max();
    assert_eq!(d.temp_max, 52);
    assert_eq!(get_highest_temp(&d.cpus), 52999);
    let mut c = CPU::new("cpu2".to_string(), 2);
    c.cur_temp = -5;
    assert_eq!(get_highest_temp(&vec![c]), 0);
}

// ---------------------------------------------------------------------
// Configuration
// ---------------------------------------------------------------------

#[test]
fn config_defaults_and_fill() {
    let c = default_config();
    assert_eq!(c.powersave_under, 20);
    assert_eq!(c.overheat_threshold, 80);
    assert_eq!(c.high_cpu_threshold, 50);
    assert_eq!(c.high_cpu_time_needed, 15);
    assert_eq!(c.active_rules, all_rules());

    let c = get_config(Some(SafeConfig::empty()));
    assert_eq!(c.powersave_under, 20);
    assert_eq!(c.active_rules, all_rules());

    let mut s = SafeConfig::empty();
    s.powersave_under = Some(35);
    s.high_cpu_time_needed = Some(30);
    s.active_rules = Some(strings(&["cpu_usage_rule", "bogus", "lid_open_rule"]));
    let c = s.safe_fill_config();
    assert_eq!(c.powersave_under, 35);
    assert_eq!(c.overheat_threshold, 80);
    assert_eq!(c.high_cpu_time_needed, 30);
    assert_eq!(c.active_rules, vec![State::CpuUsageHigh, State::Unknown, State::LidClosed]);
    assert_eq!(s.powersave_under, Some(35));

    let c = get_config(None);
    assert_eq!(c.active_rules.len(), 4);
}

#[test]
fn rule_names() {
    assert_eq!(rule_from_name("battery_percent_rule"), State::BatteryLow);
    assert_eq!(rule_from_name("lid_open_rule"), State::LidClosed);
    assert_eq!(rule_from_name("ac_charging_rule"), State::Charging);
    assert_eq!(rule_from_name("cpu_usage_rule"), State::CpuUsageHigh);
    assert_eq!(rule_from_name("Battery_percent_rule"), State::Unknown);
    assert_eq!(rule_from_name(""), State::Unknown);
}

// ---------------------------------------------------------------------
// Graph option
// ---------------------------------------------------------------------

#[test]
fn graph_types() {
    assert_eq!(get_graph_type("FREQ"), GraphType::Frequency);
    assert_eq!(get_graph_type("Usage"), GraphType::Usage);
    assert_eq!(get_graph_type("temp"), GraphType::Temperature);
    assert_eq!(get_graph_type("hidden"), GraphType::Hidden);
    assert_eq!(get_graph_type("frequency"), GraphType::Unknown);
    assert_eq!(graph_type_from_lowercase("FREQ"), GraphType::Unknown);
    assert_eq!(GraphType::Temperature.name(), "temperature");
    assert_eq!(GraphType::default(), GraphType::Hidden);
}

// ---------------------------------------------------------------------
// Cores
// ---------------------------------------------------------------------

#[test]
fn cores_sorted_by_number() {
    let cpus = cpus_from_entries(&strings(&["cpu10", "cpufreq", "cpu2", "cpuidle", "cpu0", "online", "cpu2"]));
    let ids: Vec<(String, i8)> = cpus.iter().map(|c| (c.name.clone(), c.number)).collect();
    assert_eq!(
        ids,
        vec![
            ("cpu0".to_string(), 0),
            ("cpu2".to_string(), 2),
            ("cpu2".to_string(), 2),
            ("cpu10".to_string(), 10),
        ]
    );
    for c in &cpus {
        assert_eq!(c.gov, "Unknown");
        assert_eq!(c.max_freq, 0);
    }
    let odd = cpus_from_entries(&strings(&["cpu999", "cpu1"]));
    let ids: Vec<(String, i8)> = odd.iter().map(|c| (c.name.clone(), c.number)).collect();
    assert_eq!(ids, vec![("cpu999".to_string(), 0), ("cpu1".to_string(), 1)]);
}

#[test]
fn core_paths_and_writes() {
    let mut c = CPU::new("cpu3".to_string(), 3);
    assert_eq!(c.sysfs_path("cpufreq/scaling_cur_freq"), "/sys/devices/system/cpu/cpu3/cpufreq/scaling_cur_freq");
    assert_eq!(c.temp_path("temp"), "/sys/class/thermal/thermal_zone3/temp");
    let w = c.set_max(3_400_000);
    assert_eq!(w, ("/sys/devices/system/cpu/cpu3/cpufreq/scaling_max_freq".to_string(), "3400000".to_string()));
    let w = c.set_min(-1);
    assert_eq!(w.1, "-1");
    let w = c.set_gov("powersave".to_string());
    assert_eq!(w, ("/sys/devices/system/cpu/cpu3/cpufreq/scaling_governor".to_string(), "powersave".to_string()));
    assert_eq!(c.write_value(WritableValue::Max).1, "3400000");
    assert_eq!(c.gov, "powersave");
    assert_eq!(list_cpu_governors(&vec![c]), vec!["powersave".to_string()]);
    let mut a = CPU::new("cpu0".to_string(), 0);
    a.cur_freq = 1200000;
    assert_eq!(list_cpu_speeds(&vec![a]), vec![1200000]);
}

#[test]
fn sysfs_values() {
    assert_eq!(sysfs_int("2100000\n"), Some(2100000));
    assert_eq!(sysfs_int("-5\n"), Some(-5));
    assert_eq!(sysfs_int("abc\n"), None);
    assert_eq!(sysfs_int("2147483648\n"), None);
    assert_eq!(sysfs_i8("127\n"), Some(127));
    assert_eq!(sysfs_i8("128\n"), None);
    assert_eq!(sysfs_str("powersave\n"), "powersave");
    assert_eq!(sysfs_str(""), "");
}

#[test]
fn turbo_and_governor_files() {
    assert_eq!(check_turbo_enabled(Ok("0\n".to_string())).unwrap(), true);
    assert_eq!(check_turbo_enabled(Ok("1\n".to_string())).unwrap(), false);
    assert!(matches!(check_turbo_enabled(Err(Error::HdwNotFound)), Err(Error::HdwNotFound)));
    assert_eq!(
        check_available_governors(Ok("performance powersave\n".to_string())).unwrap(),
        strings(&["performance", "powersave"])
    );
    assert!(matches!(check_available_governors(Err(Error::Unknown)), Err(Error::Unknown)));
}

// ---------------------------------------------------------------------
// Text
// ---------------------------------------------------------------------

#[test]
fn number_parsing() {
    assert_eq!(parse_i8_str("-128"), Some(-128));
    assert_eq!(parse_i8_str("128"), None);
    assert_eq!(parse_i8_str("+5"), Some(5));
    assert_eq!(parse_i8_str("-"), None);
    assert_eq!(parse_i8_str("+"), None);
    assert_eq!(parse_i8_str(""), None);
    assert_eq!(parse_i8_str(" 1"), None);
    assert_eq!(parse_i8_str("007"), Some(7));
    assert_eq!(parse_i32_str("-2147483648"), Some(-2147483648));
    assert_eq!(parse_i32_str("2147483648"), None);
    assert_eq!(parse_u32_str("4294967295"), Some(4294967295));
    assert_eq!(parse_u32_str("-0"), None);
    assert_eq!(parse_u32_str("+0"), Some(0));
    assert_eq!(parse_bool_str("true"), Some(true));
    assert_eq!(parse_bool_str("false"), Some(false));
    assert_eq!(parse_bool_str("TRUE"), None);
}

#[test]
fn number_formatting() {
    assert_eq!(fmt_u64(0), "0");
    assert_eq!(fmt_u64(18446744073709551615), "18446744073709551615");
    assert_eq!(fmt_i64(-9223372036854775808), "-9223372036854775808");
    assert_eq!(fmt_i64(-42), "-42");
    assert_eq!(fmt_i64(1000), "1000");
}

// ---------------------------------------------------------------------
// Display
// ---------------------------------------------------------------------

#[test]
fn list_displays() {
    let govs = strings(&["performance", "powersave"]);
    assert_eq!(print_available_governors(govs.clone(), false), "performance powersave \n");
    assert_eq!(print_available_governors(govs.clone(), true), "performance\npowersave\n");
    assert_eq!(print_cpu_governors(Vec::new(), false), "\n");
    assert_eq!(print_cpu_governors(Vec::new(), true), "");
    assert_eq!(print_cpu_speeds(vec![1200000, 800000], false), "1200000 800000 \n");
    assert_eq!(print_cpu_temp(vec![45000, -1], true), "45000\n-1\n");
}

#[test]
fn state_displays() {
    assert_eq!(print_turbo(true, false), "Turbo is enabled\n");
    assert_eq!(print_turbo(false, false), "Turbo is not enabled\n");
    assert_eq!(print_turbo(true, true), "true\n");
    assert_eq!(print_power(LidState::Open, 87, true, false), "Lid: open Battery: 87 Plugged: true\n");
    assert_eq!(print_power(LidState::Unapplicable, -1, false, true), "unapplicable -1 false\n");
    assert_eq!(print_bat_cond(93, false), "93%\n");
    assert_eq!(print_bat_cond(93, true), "93\n");
    assert_eq!(turbo_y_pos(95), 7);
    assert_eq!(turbo_y_pos(94), 8);
    assert_eq!(turbo_status_line(true, true), "  Turbo: enabled\n");
    assert_eq!(turbo_status_line(false, false), "Turbo: disabled\n");
}

#[test]
fn cpus_display() {
    let mut a = CPU::new("cpu0".to_string(), 0);
    a.cur_freq = 2_345_678;
    let mut b = CPU::new("cpu1".to_string(), 1);
    b.cur_freq = -1500;
    let cpus = vec![a, b];
    assert_eq!(print_cpus(&cpus, "Intel", false), "Name: Intel\ncpu0:\t2345 MHz\ncpu1:\t-1 MHz\n");
    assert_eq!(print_cpus(&cpus, "Intel", true), "cpu0 2345678\ncpu1 -1500\n");
    assert_eq!(print_cpus(&Vec::new(), "X", false), "Name: X\n");
}

// ---------------------------------------------------------------------
// Power, lid, battery, thermal zones, setup
// ---------------------------------------------------------------------

#[test]
fn power_source() {
    assert_eq!(set_best_path(&vec![false, false, false, false]), None);
    assert_eq!(set_best_path(&vec![false, true, true, false]), Some("/sys/class/power_supply/AC0/online"));
    assert_eq!(set_best_path(&vec![false, false, false, true]), Some("/sys/class/power_supply/ACAD/online"));
    let p = Power::new(&vec![true, false, false, false]);
    assert_eq!(p.source_path(), Some("/sys/class/power_supply/AC/online"));
    assert_eq!(Power::new(&vec![false, false, false, false]).source_path(), None);
    assert!(power_source_from("1\n"));
    assert!(!power_source_from("0\n"));
    assert!(!power_source_from("1"));
}

#[test]
fn lid_states() {
    assert_eq!(lid_state_from("state:      open\n"), LidState::Open);
    assert_eq!(lid_state_from("state:      closed\n"), LidState::Closed);
    assert_eq!(lid_state_from("state: ?\n"), LidState::Unknown);
    assert_eq!(Lid::new(&vec![false, false, false, false]).state_path(), None);
    assert_eq!(
        Lid::new(&vec![false, true, true, false]).state_path(),
        Some("/proc/acpi/button/lid/LID0/state")
    );
    assert_eq!(
        autoclockspeed::power::lid::set_best_path(&vec![false, false, false, true]),
        Some("/proc/acpi/button/lid/LID2/state")
    );
    assert_eq!(LidState::Unapplicable.name(), "unapplicable");
}

#[test]
fn battery_lookup() {
    let entries = strings(&[
        "/sys/class/power_supply/AC",
        "/sys/class/power_supply/BAT1",
        "/sys/class/power_supply/BAT0",
    ]);
    assert_eq!(battery_path(&entries).unwrap(), "/sys/class/power_supply/BAT1");
    assert!(matches!(
        battery_path(&strings(&["/sys/class/power_supply/AC"])),
        Err(Error::HdwNotFound)
    ));
    assert_eq!(
        get_path_by_glob("/sys/class/power_supply/", "AC*", &entries).unwrap(),
        "/sys/class/power_supply/AC"
    );
    assert_eq!(Battery::file("/sys/class/power_supply/BAT0", "capacity"), "/sys/class/power_supply/BAT0/capacity");

    let mut b = Battery::new(Ok("/sys/class/power_supply/BAT0".to_string()), true, true).unwrap();
    assert_eq!(b.condition_type, BatteryConditionType::Energy);
    assert_eq!(b.sys_parent_path, "/sys/class/power_supply/BAT0");
    b.check_condition_type(true, false);
    assert_eq!(b.condition_type, BatteryConditionType::Charge);
    b.check_condition_type(false, false);
    assert_eq!(b.condition_type, BatteryConditionType::Charge);
    let b2 = Battery::new(Ok("/x".to_string()), false, false).unwrap();
    assert_eq!(b2.condition_type, BatteryConditionType::NoData);
    assert!(matches!(Battery::new(Err(Error::Unknown), true, true), Err(Error::HdwNotFound)));
    let io = std::io::Error::new(std::io::ErrorKind::PermissionDenied, "denied");
    assert!(matches!(Battery::new(Err(Error::IO(io)), true, true), Err(Error::IO(_))));

    assert!(b.read_charge(Ok("87\n".to_string())).is_ok());
    assert_eq!(b.capacity, 87);
    assert!(b.read_charge_full(Ok("50000\n".to_string()), Ok("45000\n".to_string())).is_ok());
    assert_eq!((b.charge_full_design, b.charge_full), (50000, 45000));
    assert!(b.read_energy_full(Ok("60000\n".to_string()), Ok("30000\n".to_string())).is_ok());
    assert_eq!((b.energy_full_design, b.energy_full), (60000, 30000));
}

#[test]
fn thermal_zones() {
    assert!(is_thermal_zone_path("/sys/class/thermal/thermal_zone0"));
    assert!(!is_thermal_zone_path("/sys/class/thermal/cooling_device0"));
    assert_eq!(zone_file("/sys/class/thermal/thermal_zone0", "/temp"), "/sys/class/thermal/thermal_zone0/temp");
    let z = ThermalZone::from_files("/sys/class/thermal/thermal_zone0".to_string(), "42000\n", "x86_pkg_temp\n", "enabled\n");
    assert_eq!(z.temp, 42000);
    assert_eq!(z.name, "x86_pkg_temp");
    assert!(z.enabled);
    let z = ThermalZone::from_files("p".to_string(), "-1\n", "acpitz\n", "disabled\n");
    assert!(!z.enabled);
    let d = ThermalZone::default();
    assert_eq!(d.name, "unknown");
}

#[test]
fn setup_warnings() {
    assert!(setup(false, false).is_empty());
    let w = setup(true, true);
    assert_eq!(w.len(), 2);
    assert!(w[0].contains("Windows Subsystem for Linux"));
    assert_eq!(w[1], "Stats may be incorrect if running inside docker.");
    assert_eq!(setup(false, true), vec!["Stats may be incorrect if running inside docker.".to_string()]);
}

#[test]
fn logger_appends() {
    let mut l = Logger::new();
    l.log("first", Severity::Error);
    l.log("second", Severity::Log);
    assert_eq!(l.logs.len(), 2);
    assert_eq!(l.logs[0].message, "first");
    assert_eq!(l.logs[1].severity, Severity::Log);
}

// ---------------------------------------------------------------------
// Command line and interactive mode
// ---------------------------------------------------------------------

#[test]
fn run_command_settings() {
    let s = run_settings(false, false, None, None, false, None, false, None, 20);
    assert!(s.verbose && s.edit && !s.hook && s.animation && !s.testing);
    assert_eq!((s.delay, s.delay_battery), (1000, 5000));
    assert_eq!(s.graph, GraphType::Hidden);
    assert!(!s.log_csv);
    assert_eq!(s.csv_file, "/tmp/acs/");
    assert_eq!(s.log_size_cutoff, 20);

    let s = run_settings(true, true, Some(250), Some(9000), true, Some("Freq".to_string()), true, Some("x.csv".to_string()), 5);
    assert!(!s.verbose && s.show_settings && !s.animation && s.commit);
    assert_eq!((s.delay, s.delay_battery), (250, 250));
    assert_eq!(s.graph, GraphType::Frequency);
    assert!(s.log_csv);
    assert_eq!(s.csv_file, "x.csv");

    let s = run_settings(false, false, None, Some(9000), false, Some("bogus".to_string()), false, None, 20);
    assert_eq!(s.graph, GraphType::Unknown);
    assert_eq!((s.delay, s.delay_battery), (1000, 1000));
}

#[test]
fn monitor_command_settings() {
    let s = monitor_settings(Some(10), Some(20), false, false, true, None, false, None, 20);
    assert!(s.verbose && !s.edit && s.hook);
    assert_eq!((s.delay, s.delay_battery), (10, 20));
    let s = monitor_settings(None, None, false, false, false, Some("temp".to_string()), false, None, 20);
    assert_eq!(s.graph, GraphType::Temperature);
    assert_eq!((s.delay, s.delay_battery), (1000, 1000));
}

#[test]
fn interactive_commands() {
    assert_eq!(read_command("help\n"), Command::Help);
    assert_eq!(read_command("get cpus\n"), Command::GetCpus);
    assert_eq!(read_command("get available_governors\n"), Command::GetAvailableGovernors);
    assert_eq!(read_command("set gov powersave\n"), Command::SetGovPowersave);
    assert_eq!(read_command("daemon toggle\n"), Command::DaemonToggle);
    assert_eq!(read_command("exit\n"), Command::Exit);
    assert_eq!(read_command("exit"), Command::NotFound);
    assert_eq!(read_command("get cpus \n"), Command::NotFound);
    assert_eq!(read_command(""), Command::NotFound);
    assert_eq!(not_found_message("fly"), "Command 'fly' not found. Use 'help'.");
}

// ---------------------------------------------------------------------
// Serving clients and hooking to a daemon
// ---------------------------------------------------------------------

#[test]
fn serving_lines() {
    let mut d = daemon_with_rules(all_rules());
    assert_eq!(d.serve_line("2"), Some(Packet::DaemonDisableResponse(true)));
    assert!(d.paused);
    assert_eq!(d.serve_line("6"), Some(Packet::DaemonStatusResponse(false)));
    assert_eq!(d.serve_line("0|monitor"), Some(Packet::HelloResponse("monitor".to_string(), 0)));
    let before = d.logger.logs.len();
    assert_eq!(d.serve_line("banana"), None);
    assert_eq!(d.logger.logs.len(), before + 1);
    let last = d.logger.logs.last().unwrap();
    assert_eq!(last.message, "Received malfomed packet: Packet parse error occured");
    assert_eq!(last.severity, Severity::Error);
    assert!(d.paused);
    assert_eq!(d.serve_line("4"), Some(Packet::DaemonEnableResponse(true)));
    assert!(!d.paused);
}

#[test]
fn hooking_steps() {
    match hook_step("9|{a}|{b}") {
        HookStep::Append(v) => assert_eq!(v, strings(&["{a}", "{b}"])),
        other => panic!("unexpected {other:?}"),
    }
    match hook_step("10|{e}") {
        HookStep::Append(v) => assert_eq!(v, strings(&["{e}"])),
        other => panic!("unexpected {other:?}"),
    }
    match hook_step("7|true") {
        HookStep::Report(m) => assert_eq!(m, "Unexpected response packet from daemon? Incorrect protocol version?"),
        other => panic!("unexpected {other:?}"),
    }
    match hook_step("zzz") {
        HookStep::Report(m) => assert_eq!(m, "Failed to parse packet from daemon? Incorrect protocol version?"),
        other => panic!("unexpected {other:?}"),
    }
}

#[test]
fn toggling_a_daemon() {
    let dc = DaemonControl {};
    let mut d = daemon_with_rules(all_rules());
    for expected in [true, false, true] {
        let status = d.handle_packet(&dc.status_request()).unwrap();
        let request = dc.toggle_request(&status).unwrap();
        let reply = d.handle_packet(&request).unwrap();
        assert_eq!(d.paused, expected);
        let said = dc.toggle_reply(&reply);
        if expected {
            assert_eq!(said, "The running daemon has been disabled");
        } else {
            assert_eq!(said, "The running daemon has been enabled");
        }
    }
}

// ---------------------------------------------------------------------
// The monitor's screen
// ---------------------------------------------------------------------

#[test]
fn screen_parts() {
    let mut s = edit_settings();
    s.commit = true;
    s.graph = GraphType::Usage;
    let mut d = daemon_init(s, default_config(), probe(true, true, Some(Battery::default()), Some(true)));
    d.commit_hash = "abc".to_string();
    d.graph = "PLOT".to_string();
    d.message = "hello".to_string();
    d.battery.condition = 93;
    assert_eq!(
        d.postprint_render("L1\nL2\n"),
        "Graphing: usage\nPLOT\n\nCommit hash: abc\n\nctrl+c to stop running\n\nL1\nL2\n"
    );
    d.settings.verbose = false;
    d.settings.commit = false;
    d.settings.graph = GraphType::Hidden;
    assert_eq!(d.postprint_render("L1\n"), "\n\n\n\n\nctrl+c to stop running\n\n");
    assert_eq!(
        d.preprint_render("TITLE\n", "ROWS", "Battery: 50%"),
        "hello\nTITLE\nROWS\nBattery: 50%\nCondition: 93%\n"
    );
}

#[test]
fn core_rows() {
    let mut c = CPU::new("cpu0".to_string(), 0);
    c.max_freq = 4_000_000;
    c.min_freq = 400_000;
    c.cur_freq = 1_234_567;
    c.gov = "powersave".to_string();
    c.cur_temp = 61_000;
    assert_eq!(c.temp_cell(), ("61C".to_string(), Paint::Red));
    c.cur_temp = 41_999;
    assert_eq!(c.temp_cell(), ("41C".to_string(), Paint::Yellow));
    c.cur_temp = 1_500;
    assert_eq!(c.temp_cell(), ("1C*".to_string(), Paint::White));
    c.cur_temp = -1;
    assert_eq!(c.temp_cell(), ("0C*".to_string(), Paint::White));
    c.cur_temp = 30_000;
    assert_eq!(c.temp_cell(), ("30C".to_string(), Paint::Green));
    assert_eq!(c.freq_cell(), "1234MHz");
    assert_eq!(c.row("cpu0", "1234MHz", "30C", "5.00%"), "cpu0: 4000MHz\t400MHz\t1234MHz\t30C\t5.00%\tpowersave\n");
}

#[test]
fn battery_and_animation_cells() {
    assert_eq!(battery_status_cell(true, 80, BatteryStatus::Charging), ("80%".to_string(), Some(Paint::Green)));
    assert_eq!(battery_status_cell(true, 80, BatteryStatus::Full), ("80%".to_string(), Some(Paint::Red)));
    assert_eq!(battery_status_cell(false, 80, BatteryStatus::Charging), ("N/A".to_string(), None));
    assert_eq!(battery_status_line("N/A"), "Battery: N/A");
    assert_eq!(turbo_animation_plan(4, 7, 1050), (11, 10));
    assert_eq!(turbo_animation_frame(0), '◷');
    assert_eq!(turbo_animation_frame(3), '◴');
    assert_eq!(turbo_animation_frame(5), '◶');
}

#[test]
fn csv_rows() {
    let mut c = CPU::new("cpu1".to_string(), 1);
    c.max_freq = 3000;
    c.min_freq = 400;
    c.cur_freq = 1200;
    c.cur_temp = -1;
    c.gov = "powersave".to_string();
    assert_eq!(c.csv_row(1700000000, "0.25"), "1700000000,cpu1,1,3000,400,1200,-1,0.25,powersave\n");
    assert_eq!(
        autoclockspeed::cpu::csv_header(),
        "epoch,name,number,max_freq,min_freq,cur_freq,cur_temp,cur_usage,gov\n"
    );
}

#[test]
fn raw_lists_read_back_by_line() {
    let govs = strings(&["performance", "powersave", "schedutil"]);
    let text = print_available_governors(govs.clone(), true);
    let lines: Vec<&str> = text.split('\n').collect();
    assert_eq!(lines, vec!["performance", "powersave", "schedutil", ""]);
    assert_eq!(print_cpu_speeds(Vec::new(), true).split('\n').collect::<Vec<&str>>(), vec![""]);
}

#[test]
fn written_values_read_back() {
    let mut c = CPU::new("cpu0".to_string(), 0);
    let (_, text) = c.set_max(-2147483648);
    assert_eq!(sysfs_int(&format!("{}\n", text)), Some(-2147483648));
    let (_, text) = c.set_min(800000);
    assert_eq!(sysfs_int(&format!("{}\n", text)), Some(800000));
    let (_, text) = c.set_gov("schedutil".to_string());
    assert_eq!(sysfs_str(&format!("{}\n", text)), "schedutil");
    assert_eq!(parse_i8_str(&fmt_i64(-128)), Some(-128));
}

#[test]
fn lid_paths() {
    assert_eq!(
        autoclockspeed::power::lid::lid_status_paths(),
        vec![
            "/proc/acpi/button/lid/LID/state",
            "/proc/acpi/button/lid/LID0/state",
            "/proc/acpi/button/lid/LID1/state",
            "/proc/acpi/button/lid/LID2/state",
        ]
    );
    assert_eq!(autoclockspeed::power::power_source_paths().len(), 4);
}

#[test]
fn wsl_kernels() {
    assert!(autoclockspeed::setup::is_wsl_kernel("Linux version 5.15.90.1-microsoft-standard-WSL2"));
    assert!(autoclockspeed::setup::is_wsl_kernel("Linux version 4.4.0-19041-Microsoft"));
    assert!(!autoclockspeed::setup::is_wsl_kernel("Linux version 6.1.0-13-amd64"));
}

#[test]
fn log_lines() {
    let entry = |secs: u64, severity: Severity| Log {
        message: "hello".to_string(),
        severity,
        timestamp: Timestamp { secs, nanos: 0 },
    };
    let l = entry(1546300800, Severity::Log).line();
    assert!(l.contains("notice:"));
    assert!(l.ends_with(" 2019-01-01 00:00:00 -> hello"));
    let l = entry(1700000000, Severity::Error).line();
    assert!(l.contains("error:"));
    assert!(l.ends_with(" 2023-11-14 22:13:20 -> hello"));
    let l = entry(0, Severity::Warning).line();
    assert!(l.contains("warn:"));
    assert!(l.ends_with(" 1970-01-01 00:00:00 -> hello"));
    let l = entry(u64::MAX, Severity::Log).line();
    assert!(l.ends_with(" ? -> hello"));
}

#[test]
fn battery_reads_keep_what_came_before_an_error() {
    let mut b = Battery::new(Ok("/sys/class/power_supply/BAT0".to_string()), false, true).unwrap();
    let missing = std::io::Error::new(std::io::ErrorKind::NotFound, "gone");
    let r = b.read_energy_full(Ok("60000\n".to_string()), Err(Error::IO(missing)));
    assert!(matches!(r, Err(Error::IO(_))));
    assert_eq!((b.energy_full_design, b.energy_full), (60000, 0));
    let r = b.read_energy_full(Err(Error::Unknown), Ok("1\n".to_string()));
    assert!(matches!(r, Err(Error::Unknown)));
    assert_eq!((b.energy_full_design, b.energy_full), (60000, 0));
    assert!(matches!(b.read_charge(Err(Error::HdwNotFound)), Err(Error::HdwNotFound)));
    assert_eq!(b.capacity, 0);
    assert!(b.set_energy_full(Ok("123\n".to_string())).is_ok());
    assert_eq!(b.energy_full, 123);
    match b.condition_files() {
        Ok(f) => assert_eq!(f, ("energy_full_design", "energy_full")),
        Err(_) => panic!("energy battery has condition files"),
    }
    let c = Battery::new(Ok("x".to_string()), true, false).unwrap();
    assert!(matches!(c.condition_files(), Ok(("charge_full_design", "charge_full"))));
    let n = Battery::new(Ok("x".to_string()), false, false).unwrap();
    assert!(matches!(n.condition_files(), Err(Error::Unknown)));
}

#[test]
fn battery_errors_and_csv_open_failures() {
    let mut d = daemon_with_rules(all_rules());
    assert!(d.do_update_battery);
    d.battery_updated(&Err(Error::HdwNotFound), "HdwNotFound");
    assert!(d.do_update_battery);
    d.battery_updated(&Ok(()), "");
    assert!(d.do_update_battery);
    let before = d.logger.logs.len();
    d.battery_updated(&Err(Error::Unknown), "Unknown");
    assert!(!d.do_update_battery);
    assert_eq!(d.logger.logs.len(), before + 1);
    assert_eq!(d.logger.logs.last().unwrap().message, "Battery error: Unknown");
    assert_eq!(d.logger.logs.last().unwrap().severity, Severity::Error);
    d.battery_updated(&Err(Error::Unknown), "Unknown");
    assert_eq!(d.logger.logs.len(), before + 1);

    d.settings.log_csv = true;
    d.csv_open_failed();
    assert!(!d.settings.log_csv);
    assert_eq!(
        d.logger.logs.last().unwrap().message,
        "Could not open CSV file. Turning csv log mode off and continuing."
    );
}
