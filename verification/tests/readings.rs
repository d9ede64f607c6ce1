use autoclockspeed::cpu::CPU;
use autoclockspeed::daemon::daemon_init;
use autoclockspeed::daemon::Daemon;
use autoclockspeed::daemon::Probe;
use autoclockspeed::display::battery_status_cell;
use autoclockspeed::display::battery_status_line;
use autoclockspeed::power::battery::BatteryStatus;
use autoclockspeed::power::lid::Lid;
use autoclockspeed::power::Power;
use autoclockspeed::settings::DefaultTesting;
use autoclockspeed::settings::Settings;
use colored::Colorize;
use nix::unistd::Uid;
use autoclockspeed::config::default_config;
use autoclockspeed::config::Config;
use autoclockspeed::system::check_available_governors;
use autoclockspeed::system::check_cpu_name;
use autoclockspeed::system::check_turbo_enabled;
use autoclockspeed::system::list_cpu_governors;
use autoclockspeed::system::list_cpu_speeds;
use autoclockspeed::system::sysfs_int;
use autoclockspeed::system::sysfs_str;
use autoclockspeed::system::cpus_from_entries;
use autoclockspeed::system::get_name_from_cpu_info;
use autoclockspeed::system::interpret_govs;
use autoclockspeed::system::interpret_turbo;
use autoclockspeed::system::list_cpu_temp;
use autoclockspeed::network::parse_packet;
use autoclockspeed::network::Packet;
use autoclockspeed::Error;

/// The beginning of a sample `/proc/cpuinfo` of a four-core machine (the
/// tests read no files of the machine they run on).
const MACHINE_CPU_INFO: &str = "processor\t: 0
vendor_id\t: GenuineIntel
cpu family\t: 6
model\t\t: 207
model name\t: Intel(R) Xeon(R) Processor
stepping\t: 2
microcode\t: 0x1
cpu MHz\t\t: 2100.000
cache size\t: 307200 KB
physical id\t: 0
siblings\t: 4
core id\t\t: 0
cpu cores\t: 4
";

/// The entries of `/sys/devices/system/cpu` on that machine.
const MACHINE_CPU_ENTRIES: [&str; 19] = [
    "cpu0", "cpu1", "cpu2", "cpu3", "cpufreq", "cpuidle", "enabled", "hotplug", "isolated",
    "kernel_max", "modalias", "offline", "online", "possible", "power", "present", "smt",
    "uevent", "vulnerabilities",
];

#[test]
fn default_config_unit_test() {
    let config: Config = default_config();
    assert!(config.powersave_under > 0 && config.powersave_under < 100);
}

#[test]
fn get_name_from_cpu_info_unit_test() -> Result<(), Error> {
    let cpu_info = String::from(
        "
processor	: 0
vendor_id	: GenuineIntel
cpu family	: 6
model		: 158
model name	: Intel(R) Core(TM) i5-7600K CPU @ 3.80GHz
stepping	: 9
microcode	: 0xea
processor	: 1
vendor_id	: GenuineIntel
cpu family	: 6
model		: 158
model name	: Intel(R) Core(TM) i5-7600K CPU @ 3.80GHz
stepping	: 9
microcode	: 0xea
processor	: 2
vendor_id	: GenuineIntel
cpu family	: 6
model		: 158
model name	: Intel(R) Core(TM) i5-7600K CPU @ 3.80GHz
stepping	: 9
microcode	: 0xea
processor	: 3
vendor_id	: GenuineIntel
cpu family	: 6
model		: 158
model name	: Intel(R) Core(TM) i5-7600K CPU @ 3.80GHz
stepping	: 9
microcode	: 0xea
            ",
    );
    let name = get_name_from_cpu_info(cpu_info)?;
    assert_eq!(name, "Intel(R) Core(TM) i5-7600K CPU @ 3.80GHz");
    Ok(())
}

#[test]
fn check_cpu_name_unit_test() -> Result<(), Error> {
    let name: String = check_cpu_name(MACHINE_CPU_INFO.to_string())?;
    assert_eq!(name, "Intel(R) Xeon(R) Processor");
    assert!(check_cpu_name(MACHINE_CPU_INFO.to_string())?.len() > 0);
    Ok(())
}

#[test]
fn interpret_turbo_unit_test() -> Result<(), Error> {
    let mut is_turbo = String::from("0\n");
    assert!(interpret_turbo(&mut is_turbo)?);

    let mut is_turbo = String::from("2\n");
    assert!(!interpret_turbo(&mut is_turbo)?);
    Ok(())
}

#[test]
fn interpret_govs_unit_test() -> Result<(), Error> {
    let mut governors_string = String::from("performance powersave\n");
    let govs = interpret_govs(&mut governors_string)?;
    assert_eq!(vec!["performance", "powersave"], govs);

    let mut governors_string = String::from("performance\n");
    let govs = interpret_govs(&mut governors_string)?;
    assert_eq!(vec!["performance"], govs);

    let mut governors_string = String::from("calvin hobbes\n");
    let govs = interpret_govs(&mut governors_string)?;
    assert_eq!(vec!["calvin", "hobbes"], govs);
    Ok(())
}

#[test]
fn parse_packet_test() {
    assert!(parse_packet("0|test").unwrap() == Packet::Hello("test".to_string()));
    assert!(parse_packet("1|test|5").unwrap() == Packet::HelloResponse("test".to_string(), 5));
    assert!(parse_packet("0|test").unwrap() != Packet::HelloResponse("test".to_string(), 5));
}

#[test]
fn list_cpu_temp_acs_test() {
    let temps: Vec<i32> = list_cpu_temp(&laptop_cpus());
    assert_eq!(temps.len(), 4);

    for x in list_cpu_temp(&laptop_cpus()) {
        assert!(x > -100);
    }
}

/// What the daemon finds on that machine: a power supply directory without
/// a battery or an adapter, no lid, and its four cores.
fn machine_probe() -> Probe {
    let names: Vec<String> = MACHINE_CPU_ENTRIES.iter().map(|s| s.to_string()).collect();
    Probe {
        has_battery: true,
        is_root: Uid::effective().is_root(),
        battery: None,
        power: Power::new(&vec![false, false, false, false]),
        ac: None,
        lid: Lid::new(&vec![false, false, false, false]),
        cpus: cpus_from_entries(&names),
    }
}

fn testing_settings(edit: bool) -> Settings {
    let mut settings = Settings::default_testing();
    settings.edit = edit;
    settings.log_size_cutoff = 20;
    settings
}

/// The part of the monitor's screen above the turbo line, painted as the
/// program paints it.
fn preprint(daemon: &Daemon) -> String {
    let title = "Name\tMax\tMin\tFreq\tTemp\tUsage\tGovernor\n".bold().to_string();
    let mut rows = String::new();
    for c in &daemon.cpus {
        let (temp, _) = c.temp_cell();
        rows.push_str(&c.row(&c.name.bold().to_string(), &c.freq_cell().green().to_string(), &temp, "0.00%"));
    }
    let (cell, _) = battery_status_cell(true, daemon.battery.capacity, BatteryStatus::Unknown);
    daemon.preprint_render(&title, &rows, &battery_status_line(&cell))
}

#[test]
fn daemon_init_force_to_monit_integration_test() {
    let daemon = daemon_init(testing_settings(true), default_config(), machine_probe());

    if Uid::effective().is_root() {
        assert!(daemon.settings.edit);
    } else {
        assert!(!daemon.settings.edit);
    }
}

#[test]
fn preprint_render_test_edit_integration_test() {
    colored::control::set_override(true);
    let daemon = daemon_init(testing_settings(true), default_config(), machine_probe());
    let preprint = preprint(&daemon);
    if Uid::effective().is_root() {
        assert!(preprint.contains("Auto Clock Speed daemon has been initialized in \u{1b}[31medit\u{1b}[0m mode with a delay of 1ms normally and 2ms when on battery"));
    } else {
        assert!(preprint.contains("Auto Clock Speed daemon has been initialized in \u{1b}[33mmonitor\u{1b}[0m mode with a delay of 1ms normally and 2ms when on battery"));
    }
    assert!(preprint.contains("Name\tMax\tMin\tFreq\tTemp\tUsage\tGovernor\n"));
    assert!(preprint.contains("Hz"));
    assert!(preprint.contains("cpu"));
    assert!(preprint.contains('C'));
    assert!(preprint.contains("Battery: "));
}

#[test]
fn preprint_render_test_monit_integration_test() {
    colored::control::set_override(true);
    let daemon = daemon_init(testing_settings(false), default_config(), machine_probe());
    let preprint = preprint(&daemon);
    assert!(preprint.contains("Auto Clock Speed daemon has been initialized in \u{1b}[33mmonitor\u{1b}[0m mode with a delay of 1ms normally and 2ms when on battery\n"));
    assert!(preprint.contains("Name\tMax\tMin\tFreq\tTemp\tUsage\tGovernor\n"));
    assert!(preprint.contains("Hz"));
    assert!(preprint.contains("cpu"));
    assert!(preprint.contains('C'));
    assert!(preprint.contains("Battery: "));
}

#[test]
fn render_cpu_unit_test() {
    let mut new = CPU::new("cpu1".to_string(), 1);
    new.gov = "Unknown".to_string();
    let (temp, _) = new.temp_cell();
    let out = new.row(&new.name, &new.freq_cell(), &temp, "0.00%");
    assert!(out.contains("Unknown"));
    assert!(out.contains("cpu1"));
}

/// The cpufreq, thermal and intel_pstate files of a sample four-core laptop
/// (the machine above has none): `intel_pstate/no_turbo`,
/// `cpu0/cpufreq/scaling_available_governors`, and each core's
/// `scaling_max_freq`, `scaling_min_freq`, `scaling_cur_freq`,
/// `scaling_governor` and thermal zone `temp`.
const LAPTOP_NO_TURBO: &str = "0\n";
const LAPTOP_AVAILABLE_GOVERNORS: &str = "performance powersave\n";
const LAPTOP_MAX_FREQ: &str = "4000000\n";
const LAPTOP_MIN_FREQ: &str = "400000\n";
const LAPTOP_CUR_FREQ: [&str; 4] = ["2800000\n", "1600000\n", "3400000\n", "799998\n"];
const LAPTOP_GOVERNOR: [&str; 4] = ["powersave\n", "powersave\n", "performance\n", "powersave\n"];
const LAPTOP_TEMP: [&str; 4] = ["45000\n", "47000\n", "52000\n", "44000\n"];

/// The sample laptop's cores, listed from the directory entries and read
/// from their files with the sysfs readers.
fn laptop_cpus() -> Vec<CPU> {
    let names: Vec<String> = MACHINE_CPU_ENTRIES.iter().map(|s| s.to_string()).collect();
    let mut cpus = cpus_from_entries(&names);
    for (i, cpu) in cpus.iter_mut().enumerate() {
        cpu.max_freq = sysfs_int(LAPTOP_MAX_FREQ).unwrap_or(0);
        cpu.min_freq = sysfs_int(LAPTOP_MIN_FREQ).unwrap_or(0);
        cpu.cur_freq = sysfs_int(LAPTOP_CUR_FREQ[i]).unwrap_or(0);
        cpu.cur_temp = sysfs_int(LAPTOP_TEMP[i]).unwrap_or(-1);
        cpu.gov = sysfs_str(LAPTOP_GOVERNOR[i]);
    }
    cpus
}

#[test]
fn list_cpus_acs_test() {
    let cpus: Vec<CPU> = laptop_cpus();
    assert_eq!(cpus.len(), 4);

    for x in laptop_cpus() {
        assert!(x.name.len() > 0);
        assert!(x.max_freq > 0);
        assert!(x.min_freq > 0);

        assert!(x.cur_freq > 0);
        assert!(x.cur_temp > -100);

        assert!(x.gov == "powersave" || x.gov == "performance");
    }
}

#[test]
fn check_turbo_enabled_acs_test() -> Result<(), Error> {
    let turbo: bool = check_turbo_enabled(Ok(LAPTOP_NO_TURBO.to_string()))?;
    assert!(turbo);
    assert!(!check_turbo_enabled(Ok("1\n".to_string()))?);
    Ok(())
}

#[test]
fn check_available_governors_acs_test() -> Result<(), Error> {
    let govs: Vec<String> = check_available_governors(Ok(LAPTOP_AVAILABLE_GOVERNORS.to_string()))?;
    assert!(!govs.is_empty());

    for x in check_available_governors(Ok(LAPTOP_AVAILABLE_GOVERNORS.to_string()))? {
        assert!(x == "powersave" || x == "performance");
    }
    Ok(())
}

#[test]
fn list_cpu_speeds_acs_test() -> Result<(), Error> {
    let speeds: Vec<i32> = list_cpu_speeds(&laptop_cpus());
    assert_eq!(speeds.len(), 4);

    for x in list_cpu_speeds(&laptop_cpus()) {
        assert!(x > 0);
    }
    Ok(())
}

#[test]
fn list_cpu_governors_acs_test() {
    let govs: Vec<String> = list_cpu_governors(&laptop_cpus());
    assert_eq!(govs.len(), 4);

    for x in list_cpu_governors(&laptop_cpus()) {
        assert!(x == "powersave" || x == "performance");
    }
}
