//! The configuration of the rules: thresholds and which rules are active.
use vstd::prelude::*;

use crate::daemon::State;
use crate::text::chars_eq;
use crate::text::chars_of;
use crate::text::views;

verus! {

/// The configuration in use.
#[derive(Debug)]
pub struct Config {
    pub powersave_under: i8,
    pub overheat_threshold: i8,
    pub high_cpu_threshold: i8,
    pub high_cpu_time_needed: u64,
    pub active_rules: Vec<State>,
}

/// The configuration as read from the file: every value may be missing.
#[derive(Debug)]
pub struct SafeConfig {
    pub powersave_under: Option<i8>,
    pub overheat_threshold: Option<i8>,
    pub high_cpu_threshold: Option<i8>,
    pub high_cpu_time_needed: Option<u64>,
    pub active_rules: Option<Vec<String>>,
}

/// The rules active by default, in order.
pub open spec fn default_rules() -> Seq<State> {
    seq![State::BatteryLow, State::LidClosed, State::Charging, State::CpuUsageHigh]
}

/// Whether a configuration is the default one: 20 % battery, 80 degrees,
/// 50 % usage for 15 s, and all four rules.
pub open spec fn is_default_config(c: Config) -> bool {
    &&& c.powersave_under == 20
    &&& c.overheat_threshold == 80
    &&& c.high_cpu_threshold == 50
    &&& c.high_cpu_time_needed == 15
    &&& c.active_rules@ == default_rules()
}

/// The rule that a name in the configuration file selects.
pub open spec fn rule_of_name(name: Seq<char>) -> State {
    if name == "battery_percent_rule"@ {
        State::BatteryLow
    } else if name == "lid_open_rule"@ {
        State::LidClosed
    } else if name == "ac_charging_rule"@ {
        State::Charging
    } else if name == "cpu_usage_rule"@ {
        State::CpuUsageHigh
    } else {
        State::Unknown
    }
}

/// The value given, or the default where none is.
pub open spec fn or_default<T>(v: Option<T>, d: T) -> T {
    match v {
        Some(x) => x,
        None => d,
    }
}

/// The configuration that the file's values give: each value given replaces
/// the default; a list of rules replaces the default list, each name mapped
/// to its rule.
pub open spec fn filled_from(s: SafeConfig, c: Config) -> bool {
    &&& c.powersave_under == or_default(s.powersave_under, 20i8)
    &&& c.overheat_threshold == or_default(s.overheat_threshold, 80i8)
    &&& c.high_cpu_threshold == or_default(s.high_cpu_threshold, 50i8)
    &&& c.high_cpu_time_needed == or_default(s.high_cpu_time_needed, 15u64)
    &&& c.active_rules@ == match s.active_rules {
        Some(names) => views(names@).map_values(|n: Seq<char>| rule_of_name(n)),
        None => default_rules(),
    }
}

/// Return the config path
pub fn config_path() -> (p: String)
    ensures
        p@ == "/etc/acs/acs.toml"@,
{
    String::from_str("/etc/acs/acs.toml")
}

/// The configuration used when there is no file.
pub fn default_config() -> (c: Config)
    ensures
        is_default_config(c),
{
    let mut rules: Vec<State> = Vec::new();
    rules.push(State::BatteryLow);
    rules.push(State::LidClosed);
    rules.push(State::Charging);
    rules.push(State::CpuUsageHigh);
    assert(rules@ =~= default_rules());
    Config {
        powersave_under: 20,
        overheat_threshold: 80,
        high_cpu_threshold: 50,
        high_cpu_time_needed: 15,
        active_rules: rules,
    }
}

/// The rule that a name in the configuration file selects; an unknown name
/// selects `State::Unknown`.
pub fn rule_from_name(name: &str) -> (s: State)
    ensures
        s == rule_of_name(name@),
{
    let v = chars_of(name);
    if chars_eq(&v, &chars_of("battery_percent_rule")) {
        State::BatteryLow
    } else if chars_eq(&v, &chars_of("lid_open_rule")) {
        State::LidClosed
    } else if chars_eq(&v, &chars_of("ac_charging_rule")) {
        State::Charging
    } else if chars_eq(&v, &chars_of("cpu_usage_rule")) {
        State::CpuUsageHigh
    } else {
        State::Unknown
    }
}

impl SafeConfig {
    /// A file with no values (what an unreadable file counts as).
    pub fn empty() -> (s: SafeConfig)
        ensures
            s.powersave_under is None,
            s.overheat_threshold is None,
            s.high_cpu_threshold is None,
            s.high_cpu_time_needed is None,
            s.active_rules is None,
    {
        SafeConfig {
            powersave_under: None,
            overheat_threshold: None,
            high_cpu_threshold: None,
            high_cpu_time_needed: None,
            active_rules: None,
        }
    }

    /// The full configuration: the defaults, with every value the file
    /// gives put in their place.
    pub fn safe_fill_config(&mut self) -> (c: Config)
        ensures
            *final(self) == *old(self),
            filled_from(*old(self), c),
    {
        let mut base = default_config();
        if let Some(pu) = self.powersave_under {
            base.powersave_under = pu;
        }
        if let Some(ot) = self.overheat_threshold {
            base.overheat_threshold = ot;
        }
        if let Some(hc) = self.high_cpu_threshold {
            base.high_cpu_threshold = hc;
        }
        if let Some(ht) = self.high_cpu_time_needed {
            base.high_cpu_time_needed = ht;
        }
        if let Some(ars) = &self.active_rules {
            let mut rules: Vec<State> = Vec::new();
            let mut i: usize = 0;
            while i < ars.len()
                invariant
                    i <= ars.len(),
                    rules@ == views(ars@).take(i as int).map_values(
                        |n: Seq<char>| rule_of_name(n),
                    ),
                decreases ars.len() - i,
            {
                let r = rule_from_name(ars[i].as_str());
                rules.push(r);
                assert(views(ars@).take(i + 1) =~= views(ars@).take(i as int).push(ars@[i as int]@));
                assert(rules@ =~= views(ars@).take(i + 1).map_values(|n: Seq<char>| rule_of_name(n)));
                i = i + 1;
            }
            assert(views(ars@).take(ars.len() as int) =~= views(ars@));
            base.active_rules = rules;
        }
        base
    }
}

/// The configuration in use: the file's, filled in from the defaults, or
/// the defaults where there is no file (`opened` is `None`).
pub fn get_config(opened: Option<SafeConfig>) -> (c: Config)
    ensures
        match opened {
            Some(s) => filled_from(s, c),
            None => is_default_config(c),
        },
{
    match opened {
        Some(mut s) => s.safe_fill_config(),
        None => default_config(),
    }
}


/// The name under which a rule is written to the configuration file.
pub open spec fn rule_name(s: State) -> Seq<char> {
    match s {
        State::BatteryLow => "battery_percent_rule"@,
        State::LidClosed => "lid_open_rule"@,
        State::Charging => "ac_charging_rule"@,
        State::CpuUsageHigh => "cpu_usage_rule"@,
        State::Normal => "Normal"@,
        State::Unknown => "Unknown"@,
    }
}

/// A file with no values gives the default configuration.
pub proof fn law_empty_file_is_default(s: SafeConfig, c: Config)
    requires
        s.powersave_under is None,
        s.overheat_threshold is None,
        s.high_cpu_threshold is None,
        s.high_cpu_time_needed is None,
        s.active_rules is None,
        filled_from(s, c),
    ensures
        is_default_config(c),
{
}

/// The names of the four rules read back as the rules they name, and
/// nothing else reads as one of them: a configuration file written with
/// the rules' names gives back those rules.
pub proof fn law_rule_names_round_trip(s: State)
    ensures
        (s == State::BatteryLow || s == State::LidClosed || s == State::Charging || s
            == State::CpuUsageHigh) ==> rule_of_name(rule_name(s)) == s,
{
    reveal_strlit("battery_percent_rule");
    reveal_strlit("lid_open_rule");
    reveal_strlit("ac_charging_rule");
    reveal_strlit("cpu_usage_rule");
    assert("battery_percent_rule"@[0] != "lid_open_rule"@[0]);
    assert("battery_percent_rule"@[0] != "ac_charging_rule"@[0]);
    assert("battery_percent_rule"@[0] != "cpu_usage_rule"@[0]);
    assert("lid_open_rule"@[0] != "ac_charging_rule"@[0]);
    assert("lid_open_rule"@[0] != "cpu_usage_rule"@[0]);
    assert("ac_charging_rule"@[0] != "cpu_usage_rule"@[0]);
}

} // verus!
