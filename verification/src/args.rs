//! The settings that the `run` and `monitor` commands start the daemon with,
//! from their command-line options.
use vstd::prelude::*;

use crate::graph::get_graph_type;
use crate::graph::graph_type_of;
use crate::graph::lowercase;
use crate::graph::GraphType;
use crate::settings::Settings;

verus! {

/// The graph that the `--graph` option selects: none without the option.
pub open spec fn graph_option(graph_type: Option<String>) -> GraphType {
    match graph_type {
        Some(g) => graph_type_of(lowercase(g@)),
        None => GraphType::Hidden,
    }
}

/// The delay given, or the default.
pub open spec fn delay_or(delay: Option<u64>, default: u64) -> u64 {
    match delay {
        Some(d) => d,
        None => default,
    }
}

/// The options of the `run` and `monitor` commands as the daemon's
/// settings: 1000 ms between updates and 5000 ms on battery unless given,
/// the battery delay replaced by the regular one while a graph is shown,
/// CSV logging when a file is given (else the directory `/tmp/acs/`).
pub open spec fn settings_from_options(
    s: Settings,
    verbose: bool,
    edit: bool,
    hook: bool,
    delay: Option<u64>,
    delay_battery: Option<u64>,
    no_animation: bool,
    graph_type: Option<String>,
    commit: bool,
    csv_file: Option<String>,
    log_size_cutoff: i32,
    show_settings: bool,
) -> bool {
    &&& s.verbose == verbose
    &&& s.edit == edit
    &&& s.hook == hook
    &&& s.delay == delay_or(delay, 1000)
    &&& s.delay_battery == if graph_option(graph_type) != GraphType::Hidden {
        delay_or(delay, 1000)
    } else {
        delay_or(delay_battery, 5000)
    }
    &&& s.animation == !no_animation
    &&& s.graph == graph_option(graph_type)
    &&& s.commit == commit
    &&& !s.testing
    &&& !s.testing_logging
    &&& s.log_csv == csv_file is Some
    &&& s.csv_file@ == match csv_file {
        Some(f) => f@,
        None => "/tmp/acs/"@,
    }
    &&& s.log_size_cutoff == log_size_cutoff
    &&& s.show_settings == show_settings
}

fn settings_for(
    verbose: bool,
    edit: bool,
    hook: bool,
    delay: Option<u64>,
    delay_battery: Option<u64>,
    no_animation: bool,
    graph_type: Option<String>,
    commit: bool,
    csv_file: Option<String>,
    log_size_cutoff: i32,
    show_settings: bool,
) -> (s: Settings)
    ensures
        settings_from_options(
            s,
            verbose,
            edit,
            hook,
            delay,
            delay_battery,
            no_animation,
            graph_type,
            commit,
            csv_file,
            log_size_cutoff,
            show_settings,
        ),
{
    let parsed_graph_type = match &graph_type {
        Some(gt) => get_graph_type(gt.as_str()),
        None => GraphType::Hidden,
    };
    let regular_delay = match delay {
        Some(d) => d,
        None => 1000,
    };
    let mut effective_delay_battery = match delay_battery {
        Some(d) => d,
        None => 5000,
    };
    if parsed_graph_type != GraphType::Hidden {
        effective_delay_battery = regular_delay;
    }
    let log_csv = csv_file.is_some();
    let file = match csv_file {
        Some(f) => f,
        None => String::from_str("/tmp/acs/"),
    };
    proof {
        reveal_strlit("/tmp/acs/");
    }
    Settings {
        verbose,
        delay: regular_delay,
        delay_battery: effective_delay_battery,
        edit,
        hook,
        animation: !no_animation,
        graph: parsed_graph_type,
        commit,
        testing: false,
        testing_logging: false,
        csv_file: file,
        log_csv,
        log_size_cutoff,
        show_settings,
    }
}

/// The settings of the `run` command: edit mode, shown unless `--quiet`.
pub fn run_settings(
    quiet: bool,
    show_settings: bool,
    delay: Option<u64>,
    delay_battery: Option<u64>,
    no_animation: bool,
    graph_type: Option<String>,
    commit: bool,
    csv_file: Option<String>,
    log_size_cutoff: i32,
) -> (s: Settings)
    ensures
        settings_from_options(
            s,
            !quiet,
            true,
            false,
            delay,
            delay_battery,
            no_animation,
            graph_type,
            commit,
            csv_file,
            log_size_cutoff,
            show_settings,
        ),
{
    settings_for(
        !quiet,
        true,
        false,
        delay,
        delay_battery,
        no_animation,
        graph_type,
        commit,
        csv_file,
        log_size_cutoff,
        show_settings,
    )
}

/// The settings of the `monitor` command: monitor mode, always shown,
/// hooked to a running daemon when asked.
pub fn monitor_settings(
    delay: Option<u64>,
    delay_battery: Option<u64>,
    no_animation: bool,
    show_settings: bool,
    hook: bool,
    graph_type: Option<String>,
    commit: bool,
    csv_file: Option<String>,
    log_size_cutoff: i32,
) -> (s: Settings)
    ensures
        settings_from_options(
            s,
            true,
            false,
            hook,
            delay,
            delay_battery,
            no_animation,
            graph_type,
            commit,
            csv_file,
            log_size_cutoff,
            show_settings,
        ),
{
    settings_for(
        true,
        false,
        hook,
        delay,
        delay_battery,
        no_animation,
        graph_type,
        commit,
        csv_file,
        log_size_cutoff,
        show_settings,
    )
}

} // verus!
