//! The thermal zones of the machine.
use vstd::prelude::*;

use crate::error::Error;
use crate::text::chars_eq;
use crate::text::chars_of;
use crate::text::concat;
use crate::text::has_prefix;
use crate::text::parse_i32;
use crate::text::parse_int_chars;
use crate::text::pop_chars;
use crate::text::pop_last;
use crate::text::starts_with;
use crate::text::string_of;

verus! {

/// A thermal zone: its type, its sysfs directory, its temperature in
/// millidegrees and whether it is enabled.
#[derive(Debug)]
pub struct ThermalZone {
    pub name: String,
    pub path: String,
    pub temp: i32,
    pub enabled: bool,
}

/// Something whose readings can be updated.
pub trait Thermal {
    fn update(&mut self) -> Result<(), Error>;
}

impl Default for ThermalZone {
    fn default() -> (z: ThermalZone)
        ensures
            z.name@ == "unknown"@,
            z.path@ == "unknown"@,
            z.temp == 0,
            !z.enabled,
    {
        ThermalZone {
            name: String::from_str("unknown"),
            path: String::from_str("unknown"),
            temp: 0,
            enabled: false,
        }
    }
}

/// Whether an entry of `/sys/class/thermal/` is a thermal zone.
pub fn is_thermal_zone_path(path: &str) -> (r: bool)
    ensures
        r == has_prefix(path@, "/sys/class/thermal/thermal_zone"@),
{
    starts_with(&chars_of(path), &chars_of("/sys/class/thermal/thermal_zone"))
}

/// A file of a thermal zone's directory.
pub fn zone_file(path: &str, name: &str) -> (p: String)
    ensures
        p@ == path@ + name@,
{
    concat(path, name)
}

impl ThermalZone {
    /// The zone at `path`, from the texts of its `temp`, `type` and `mode`
    /// files: each without its newline; enabled when the mode is `enabled`.
    pub fn from_files(path: String, temp_text: &str, type_text: &str, mode_text: &str) -> (z:
        ThermalZone)
        requires
            parse_i32(pop_last(temp_text@)) is Some,
        ensures
            z.temp as int == parse_i32(pop_last(temp_text@))->0,
            z.name@ == pop_last(type_text@),
            z.enabled == (pop_last(mode_text@) == "enabled"@),
            z.path@ == path@,
    {
        let t = pop_chars(&chars_of(temp_text));
        let temp: i32 = match parse_int_chars(&t, true, -2147483648, 2147483647) {
            Some(x) => x as i32,
            None => 0,
        };
        let name = string_of(&pop_chars(&chars_of(type_text)));
        let enabled = chars_eq(&pop_chars(&chars_of(mode_text)), &chars_of("enabled"));
        ThermalZone { temp, name, enabled, path }
    }
}

} // verus!
