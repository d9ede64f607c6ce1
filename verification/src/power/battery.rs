//! The laptop battery as the power supply class reports it.
use vstd::prelude::*;

use crate::error::Error;
use crate::text::chars_of;
use crate::text::concat;
use crate::text::parse_i32;
use crate::text::parse_i8;
use crate::text::parse_int_chars;
use crate::text::pop_chars;
use crate::text::pop_last;

verus! {

/// Describes how the battery condition was obtained
#[derive(PartialEq, Eq, Structural, Clone, Copy, Debug)]
pub enum BatteryConditionType {
    Energy,
    Charge,
    NoData,
}

impl Default for BatteryConditionType {
    fn default() -> (t: BatteryConditionType)
        ensures
            t == BatteryConditionType::NoData,
    {
        BatteryConditionType::NoData
    }
}

/// Describes the current status of the battery
#[derive(PartialEq, Eq, Structural, Clone, Copy, Debug)]
pub enum BatteryStatus {
    Charging,
    Discharging,
    Full,
    Unknown,
}

impl Default for BatteryStatus {
    fn default() -> (s: BatteryStatus)
        ensures
            s == BatteryStatus::Unknown,
    {
        BatteryStatus::Unknown
    }
}

/// A structure for holding information about a battery
/// This structure follows an update model where information within the structure gets updated upon
/// calling the update method
#[derive(Debug)]
pub struct Battery {
    pub sys_parent_path: String,
    pub capacity: i8,
    pub condition_type: BatteryConditionType,
    pub condition: i8,
    pub charge_full: i32,
    pub charge_full_design: i32,
    pub energy_full: i32,
    pub energy_full_design: i32,
    pub status: BatteryStatus,
}

/// A battery of which nothing has been read.
pub open spec fn is_blank_battery(b: Battery) -> bool {
    &&& b.sys_parent_path@.len() == 0
    &&& b.capacity == 0
    &&& b.condition_type == BatteryConditionType::NoData
    &&& b.condition == 0
    &&& b.charge_full == 0
    &&& b.charge_full_design == 0
    &&& b.energy_full == 0
    &&& b.energy_full_design == 0
    &&& b.status == BatteryStatus::Unknown
}

impl Default for Battery {
    fn default() -> (b: Battery)
        ensures
            is_blank_battery(b),
    {
        Battery {
            sys_parent_path: String::new(),
            capacity: 0,
            condition_type: BatteryConditionType::NoData,
            condition: 0,
            charge_full: 0,
            charge_full_design: 0,
            energy_full: 0,
            energy_full_design: 0,
            status: BatteryStatus::Unknown,
        }
    }
}

/// Whether a glob pattern compiles into a matcher: `globset::Glob::new`
/// parses it and a `globset::GlobSetBuilder` holding it builds.
pub uninterp spec fn glob_valid(pattern: Seq<char>) -> bool;

/// Whether a path matches a glob pattern that compiles (what
/// `globset::GlobSet::is_match` answers for the set of that one glob).
pub uninterp spec fn glob_accepts(pattern: Seq<char>, path: Seq<char>) -> bool;

/// A character that a glob takes literally and no regular expression
/// treats specially: an ASCII letter or digit, `/` or `_`.
pub open spec fn plain_glob_char(c: char) -> bool {
    ('a' <= c && c <= 'z') || ('A' <= c && c <= 'Z') || ('0' <= c && c <= '9') || c == '/' || c
        == '_'
}

/// A short pattern of plain characters ending in one `*`: a literal prefix.
pub open spec fn prefix_glob(pattern: Seq<char>) -> bool {
    &&& 1 <= pattern.len() <= 64
    &&& pattern.last() == '*'
    &&& forall|i: int| 0 <= i < pattern.len() - 1 ==> plain_glob_char(#[trigger] pattern[i])
}

/// `globset::Glob::new` followed by `globset::GlobSetBuilder::build` on the
/// set of that one glob: whether both succeed, named `glob_valid`. A short
/// literal prefix followed by `*` parses and builds.
#[verifier::external_body]
fn glob_compiles(pattern: &str) -> (r: bool)
    ensures
        r == glob_valid(pattern@),
        prefix_glob(pattern@) ==> r,
{
    match globset::Glob::new(pattern) {
        Ok(glob) => globset::GlobSetBuilder::new().add(glob).build().is_ok(),
        Err(_) => false,
    }
}

/// `globset::GlobSet::is_match` on the set built from a pattern that
/// compiles (see `glob_compiles`): its answer is named `glob_accepts`.
#[verifier::external_body]
fn glob_is_match(pattern: &str, path: &str) -> (r: bool)
    requires
        glob_valid(pattern@),
    ensures
        r == glob_accepts(pattern@, path@),
{
    match globset::Glob::new(pattern) {
        Ok(glob) => match globset::GlobSetBuilder::new().add(glob).build() {
            Ok(set) => set.is_match(path),
            Err(_) => false,
        },
        Err(_) => false,
    }
}

/// The first of `entries` (paths, in the order the directory lists them)
/// that `pattern` accepts.
pub open spec fn first_accepted(pattern: Seq<char>, entries: Seq<String>) -> Option<int>
    decreases entries.len(),
{
    if entries.len() == 0 {
        None
    } else if glob_accepts(pattern, entries[0]@) {
        Some(0)
    } else {
        match first_accepted(pattern, entries.drop_first()) {
            Some(i) => Some(i + 1),
            None => None,
        }
    }
}

/// Looks a device up among the entries of its parent directory: the first
/// entry that `sysfs_parent_path` followed by `hdw_glob` accepts as a glob,
/// or `Error::HdwNotFound`.
pub fn get_path_by_glob(sysfs_parent_path: &str, hdw_glob: &str, entries: &Vec<String>) -> (r:
    Result<String, Error>)
    requires
        glob_valid(sysfs_parent_path@ + hdw_glob@),
    ensures
        match r {
            Ok(p) => exists|i: int|
                first_accepted(sysfs_parent_path@ + hdw_glob@, entries@) == Some(i) && p@
                    == entries@[i]@,
            Err(e) => first_accepted(sysfs_parent_path@ + hdw_glob@, entries@) is None
                && e is HdwNotFound,
        },
{
    let glob_path = concat(sysfs_parent_path, hdw_glob);
    let ghost pat = glob_path@;
    let mut i: usize = 0;
    assert(entries@.skip(0) =~= entries@);
    while i < entries.len()
        invariant
            i <= entries.len(),
            glob_valid(pat),
            pat == glob_path@,
            pat == sysfs_parent_path@ + hdw_glob@,
            first_accepted(pat, entries@) == match first_accepted(pat, entries@.skip(i as int)) {
                Some(k) => Some(k + i),
                None => None,
            },
        decreases entries.len() - i,
    {
        assert(entries@.skip(i as int)[0] == entries@[i as int]);
        if glob_is_match(glob_path.as_str(), entries[i].as_str()) {
            assert(first_accepted(pat, entries@.skip(i as int)) == Some(0int));
            assert(first_accepted(pat, entries@) == Some(i as int));
            let found = entries[i].clone();
            assert(found@ == entries@[i as int]@);
            return Ok(found);
        }
        assert(entries@.skip(i as int).drop_first() =~= entries@.skip(i + 1));
        i = i + 1;
    }
    assert(entries@.skip(i as int) =~= Seq::<String>::empty());
    Err(Error::HdwNotFound)
}

/// The battery's directory among the entries of the power supply class
/// (`/sys/class/power_supply/BAT*`); `Error::HdwNotFound` where there is
/// none.
pub fn battery_path(entries: &Vec<String>) -> (r: Result<String, Error>)
    ensures
        glob_valid("/sys/class/power_supply/BAT*"@),
        match r {
            Ok(p) => exists|i: int|
                first_accepted("/sys/class/power_supply/BAT*"@, entries@) == Some(i) && p@
                    == entries@[i]@,
            Err(e) => e is HdwNotFound && first_accepted(
                "/sys/class/power_supply/BAT*"@,
                entries@,
            ) is None,
        },
{
    let parent = "/sys/class/power_supply/";
    let pattern = concat(parent, "BAT*");
    proof {
        reveal_strlit("/sys/class/power_supply/");
        reveal_strlit("BAT*");
        reveal_strlit("/sys/class/power_supply/BAT*");
        assert(pattern@ =~= "/sys/class/power_supply/BAT*"@);
        let p = pattern@;
        assert forall|i: int| 0 <= i < p.len() - 1 implies plain_glob_char(#[trigger] p[i]) by {
            assert(plain_glob_char(p[i]));
        }
        assert(prefix_glob(p));
    }
    if glob_compiles(pattern.as_str()) {
        get_path_by_glob(parent, "BAT*", entries)
    } else {
        Err(Error::HdwNotFound)
    }
}

/// A file of the battery's directory.
pub open spec fn battery_file(dir: Seq<char>, name: Seq<char>) -> Seq<char> {
    dir + "/"@ + name
}

/// The condition type that the files present give: energy where
/// `energy_full` exists, else charge where `charge_full` exists.
pub open spec fn condition_type_of(charge_full_is_file: bool, energy_full_is_file: bool)
    -> BatteryConditionType {
    if energy_full_is_file {
        BatteryConditionType::Energy
    } else if charge_full_is_file {
        BatteryConditionType::Charge
    } else {
        BatteryConditionType::NoData
    }
}

impl Battery {
    /// The path of a file of the battery's directory `dir`.
    pub fn file(dir: &str, name: &str) -> (p: String)
        ensures
            p@ == battery_file(dir@, name@),
    {
        let d = concat(dir, "/");
        concat(d.as_str(), name)
    }

    /// The battery found at `path` (see `battery_path`), with the condition
    /// type that its files give. A lookup that failed on an I/O error (the
    /// directory could not be listed) gives that error; any other failure is
    /// `Error::HdwNotFound`.
    pub fn new(path: Result<String, Error>, charge_full_is_file: bool, energy_full_is_file: bool)
        -> (r: Result<Battery, Error>)
        ensures
            match r {
                Ok(b) => path matches Ok(p) && b.sys_parent_path@ == p@ && b.condition_type
                    == condition_type_of(charge_full_is_file, energy_full_is_file) && b.capacity
                    == 0 && b.condition == 0 && b.status == BatteryStatus::Unknown && b.charge_full
                    == 0 && b.charge_full_design == 0 && b.energy_full == 0
                    && b.energy_full_design == 0,
                Err(e) => match path {
                    Err(Error::IO(x)) => e == Error::IO(x),
                    Err(_) => e is HdwNotFound,
                    Ok(_) => false,
                },
            },
    {
        match path {
            Ok(p) => {
                let mut obj = Battery::default();
                obj.sys_parent_path = p;
                obj.check_condition_type(charge_full_is_file, energy_full_is_file);
                Ok(obj)
            },
            Err(Error::IO(x)) => Err(Error::IO(x)),
            Err(_) => Err(Error::HdwNotFound),
        }
    }

    /// Sets the condition type from the files present: energy where
    /// `energy_full` is a file, else charge where `charge_full` is one; with
    /// neither, the type is left as it was.
    pub fn check_condition_type(&mut self, charge_full_is_file: bool, energy_full_is_file: bool)
        ensures
            final(self).condition_type == if !charge_full_is_file && !energy_full_is_file {
                old(self).condition_type
            } else {
                condition_type_of(charge_full_is_file, energy_full_is_file)
            },
            *final(self) == (Battery { condition_type: final(self).condition_type, ..*old(self) }),
    {
        if charge_full_is_file {
            self.condition_type = BatteryConditionType::Charge;
        }
        if energy_full_is_file {
            self.condition_type = BatteryConditionType::Energy;
        }
    }

    /// Sets the charge from the outcome of reading the `capacity` file: a
    /// read error is passed on and changes nothing.
    pub fn read_charge(&mut self, capacity_file: Result<String, Error>) -> (r: Result<(), Error>)
        requires
            capacity_file matches Ok(t) ==> parse_i8(pop_last(t@)) is Some,
        ensures
            match capacity_file {
                Ok(t) => r is Ok && final(self).capacity as int == parse_i8(pop_last(t@))->0,
                Err(e) => r matches Err(x) && x == e && final(self).capacity == old(self).capacity,
            },
            *final(self) == (Battery { capacity: final(self).capacity, ..*old(self) }),
    {
        let text = match capacity_file {
            Ok(t) => t,
            Err(e) => {
                return Err(e);
            },
        };
        self.capacity = sysfs_value_i8(text.as_str());
        Ok(())
    }

    /// Sets the design full energy from the outcome of reading its file.
    pub fn set_energy_full_design(&mut self, file: Result<String, Error>) -> (r: Result<(), Error>)
        requires
            file matches Ok(t) ==> parse_i32(pop_last(t@)) is Some,
        ensures
            match file {
                Ok(t) => r is Ok && final(self).energy_full_design as int == parse_i32(
                    pop_last(t@),
                )->0,
                Err(e) => r matches Err(x) && x == e && final(self).energy_full_design == old(
                    self,
                ).energy_full_design,
            },
            *final(self) == (Battery {
                energy_full_design: final(self).energy_full_design,
                ..*old(self)
            }),
    {
        let text = match file {
            Ok(t) => t,
            Err(e) => {
                return Err(e);
            },
        };
        self.energy_full_design = sysfs_value_i32(text.as_str());
        Ok(())
    }

    /// Sets the present full energy from the outcome of reading its file.
    pub fn set_energy_full(&mut self, file: Result<String, Error>) -> (r: Result<(), Error>)
        requires
            file matches Ok(t) ==> parse_i32(pop_last(t@)) is Some,
        ensures
            match file {
                Ok(t) => r is Ok && final(self).energy_full as int == parse_i32(pop_last(t@))->0,
                Err(e) => r matches Err(x) && x == e && final(self).energy_full == old(
                    self,
                ).energy_full,
            },
            *final(self) == (Battery { energy_full: final(self).energy_full, ..*old(self) }),
    {
        let text = match file {
            Ok(t) => t,
            Err(e) => {
                return Err(e);
            },
        };
        self.energy_full = sysfs_value_i32(text.as_str());
        Ok(())
    }

    /// Sets the design full charge from the outcome of reading its file.
    pub fn set_charge_full_design(&mut self, file: Result<String, Error>) -> (r: Result<(), Error>)
        requires
            file matches Ok(t) ==> parse_i32(pop_last(t@)) is Some,
        ensures
            match file {
                Ok(t) => r is Ok && final(self).charge_full_design as int == parse_i32(
                    pop_last(t@),
                )->0,
                Err(e) => r matches Err(x) && x == e && final(self).charge_full_design == old(
                    self,
                ).charge_full_design,
            },
            *final(self) == (Battery {
                charge_full_design: final(self).charge_full_design,
                ..*old(self)
            }),
    {
        let text = match file {
            Ok(t) => t,
            Err(e) => {
                return Err(e);
            },
        };
        self.charge_full_design = sysfs_value_i32(text.as_str());
        Ok(())
    }

    /// Sets the present full charge from the outcome of reading its file.
    pub fn set_charge_full(&mut self, file: Result<String, Error>) -> (r: Result<(), Error>)
        requires
            file matches Ok(t) ==> parse_i32(pop_last(t@)) is Some,
        ensures
            match file {
                Ok(t) => r is Ok && final(self).charge_full as int == parse_i32(pop_last(t@))->0,
                Err(e) => r matches Err(x) && x == e && final(self).charge_full == old(
                    self,
                ).charge_full,
            },
            *final(self) == (Battery { charge_full: final(self).charge_full, ..*old(self) }),
    {
        let text = match file {
            Ok(t) => t,
            Err(e) => {
                return Err(e);
            },
        };
        self.charge_full = sysfs_value_i32(text.as_str());
        Ok(())
    }

    /// The files the condition is read from, design first: the energy files
    /// or the charge files, as the condition type says; `Error::Unknown`
    /// without a condition type.
    pub fn condition_files(&self) -> (r: Result<(&'static str, &'static str), Error>)
        ensures
            match self.condition_type {
                BatteryConditionType::Energy => r matches Ok(f) && f.0@ == "energy_full_design"@
                    && f.1@ == "energy_full"@,
                BatteryConditionType::Charge => r matches Ok(f) && f.0@ == "charge_full_design"@
                    && f.1@ == "charge_full"@,
                BatteryConditionType::NoData => r matches Err(e) && e is Unknown,
            },
    {
        match self.condition_type {
            BatteryConditionType::Energy => Ok(("energy_full_design", "energy_full")),
            BatteryConditionType::Charge => Ok(("charge_full_design", "charge_full")),
            BatteryConditionType::NoData => Err(Error::Unknown),
        }
    }

    /// Reads the design and present full energy, in that order, from the
    /// outcomes of reading their files: the first read error is passed on,
    /// after what was read before it has been stored.
    pub fn read_energy_full(&mut self, design: Result<String, Error>, full: Result<String, Error>)
        -> (r: Result<(), Error>)
        requires
            design matches Ok(t) ==> parse_i32(pop_last(t@)) is Some,
            full matches Ok(t) ==> parse_i32(pop_last(t@)) is Some,
        ensures
            match design {
                Err(e) => r matches Err(x) && x == e && *final(self) == *old(self),
                Ok(d) => {
                    &&& final(self).energy_full_design as int == parse_i32(pop_last(d@))->0
                    &&& match full {
                        Ok(f) => r is Ok && final(self).energy_full as int == parse_i32(
                            pop_last(f@),
                        )->0,
                        Err(e) => r matches Err(x) && x == e && final(self).energy_full == old(
                            self,
                        ).energy_full,
                    }
                    &&& *final(self) == (Battery {
                        energy_full_design: final(self).energy_full_design,
                        energy_full: final(self).energy_full,
                        ..*old(self)
                    })
                },
            },
    {
        self.set_energy_full_design(design)?;
        self.set_energy_full(full)?;
        Ok(())
    }

    /// Reads the design and present full charge, in that order, from the
    /// outcomes of reading their files: the first read error is passed on,
    /// after what was read before it has been stored.
    pub fn read_charge_full(&mut self, design: Result<String, Error>, full: Result<String, Error>)
        -> (r: Result<(), Error>)
        requires
            design matches Ok(t) ==> parse_i32(pop_last(t@)) is Some,
            full matches Ok(t) ==> parse_i32(pop_last(t@)) is Some,
        ensures
            match design {
                Err(e) => r matches Err(x) && x == e && *final(self) == *old(self),
                Ok(d) => {
                    &&& final(self).charge_full_design as int == parse_i32(pop_last(d@))->0
                    &&& match full {
                        Ok(f) => r is Ok && final(self).charge_full as int == parse_i32(
                            pop_last(f@),
                        )->0,
                        Err(e) => r matches Err(x) && x == e && final(self).charge_full == old(
                            self,
                        ).charge_full,
                    }
                    &&& *final(self) == (Battery {
                        charge_full_design: final(self).charge_full_design,
                        charge_full: final(self).charge_full,
                        ..*old(self)
                    })
                },
            },
    {
        self.set_charge_full_design(design)?;
        self.set_charge_full(full)?;
        Ok(())
    }
}

/// The integer of a sysfs text of which one is known to hold an `i32`.
fn sysfs_value_i32(text: &str) -> (v: i32)
    requires
        parse_i32(pop_last(text@)) is Some,
    ensures
        v as int == parse_i32(pop_last(text@))->0,
{
    let d = pop_chars(&chars_of(text));
    match parse_int_chars(&d, true, -2147483648, 2147483647) {
        Some(x) => x as i32,
        None => 0,
    }
}

/// The integer of a sysfs text of which one is known to hold an `i8`.
fn sysfs_value_i8(text: &str) -> (v: i8)
    requires
        parse_i8(pop_last(text@)) is Some,
    ensures
        v as int == parse_i8(pop_last(text@))->0,
{
    let d = pop_chars(&chars_of(text));
    match parse_int_chars(&d, true, -128, 127) {
        Some(x) => x as i8,
        None => 0,
    }
}

} // verus!
