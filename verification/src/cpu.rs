//! A CPU core: what is known of it and the sysfs files that hold it.
use vstd::prelude::*;

use crate::text::chars_of;
use crate::text::concat;
use crate::text::dec_int;
use crate::text::dec_nat;
use crate::text::fmt_u64;
use crate::text::lemma_parse_dec_int;
use crate::text::parse_i32;
use crate::text::pop_last;
use crate::text::fmt_i64;
use crate::text::replace_all;
use crate::text::replace_chars;
use crate::text::string_of;

verus! {

/// Data relating to the CPU. The usage figure, a float, is kept beside it by
/// the program that measures it.
#[derive(Clone, Debug)]
pub struct CPU {
    pub name: String,
    pub number: i8,
    pub max_freq: i32,
    pub min_freq: i32,
    pub cur_freq: i32,
    pub cur_temp: i32,
    pub gov: String,
}

/// Paths that can be written to
/// This is an enum that keeps that values that are allowed
#[derive(PartialEq, Eq, Structural, Clone, Copy, Debug)]
pub enum WritableValue {
    Min,
    Max,
    Gov,
}

/// The cpufreq file, under the core's sysfs directory, of a writable value.
pub open spec fn writable_sub_path(v: WritableValue) -> Seq<char> {
    match v {
        WritableValue::Max => "cpufreq/scaling_max_freq"@,
        WritableValue::Min => "cpufreq/scaling_min_freq"@,
        WritableValue::Gov => "cpufreq/scaling_governor"@,
    }
}

/// A file under the sysfs directory of the core named `name`.
pub open spec fn cpu_file(name: Seq<char>, sub: Seq<char>) -> Seq<char> {
    "/sys/devices/system/cpu/"@ + name + "/"@ + sub
}

/// The thermal zone file, `sub`, that belongs to the core named `name`:
/// its name with `cpu` replaced by `thermal_zone`.
pub open spec fn thermal_file(name: Seq<char>, sub: Seq<char>) -> Seq<char> {
    "/sys/class/thermal/"@ + replace_all(name, "cpu"@, "thermal_zone"@) + "/"@ + sub
}

/// The text written for a value of a core.
pub open spec fn written_text(c: CPU, v: WritableValue) -> Seq<char> {
    match v {
        WritableValue::Max => dec_int(c.max_freq as int),
        WritableValue::Min => dec_int(c.min_freq as int),
        WritableValue::Gov => c.gov@,
    }
}

fn join3(a: &str, b: &str, c: &str) -> (s: String)
    ensures
        s@ == a@ + b@ + c@,
{
    let ab = concat(a, b);
    concat(ab.as_str(), c)
}

impl CPU {
    /// A core with the given name and number, and placeholder values until
    /// it is read.
    pub fn new(name: String, number: i8) -> (c: CPU)
        ensures
            c.name@ == name@,
            c.number == number,
            c.max_freq == 0,
            c.min_freq == 0,
            c.cur_freq == 0,
            c.cur_temp == 0,
            c.gov@ == "Unknown"@,
    {
        CPU {
            name,
            number,
            max_freq: 0,
            min_freq: 0,
            cur_freq: 0,
            cur_temp: 0,
            gov: String::from_str("Unknown"),
        }
    }

    /// The path of a file under the core's sysfs directory.
    pub fn sysfs_path(&self, sub: &str) -> (p: String)
        ensures
            p@ == cpu_file(self.name@, sub@),
    {
        let a = join3("/sys/devices/system/cpu/", self.name.as_str(), "/");
        let p = concat(a.as_str(), sub);
        assert(p@ =~= cpu_file(self.name@, sub@));
        p
    }

    /// The path of the core's thermal zone file `sub_path`.
    pub fn temp_path(&self, sub_path: &str) -> (p: String)
        ensures
            p@ == thermal_file(self.name@, sub_path@),
    {
        let cpu_word = chars_of("cpu");
        proof {
            reveal_strlit("cpu");
        }
        let zone = replace_chars(&chars_of(self.name.as_str()), &cpu_word, &chars_of("thermal_zone"));
        let zone_s = string_of(&zone);
        let a = join3("/sys/class/thermal/", zone_s.as_str(), "/");
        let p = concat(a.as_str(), sub_path);
        assert(p@ =~= thermal_file(self.name@, sub_path@));
        p
    }

    /// Where a value is written and the text written there: the value of
    /// the field, in decimal for the frequencies.
    pub fn write_value(&self, value: WritableValue) -> (w: (String, String))
        ensures
            w.0@ == cpu_file(self.name@, writable_sub_path(value)),
            w.1@ == written_text(*self, value),
    {
        let sub_path: &str;
        let to_write: String;
        match value {
            WritableValue::Max => {
                sub_path = "cpufreq/scaling_max_freq";
                to_write = fmt_i64(self.max_freq as i64);
            },
            WritableValue::Min => {
                sub_path = "cpufreq/scaling_min_freq";
                to_write = fmt_i64(self.min_freq as i64);
            },
            WritableValue::Gov => {
                sub_path = "cpufreq/scaling_governor";
                to_write = self.gov.clone();
            },
        }
        (self.sysfs_path(sub_path), to_write)
    }

    /// Sets the maximum frequency; returns the write that applies it.
    pub fn set_max(&mut self, max: i32) -> (w: (String, String))
        ensures
            *final(self) == (CPU { max_freq: max, ..*old(self) }),
            w.0@ == cpu_file(old(self).name@, writable_sub_path(WritableValue::Max)),
            w.1@ == dec_int(max as int),
    {
        self.max_freq = max;
        self.write_value(WritableValue::Max)
    }

    /// Sets the minimum frequency; returns the write that applies it.
    pub fn set_min(&mut self, min: i32) -> (w: (String, String))
        ensures
            *final(self) == (CPU { min_freq: min, ..*old(self) }),
            w.0@ == cpu_file(old(self).name@, writable_sub_path(WritableValue::Min)),
            w.1@ == dec_int(min as int),
    {
        self.min_freq = min;
        self.write_value(WritableValue::Min)
    }

    /// Sets the governor; returns the write that applies it.
    pub fn set_gov(&mut self, gov: String) -> (w: (String, String))
        ensures
            final(self).gov@ == gov@,
            *final(self) == (CPU { gov: final(self).gov, ..*old(self) }),
            w.0@ == cpu_file(old(self).name@, writable_sub_path(WritableValue::Gov)),
            w.1@ == gov@,
    {
        self.gov = gov;
        self.write_value(WritableValue::Gov)
    }
}

impl CPU {
    /// The core's row of the CSV log: the time of the reading (seconds since
    /// the Unix epoch), the core's fields, and its usage as measured beside
    /// it.
    pub fn csv_row(&self, epoch_secs: u64, usage: &str) -> (s: String)
        ensures
            s@ == dec_nat(epoch_secs as nat) + ","@ + self.name@ + ","@ + dec_int(
                self.number as int,
            ) + ","@ + dec_int(self.max_freq as int) + ","@ + dec_int(self.min_freq as int)
                + ","@ + dec_int(self.cur_freq as int) + ","@ + dec_int(self.cur_temp as int)
                + ","@ + usage@ + ","@ + self.gov@ + "\n"@,
    {
        let a = join3(fmt_u64(epoch_secs).as_str(), ",", self.name.as_str());
        let b = join3(a.as_str(), ",", fmt_i64(self.number as i64).as_str());
        let c = join3(b.as_str(), ",", fmt_i64(self.max_freq as i64).as_str());
        let d = join3(c.as_str(), ",", fmt_i64(self.min_freq as i64).as_str());
        let e = join3(d.as_str(), ",", fmt_i64(self.cur_freq as i64).as_str());
        let f = join3(e.as_str(), ",", fmt_i64(self.cur_temp as i64).as_str());
        let g = join3(f.as_str(), ",", usage);
        let h = join3(g.as_str(), ",", self.gov.as_str());
        let r = concat(h.as_str(), "\n");
        assert(r@ =~= dec_nat(epoch_secs as nat) + ","@ + self.name@ + ","@ + dec_int(
            self.number as int,
        ) + ","@ + dec_int(self.max_freq as int) + ","@ + dec_int(self.min_freq as int) + ","@
            + dec_int(self.cur_freq as int) + ","@ + dec_int(self.cur_temp as int) + ","@ + usage@
            + ","@ + self.gov@ + "\n"@);
        r
    }
}

/// The header of the CSV log.
pub fn csv_header() -> (s: &'static str)
    ensures
        s@ == "epoch,name,number,max_freq,min_freq,cur_freq,cur_temp,cur_usage,gov\n"@,
{
    "epoch,name,number,max_freq,min_freq,cur_freq,cur_temp,cur_usage,gov\n"
}

/// What is written to a core reads back as written: the kernel's file then
/// holds the text and a newline, and the sysfs readers (`sysfs_int`,
/// `sysfs_str`) take that back to the frequency or the governor.
pub proof fn law_written_value_reads_back(c: CPU, v: WritableValue)
    ensures
        v == WritableValue::Max ==> parse_i32(pop_last(written_text(c, v).push('\n'))) == Some(
            c.max_freq as int,
        ),
        v == WritableValue::Min ==> parse_i32(pop_last(written_text(c, v).push('\n'))) == Some(
            c.min_freq as int,
        ),
        v == WritableValue::Gov ==> pop_last(written_text(c, v).push('\n')) == c.gov@,
{
    assert(written_text(c, v).push('\n').drop_last() =~= written_text(c, v));
    match v {
        WritableValue::Max => lemma_parse_dec_int(c.max_freq as int, true, i32::MIN as int, i32::MAX as int),
        WritableValue::Min => lemma_parse_dec_int(c.min_freq as int, true, i32::MIN as int, i32::MAX as int),
        WritableValue::Gov => {},
    }
}

} // verus!
