//! Logging the cores to a CSV file, up to a size.
use vstd::prelude::*;

use crate::cpu::CPU;
use crate::daemon::csv_size_limit;
use crate::daemon::log_entries;
use crate::daemon::lemma_log_entries_push;
use crate::logger::Interface;
use crate::logger::Logger;
use crate::logger::Severity;
use crate::text::concat;
use crate::text::dec_int;
use crate::text::fmt_i64;

verus! {

/// Writes rows of core readings to a CSV file until it reaches its cutoff.
pub struct CSVWriter {
    log_size_cutoff: i32,
    path: String,
    enabled: bool,
    logger: Logger,
}

/// The cores whose readings make the rows of one write.
pub struct Column {
    pub cpus: Vec<CPU>,
}

impl CSVWriter {
    pub closed spec fn cutoff(&self) -> i32 {
        self.log_size_cutoff
    }

    pub closed spec fn is_enabled(&self) -> bool {
        self.enabled
    }

    pub closed spec fn file(&self) -> Seq<char> {
        self.path@
    }

    /// The messages the writer has logged.
    pub closed spec fn log(&self) -> Seq<(Seq<char>, Severity)> {
        log_entries(self.logger.logs@)
    }

    /// A writer to `path`, enabled, with a cutoff in MB.
    pub fn new(path: String, log_size_cutoff: i32) -> (w: CSVWriter)
        ensures
            w.file() == path@,
            w.cutoff() == log_size_cutoff,
            w.is_enabled(),
            w.log().len() == 0,
    {
        let w = CSVWriter { log_size_cutoff, path, enabled: true, logger: Logger::new() };
        assert(log_entries(w.logger.logs@) =~= Seq::<(Seq<char>, Severity)>::empty());
        w
    }

    /// The file written to.
    pub fn path(&self) -> (p: &str)
        ensures
            p@ == self.file(),
    {
        self.path.as_str()
    }

    /// Whether a write (`write` and `init` decide alike) may append its rows
    /// to the file, which holds `file_len` bytes: only while enabled and under
    /// the cutoff. At the cutoff it logs that the maximum was reached and
    /// disables itself.
    pub fn write(&mut self, file_len: u64) -> (go: bool)
        requires
            -2147 <= old(self).cutoff() <= 2147,
        ensures
            go == (old(self).is_enabled() && file_len < csv_size_limit(old(self).cutoff())),
            !old(self).is_enabled() ==> !final(self).is_enabled() && final(self).log() == old(self).log(),
            final(self).cutoff() == old(self).cutoff(),
            final(self).file() == old(self).file(),
            old(self).is_enabled() ==> final(self).is_enabled() == go,
            final(self).log() == if old(self).is_enabled() && !go {
                old(self).log().push(
                    (
                        "Max log file size reached of "@ + dec_int(old(self).cutoff() as int)
                            + "MB"@,
                        Severity::Warning,
                    ),
                )
            } else {
                old(self).log()
            },
    {
        if !self.enabled {
            return false;
        }
        let limit: u64 = (self.log_size_cutoff * 1_000_000) as u64;
        if file_len < limit {
            true
        } else {
            let a = concat("Max log file size reached of ", fmt_i64(self.log_size_cutoff as i64).as_str());
            let m = concat(a.as_str(), "MB");
            let ghost before = self.logger.logs@;
            self.logger.log(m.as_str(), Severity::Warning);
            proof {
                lemma_log_entries_push(before, self.logger.logs@);
            }
            self.enabled = false;
            false
        }
    }

    /// Logs that the rows could not be written.
    pub fn write_failed(&mut self)
        ensures
            final(self).log() == old(self).log().push(("Could not write to CSV file."@, Severity::Warning)),
            final(self).is_enabled() == old(self).is_enabled(),
            final(self).cutoff() == old(self).cutoff(),
            final(self).file() == old(self).file(),
    {
        let ghost before = self.logger.logs@;
        self.logger.log("Could not write to CSV file.", Severity::Warning);
        proof {
            lemma_log_entries_push(before, self.logger.logs@);
        }
    }
}

} // verus!
