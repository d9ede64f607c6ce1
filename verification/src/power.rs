//! The AC adapter; the battery and the lid.
use vstd::prelude::*;

use crate::text::chars_eq;
use crate::text::chars_of;
use crate::text::pop_chars;
use crate::text::pop_last;

pub mod battery;
pub mod lid;

verus! {

/// The candidate files that report whether the AC adapter is online.
pub open spec fn power_source_path(i: int) -> Seq<char> {
    if i == 0 {
        "/sys/class/power_supply/AC/online"@
    } else if i == 1 {
        "/sys/class/power_supply/AC0/online"@
    } else if i == 2 {
        "/sys/class/power_supply/AC1/online"@
    } else {
        "/sys/class/power_supply/ACAD/online"@
    }
}

/// The candidate files, in the order in which they are tried.
pub fn power_source_paths() -> (v: Vec<&'static str>)
    ensures
        v.len() == 4,
        forall|i: int| 0 <= i < 4 ==> #[trigger] v@[i]@ == power_source_path(i),
{
    vec![
        "/sys/class/power_supply/AC/online",
        "/sys/class/power_supply/AC0/online",
        "/sys/class/power_supply/AC1/online",
        "/sys/class/power_supply/ACAD/online",
    ]
}

/// The first candidate that exists; `existing[i]` tells whether the
/// candidate `i` of `power_source_paths` exists.
pub fn set_best_path(existing: &Vec<bool>) -> (r: Option<&'static str>)
    requires
        existing.len() == 4,
    ensures
        match r {
            None => forall|i: int| 0 <= i < 4 ==> !existing@[i],
            Some(p) => exists|i: int|
                0 <= i < 4 && existing@[i] && (forall|j: int| 0 <= j < i ==> !existing@[j])
                    && p@ == power_source_path(i),
        },
{
    let paths = power_source_paths();
    let mut i: usize = 0;
    while i < 4
        invariant
            i <= 4,
            existing.len() == 4,
            paths.len() == 4,
            forall|k: int| 0 <= k < 4 ==> #[trigger] paths@[k]@ == power_source_path(k),
            forall|j: int| 0 <= j < i ==> !existing@[j],
        decreases 4 - i,
    {
        if existing[i] {
            let p = paths[i];
            assert(p@ == power_source_path(i as int));
            return Some(p);
        }
        i = i + 1;
    }
    None
}

/// Where the AC adapter's state is read from, if anywhere.
pub struct Power {
    pub best_path: &'static str,
    found_path: bool,
}

impl Power {
    pub closed spec fn found(&self) -> bool {
        self.found_path
    }

    pub closed spec fn path(&self) -> Seq<char> {
        self.best_path@
    }

    /// The adapter, reading from the first existing candidate file.
    pub fn new(existing: &Vec<bool>) -> (p: Power)
        requires
            existing.len() == 4,
        ensures
            p.found() <==> exists|i: int| 0 <= i < 4 && existing@[i],
            p.found() ==> exists|i: int|
                0 <= i < 4 && existing@[i] && (forall|j: int| 0 <= j < i ==> !existing@[j])
                    && p.path() == power_source_path(i),
    {
        match set_best_path(existing) {
            Some(path) => Power { best_path: path, found_path: true },
            None => Power { best_path: "", found_path: false },
        }
    }

    /// The file to read; `None` when no adapter was found, which reads as
    /// `Error::HdwNotFound`.
    pub fn source_path(&self) -> (p: Option<&'static str>)
        ensures
            match p {
                None => !self.found(),
                Some(s) => self.found() && s@ == self.path(),
            },
    {
        if self.found_path {
            Some(self.best_path)
        } else {
            None
        }
    }
}

/// Whether the adapter file's text says it is online: the text without its
/// last character (the newline) is `1`.
pub fn power_source_from(text: &str) -> (online: bool)
    ensures
        online == (pop_last(text@) == "1"@),
{
    let v = pop_chars(&chars_of(text));
    chars_eq(&v, &chars_of("1"))
}

} // verus!
