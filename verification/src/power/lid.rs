//! The laptop lid.
use vstd::prelude::*;

use crate::text::chars_of;
use crate::text::contains;
use crate::text::contains_chars;
use crate::text::occurs_at;

verus! {

/// Whether the lid is open, as the ACPI button reports it.
#[derive(PartialEq, Eq, Structural, Clone, Copy, Debug)]
pub enum LidState {
    Open,
    Closed,
    Unapplicable,
    Unknown,
}

pub open spec fn lid_state_name(l: LidState) -> Seq<char> {
    match l {
        LidState::Open => "open"@,
        LidState::Closed => "closed"@,
        LidState::Unapplicable => "unapplicable"@,
        LidState::Unknown => "unknown"@,
    }
}

impl LidState {
    /// The text of the lid state (its `Display`).
    pub fn name(&self) -> (s: &'static str)
        ensures
            s@ == lid_state_name(*self),
    {
        match self {
            LidState::Open => "open",
            LidState::Closed => "closed",
            LidState::Unapplicable => "unapplicable",
            LidState::Unknown => "unknown",
        }
    }
}

/// The files where the ACPI button driver may report the lid.
pub open spec fn lid_status_path(i: int) -> Seq<char> {
    if i == 0 {
        "/proc/acpi/button/lid/LID/state"@
    } else if i == 1 {
        "/proc/acpi/button/lid/LID0/state"@
    } else if i == 2 {
        "/proc/acpi/button/lid/LID1/state"@
    } else {
        "/proc/acpi/button/lid/LID2/state"@
    }
}

/// The files where the ACPI button driver may report the lid, in the order
/// in which they are looked up.
pub fn lid_status_paths() -> (v: Vec<&'static str>)
    ensures
        v.len() == 4,
        forall|i: int| 0 <= i < 4 ==> #[trigger] v@[i]@ == lid_status_path(i),
{
    vec![
        "/proc/acpi/button/lid/LID/state",
        "/proc/acpi/button/lid/LID0/state",
        "/proc/acpi/button/lid/LID1/state",
        "/proc/acpi/button/lid/LID2/state",
    ]
}

/// The first candidate of `lid_status_paths` that exists; `existing[i]`
/// tells whether the candidate `i` exists.
pub fn set_best_path(existing: &Vec<bool>) -> (r: Option<&'static str>)
    requires
        existing.len() == 4,
    ensures
        match r {
            None => forall|i: int| 0 <= i < 4 ==> !existing@[i],
            Some(p) => exists|i: int|
                0 <= i < 4 && existing@[i] && (forall|j: int| 0 <= j < i ==> !existing@[j])
                    && p@ == lid_status_path(i),
        },
{
    let paths = lid_status_paths();
    let mut i: usize = 0;
    while i < 4
        invariant
            i <= 4,
            existing.len() == 4,
            paths.len() == 4,
            forall|k: int| 0 <= k < 4 ==> #[trigger] paths@[k]@ == lid_status_path(k),
            forall|j: int| 0 <= j < i ==> !existing@[j],
        decreases 4 - i,
    {
        if existing[i] {
            let p = paths[i];
            assert(p@ == lid_status_path(i as int));
            return Some(p);
        }
        i = i + 1;
    }
    None
}

/// Where the lid state is read from, if anywhere.
pub struct Lid {
    pub best_path: &'static str,
    found_path: bool,
}

impl Lid {
    /// Whether a lid status file was found.
    pub closed spec fn found(&self) -> bool {
        self.found_path
    }

    /// The status file chosen, where one was.
    pub closed spec fn path(&self) -> Seq<char> {
        self.best_path@
    }

    /// The lid, reading from the first existing status file
    /// (`existing[i]` tells whether the candidate `i` of `lid_status_paths`
    /// exists); with none, the lid state reads as `Unapplicable`.
    pub fn new(existing: &Vec<bool>) -> (l: Lid)
        requires
            existing.len() == 4,
        ensures
            l.found() <==> exists|i: int| 0 <= i < 4 && existing@[i],
            l.found() ==> exists|i: int|
                0 <= i < 4 && existing@[i] && (forall|j: int| 0 <= j < i ==> !existing@[j])
                    && l.path() == lid_status_path(i),
            !l.found() ==> l.path().len() == 0,
    {
        match set_best_path(existing) {
            Some(lid) => Lid { best_path: lid, found_path: true },
            None => {
                proof {
                    reveal_strlit("");
                }
                Lid { best_path: "", found_path: false }
            },
        }
    }

    /// The file to read the lid state from; `None` when the state is
    /// `Unapplicable` without reading anything.
    pub fn state_path(&self) -> (p: Option<&'static str>)
        ensures
            match p {
                None => !self.found(),
                Some(s) => self.found() && s@ == self.path(),
            },
    {
        if self.found_path {
            Some(self.best_path)
        } else {
            None
        }
    }
}

/// The lid state that a status file's text reports.
pub open spec fn lid_state_of(text: Seq<char>) -> LidState {
    if contains(text, "open"@) {
        LidState::Open
    } else if contains(text, "closed"@) {
        LidState::Closed
    } else {
        LidState::Unknown
    }
}

/// The lid state that a status file's text reports: `open` if it says so,
/// else `closed` if it says so, else unknown.
pub fn lid_state_from(text: &str) -> (l: LidState)
    ensures
        l == lid_state_of(text@),
{
    let v = chars_of(text);
    if contains_chars(&v, &chars_of("open")) {
        LidState::Open
    } else if contains_chars(&v, &chars_of("closed")) {
        LidState::Closed
    } else {
        LidState::Unknown
    }
}

/// No two lid states share a name.
pub proof fn law_lid_state_names_distinct(a: LidState, b: LidState)
    ensures
        lid_state_name(a) == lid_state_name(b) ==> a == b,
{
    reveal_strlit("open");
    reveal_strlit("closed");
    reveal_strlit("unapplicable");
    reveal_strlit("unknown");
    assert("open"@.len() == 4);
    assert("closed"@.len() == 6);
    assert("unapplicable"@.len() == 12);
    assert("unknown"@.len() == 7);
}

/// The names of an open and a closed lid read back as those states, as the
/// ACPI button's status text does: a lid reported by its name is taken for
/// what it is.
pub proof fn law_lid_state_names_read_back(l: LidState)
    requires
        l == LidState::Open || l == LidState::Closed,
    ensures
        lid_state_of(lid_state_name(l)) == l,
{
    reveal_strlit("open");
    reveal_strlit("closed");
    let o = "open"@;
    let c = "closed"@;
    assert(c.len() == 6 && o.len() == 4);
    if l == LidState::Open {
        assert(o.subrange(0, 4) =~= o);
        assert(occurs_at(o, o, 0));
    } else {
        assert(c.subrange(0, 6) =~= c);
        assert(occurs_at(c, c, 0));
        assert forall|i: int| !occurs_at(c, o, i) by {
            if 0 <= i && i + 4 <= 6 {
                if i == 0 {
                    assert(c.subrange(0, 4)[0] != o[0]);
                } else if i == 1 {
                    assert(c.subrange(1, 5)[0] != o[0]);
                } else {
                    assert(c.subrange(2, 6)[1] != o[1]);
                }
            }
        }
    }
}

} // verus!
