//! The scaling governors that the daemon sets.
use vstd::prelude::*;

verus! {

/// Governor
///
/// https://www.kernel.org/doc/html/v4.14/admin-guide/pm/cpufreq.html#generic-scaling-governors
#[derive(PartialEq, Eq, Structural, Clone, Copy, Debug)]
pub enum Gov {
    Powersave,
    Performance,
    Schedutil,
}

/// The kernel's name of a governor.
pub open spec fn gov_name(g: Gov) -> Seq<char> {
    match g {
        Gov::Powersave => "powersave"@,
        Gov::Performance => "performance"@,
        Gov::Schedutil => "schedutil"@,
    }
}

impl Gov {
    /// The kernel's name of the governor (its `Display`).
    pub fn name(&self) -> (s: &'static str)
        ensures
            s@ == gov_name(*self),
    {
        match self {
            Gov::Powersave => "powersave",
            Gov::Performance => "performance",
            Gov::Schedutil => "schedutil",
        }
    }
}

} // verus!
