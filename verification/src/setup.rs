//! Warnings about environments in which the readings are wrong.
use vstd::prelude::*;

use crate::graph::lowercase;
use crate::graph::to_lowercase;
use crate::text::chars_of;
use crate::text::contains;
use crate::text::contains_chars;

verus! {

pub open spec fn wsl_text() -> Seq<char> {
    "ACS is intended to run on an actual linux distribution, the program will NOT work inside of Windows Subsystem for Linux Please install an actual distribution of Linux."@
}

pub open spec fn docker_text() -> Seq<char> {
    "Stats may be incorrect if running inside docker."@
}

/// The warning shown under the Windows Subsystem for Linux.
pub fn inside_wsl_message() -> (m: String)
    ensures
        m@ == wsl_text(),
{
    String::from_str(
        "ACS is intended to run on an actual linux distribution, \
        the program will NOT work inside of Windows Subsystem for Linux \
        Please install an actual distribution of Linux.",
    )
}

/// The warning shown inside a docker container.
pub fn inside_docker_message() -> (m: String)
    ensures
        m@ == docker_text(),
{
    String::from_str("Stats may be incorrect if running inside docker.")
}

/// The warnings to show at start: the WSL one, then the docker one, each
/// when it applies.
pub fn setup(inside_wsl: bool, inside_docker: bool) -> (warnings: Vec<String>)
    ensures
        warnings@.len() == (if inside_wsl { 1int } else { 0int }) + (if inside_docker { 1int } else { 0int }),
        inside_wsl ==> warnings@[0]@ == wsl_text(),
        inside_docker ==> warnings@.last()@ == docker_text(),
{
    let mut w: Vec<String> = Vec::new();
    if inside_wsl {
        w.push(inside_wsl_message());
    }
    if inside_docker {
        w.push(inside_docker_message());
    }
    w
}

/// Whether the kernel's version text (`/proc/version`) is that of the
/// Windows Subsystem for Linux: it names Microsoft, in any case.
pub fn is_wsl_kernel(version_text: &str) -> (r: bool)
    ensures
        r == contains(lowercase(version_text@), "microsoft"@),
{
    let lower = to_lowercase(version_text);
    contains_chars(&chars_of(lower.as_str()), &chars_of("microsoft"))
}

} // verus!
