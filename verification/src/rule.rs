//! Rules as named objects.
use vstd::prelude::*;

verus! {

/// What a rule does.
pub trait Actions {
    fn run(&self);

    fn check(&self);
}

/// A named, documented rule.
pub struct Rule {
    pub name: String,
    pub docs: String,
}

} // verus!
