//! The namespace that leads every line.
use vstd::prelude::*;

verus! {

/// The prefix. Usually [`Cargo`](Self::Cargo).
#[derive(Debug, Clone, Ord, PartialOrd, Eq, PartialEq, Hash)]
pub enum Prefix {
    /// The cargo prefix. 99% of the time this is used.
    Cargo,
    /// Other, custom prefixes.
    Custom(String),
}

impl Prefix {
    /// The label this prefix is written as.
    pub open spec fn text(&self) -> Seq<char> {
        match self {
            Prefix::Cargo => "cargo"@,
            Prefix::Custom(label) => label@,
        }
    }

    /// Writes the label verbatim.
    pub fn to_string(&self) -> (r: String)
        ensures
            r@ == self.text(),
    {
        match self {
            Prefix::Cargo => String::from_str("cargo"),
            Prefix::Custom(label) => label.clone(),
        }
    }
}

impl Default for Prefix {
    /// The default prefix is [`Cargo`](Self::Cargo).
    fn default() -> (r: Self)
        ensures
            r is Cargo,
    {
        Prefix::Cargo
    }
}

} // verus!
