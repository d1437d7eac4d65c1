//! The kinds of library that `rustc-link-search` names.
use vstd::prelude::*;

verus! {

/// A kind for [`cargo_rustc_link_search`](crate::BuildScript::cargo_rustc_link_search).
#[derive(Debug, Copy, Clone, Ord, PartialOrd, Eq, PartialEq, Hash)]
pub enum Kind {
    /// Known to the compiler as [`dependency`](Self::DEPENDENCY).
    Dependency,
    /// Known to the compiler as [`crate`](Self::CRATE).
    Crate,
    /// Known to the compiler as [`native`](Self::NATIVE).
    Native,
    /// Known to the compiler as [`framework`](Self::FRAMEWORK).
    Framework,
    /// Known to the compiler as [`all`](Self::ALL).
    All,
}

impl Kind {
    /// Known to this library as [`Dependency`](Self::Dependency).
    pub const DEPENDENCY: &'static str = "dependency";

    /// Known to this library as [`Crate`](Self::Crate).
    pub const CRATE: &'static str = "crate";

    /// Known to this library as [`Native`](Self::Native).
    pub const NATIVE: &'static str = "native";

    /// Known to this library as [`Framework`](Self::Framework).
    pub const FRAMEWORK: &'static str = "framework";

    /// Known to this library as [`All`](Self::All).
    pub const ALL: &'static str = "all";

    /// The label the compiler knows this kind by.
    pub open spec fn text(self) -> Seq<char> {
        match self {
            Kind::Dependency => "dependency"@,
            Kind::Crate => "crate"@,
            Kind::Native => "native"@,
            Kind::Framework => "framework"@,
            Kind::All => "all"@,
        }
    }

    /// Returns the label the compiler knows this kind by.
    pub fn label(self) -> (r: &'static str)
        ensures
            r@ == self.text(),
    {
        match self {
            Kind::Dependency => Self::DEPENDENCY,
            Kind::Crate => Self::CRATE,
            Kind::Native => Self::NATIVE,
            Kind::Framework => Self::FRAMEWORK,
            Kind::All => Self::ALL,
        }
    }
}

impl From<Kind> for &'static str {
    fn from(kind: Kind) -> (r: &'static str)
        ensures
            r@ == kind.text(),
    {
        kind.label()
    }
}

/// What `from` returns is stated by its own `ensures`, over [`Kind::text`].
impl vstd::std_specs::convert::FromSpecImpl<Kind> for &'static str {
    open spec fn obeys_from_spec() -> bool {
        false
    }

    open spec fn from_spec(kind: Kind) -> &'static str {
        arbitrary()
    }
}

impl From<Kind> for String {
    fn from(kind: Kind) -> (r: String)
        ensures
            r@ == kind.text(),
    {
        String::from_str(kind.label())
    }
}

/// What `from` returns is stated by its own `ensures`, over [`Kind::text`].
impl vstd::std_specs::convert::FromSpecImpl<Kind> for String {
    open spec fn obeys_from_spec() -> bool {
        false
    }

    open spec fn from_spec(kind: Kind) -> String {
        arbitrary()
    }
}

} // verus!
