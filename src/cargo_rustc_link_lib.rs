//! The kinds of library that `rustc-link-lib` names.
use vstd::prelude::*;

verus! {

/// A kind for [`cargo_rustc_link_lib`](crate::BuildScript::cargo_rustc_link_lib).
#[derive(Debug, Copy, Clone, Ord, PartialOrd, Eq, PartialEq, Hash)]
pub enum Kind {
    /// Known to the compiler as [`dylib`](Self::DYNAMIC_LIBRARY).
    DynamicLibrary,
    /// Known to the compiler as [`static`](Self::STATIC).
    Static,
    /// Known to the compiler as [`framework`](Self::FRAMEWORK).
    Framework,
}

impl Kind {
    /// Known to this library as [`DynamicLibrary`](Self::DynamicLibrary).
    pub const DYNAMIC_LIBRARY: &'static str = "dylib";

    /// Known to this library as [`Static`](Self::Static).
    pub const STATIC: &'static str = "static";

    /// Known to this library as [`Framework`](Self::Framework).
    pub const FRAMEWORK: &'static str = "framework";

    /// The label the compiler knows this kind by.
    pub open spec fn text(self) -> Seq<char> {
        match self {
            Kind::DynamicLibrary => "dylib"@,
            Kind::Static => "static"@,
            Kind::Framework => "framework"@,
        }
    }

    /// Returns the label the compiler knows this kind by.
    pub fn label(self) -> (r: &'static str)
        ensures
            r@ == self.text(),
    {
        match self {
            Kind::DynamicLibrary => Self::DYNAMIC_LIBRARY,
            Kind::Static => Self::STATIC,
            Kind::Framework => Self::FRAMEWORK,
        }
    }
}

impl From<Kind> for &'static str {
    fn from(kind: Kind) -> (r: &'static str)
        ensures
            r@ == kind.text(),
    {
        kind.label()
    }
}

/// What `from` returns is stated by its own `ensures`, over [`Kind::text`].
impl vstd::std_specs::convert::FromSpecImpl<Kind> for &'static str {
    open spec fn obeys_from_spec() -> bool {
        false
    }

    open spec fn from_spec(kind: Kind) -> &'static str {
        arbitrary()
    }
}

impl From<Kind> for String {
    fn from(kind: Kind) -> (r: String)
        ensures
            r@ == kind.text(),
    {
        String::from_str(kind.label())
    }
}

/// What `from` returns is stated by its own `ensures`, over [`Kind::text`].
impl vstd::std_specs::convert::FromSpecImpl<Kind> for String {
    open spec fn obeys_from_spec() -> bool {
        false
    }

    open spec fn from_spec(kind: Kind) -> String {
        arbitrary()
    }
}

} // verus!
