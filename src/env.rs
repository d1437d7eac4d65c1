//! Names of the variables cargo sets for a build script, where the name is built from
//! a feature, a `cfg` option or a package field. Reading them is left to the caller.
use vstd::prelude::*;

verus! {

/// What `str::to_uppercase` returns for these characters.
pub uninterp spec fn uppercase_of(s: Seq<char>) -> Seq<char>;

/// Relies on `str::to_uppercase`: the result depends on the characters alone.
#[verifier::external_body]
fn uppercase(s: &str) -> (r: String)
    ensures
        r@ == uppercase_of(s@),
{
    s.to_uppercase()
}

/// `s` with every `-` written as `_`.
pub open spec fn underscored(s: Seq<char>) -> Seq<char> {
    s.map_values(|c: char| if c == '-' { '_' } else { c })
}

/// Relies on `str::replace`: each `-` becomes `_`, every other character stays in place.
#[verifier::external_body]
fn replace_dashes(s: &str) -> (r: String)
    ensures
        r@ == underscored(s@),
{
    s.replace('-', "_")
}

/// `scope` followed by `name` with `-` as `_`, upper-cased.
fn scoped(scope: &str, name: &str) -> (r: String)
    ensures
        r@ == scope@ + uppercase_of(underscored(name@)),
{
    let plain = replace_dashes(name);
    let upper = uppercase(plain.as_str());
    let mut r = String::from_str(scope);
    r.append(upper.as_str());
    r
}

/// The variable that is present for each activated feature of the package being built:
/// `CARGO_FEATURE_` and the feature's name, upper-cased, with `-` as `_`.
pub fn feature_var(name: &str) -> (r: String)
    ensures
        r@ == "CARGO_FEATURE_"@ + uppercase_of(underscored(name@)),
{
    scoped("CARGO_FEATURE_", name)
}

/// The variable that holds a configuration option of the package being built:
/// `CARGO_CFG_` and the option's name, upper-cased, with `-` as `_`.
pub fn cfg_var(cfg: &str) -> (r: String)
    ensures
        r@ == "CARGO_CFG_"@ + uppercase_of(underscored(cfg@)),
{
    scoped("CARGO_CFG_", cfg)
}

/// The variable that holds a package information field: `CARGO_PKG_` and the field's
/// name, upper-cased, with `-` as `_`.
pub fn pkg_var(variable: &str) -> (r: String)
    ensures
        r@ == "CARGO_PKG_"@ + uppercase_of(underscored(variable@)),
{
    scoped("CARGO_PKG_", variable)
}

} // verus!
