//! The right-hand side of an instruction, and how each shape of it is written.
use vstd::prelude::*;

verus! {

/// The text `key=value`.
pub open spec fn spec_pair(key: Seq<char>, value: Seq<char>) -> Seq<char> {
    key + seq!['='] + value
}

/// The text `key="value"`.
pub open spec fn spec_quoted_pair(key: Seq<char>, value: Seq<char>) -> Seq<char> {
    key + seq!['=', '"'] + value + seq!['"']
}

/// Writes `key=value`.
fn pair(key: &str, value: &str) -> (r: String)
    ensures
        r@ == spec_pair(key@, value@),
{
    proof {
        reveal_strlit("=");
    }
    let mut s = String::from_str(key);
    s.append("=");
    s.append(value);
    s
}

/// Writes `key="value"`.
fn quoted_pair(key: &str, value: &str) -> (r: String)
    ensures
        r@ == spec_quoted_pair(key@, value@),
{
    proof {
        reveal_strlit("=\"");
        reveal_strlit("\"");
    }
    let mut s = String::from_str(key);
    s.append("=\"");
    s.append(value);
    s.append("\"");
    assert(s@ =~= spec_quoted_pair(key@, value@));
    s
}

/// The value of an [`Instruction`](crate::Instruction).
#[derive(Debug, Clone, Ord, PartialOrd, Eq, PartialEq, Hash)]
pub enum Value {
    /// A singular value.
    Singular(String),
    /// A mapping (2 values).
    Mapping(String, String),
    /// A mapping with an optional key.
    OptionalKey(Option<String>, String),
    /// A mapping with an optional key. Once printed, the value won't have quotes.
    UnquotedOptionalKey(Option<String>, String),
    /// A mapping with an optional value.
    OptionalValue(String, Option<String>),
    /// A mapping with an optional value. Once printed, if the value exists, the value won't
    /// have quotes.
    UnquotedOptionalValue(String, Option<String>),
    /// A mapping with the value not having quotes.
    UnquotedMapping(String, String),
}

impl Value {
    /// The text this value is written as.
    pub open spec fn text(&self) -> Seq<char> {
        match self {
            Value::Singular(v) => v@,
            Value::Mapping(k, v) => spec_quoted_pair(k@, v@),
            Value::OptionalKey(k, v) => match k {
                Some(k) => spec_quoted_pair(k@, v@),
                None => v@,
            },
            Value::UnquotedOptionalKey(k, v) => match k {
                Some(k) => spec_pair(k@, v@),
                None => v@,
            },
            Value::OptionalValue(k, v) => match v {
                Some(v) => spec_quoted_pair(k@, v@),
                None => k@,
            },
            Value::UnquotedOptionalValue(k, v) => match v {
                Some(v) => spec_pair(k@, v@),
                None => k@,
            },
            Value::UnquotedMapping(k, v) => spec_pair(k@, v@),
        }
    }

    /// Returns `true` if the value is a [`Singular`](Self::Singular) value.
    pub fn is_singular(&self) -> (r: bool)
        ensures
            r == (self is Singular),
    {
        matches!(*self, Self::Singular(_))
    }

    /// Returns `true` if the value is a [`Mapping`](Self::Mapping) value.
    pub fn is_mapping(&self) -> (r: bool)
        ensures
            r == (self is Mapping),
    {
        matches!(*self, Self::Mapping(_, _))
    }

    /// Returns `true` if the value is an [`OptionalKey`](Self::OptionalKey) value.
    pub fn is_optional_key(&self) -> (r: bool)
        ensures
            r == (self is OptionalKey),
    {
        matches!(*self, Self::OptionalKey(_, _))
    }

    /// Returns `true` if the value is an [`UnquotedOptionalKey`](Self::UnquotedOptionalKey)
    /// value.
    pub fn is_unquoted_optional_key(&self) -> (r: bool)
        ensures
            r == (self is UnquotedOptionalKey),
    {
        matches!(*self, Self::UnquotedOptionalKey(_, _))
    }

    /// Returns `true` if the value is an [`OptionalValue`](Self::OptionalValue) value.
    pub fn is_optional_value(&self) -> (r: bool)
        ensures
            r == (self is OptionalValue),
    {
        matches!(*self, Self::OptionalValue(_, _))
    }

    /// Returns `true` if the value is an [`UnquotedOptionalValue`](Self::UnquotedOptionalValue)
    /// value.
    pub fn is_unquoted_optional_value(&self) -> (r: bool)
        ensures
            r == (self is UnquotedOptionalValue),
    {
        matches!(*self, Self::UnquotedOptionalValue(_, _))
    }

    /// Returns `true` if the value is an [`UnquotedMapping`](Self::UnquotedMapping) value.
    pub fn is_unquoted_mapping(&self) -> (r: bool)
        ensures
            r == (self is UnquotedMapping),
    {
        matches!(*self, Self::UnquotedMapping(_, _))
    }

    /// Writes the value: `key="value"` for the quoted shapes, `key=value` for the unquoted
    /// ones, and the one part that is there when the other is optional and absent.
    pub fn to_string(&self) -> (r: String)
        ensures
            r@ == self.text(),
    {
        match self {
            Value::Singular(v) => v.clone(),
            Value::Mapping(k, v) => quoted_pair(k.as_str(), v.as_str()),
            Value::OptionalKey(k, v) => match k {
                Some(k) => quoted_pair(k.as_str(), v.as_str()),
                None => v.clone(),
            },
            Value::UnquotedOptionalKey(k, v) => match k {
                Some(k) => pair(k.as_str(), v.as_str()),
                None => v.clone(),
            },
            Value::OptionalValue(k, v) => match v {
                Some(v) => quoted_pair(k.as_str(), v.as_str()),
                None => k.clone(),
            },
            Value::UnquotedOptionalValue(k, v) => match v {
                Some(v) => pair(k.as_str(), v.as_str()),
                None => k.clone(),
            },
            Value::UnquotedMapping(k, v) => pair(k.as_str(), v.as_str()),
        }
    }
}

} // verus!
