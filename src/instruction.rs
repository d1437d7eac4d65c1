//! One directive: a prefix, an optional name and a value.
use crate::prefix::Prefix;
use crate::value::Value;
use vstd::prelude::*;

verus! {

/// An instruction. Used as a rusty way to parse arguments in build scripts.
#[derive(Debug, Clone, Ord, PartialOrd, Eq, PartialEq, Hash)]
pub struct Instruction {
    /// The prefix. Usually [`Cargo`](Prefix::Cargo).
    pub prefix: Prefix,
    /// The name of the instruction. Most of the time it's filled in, only when a new mapping
    /// [`new_mapping()`](Self::new_mapping) is created it's not.
    pub name: Option<String>,
    /// The [`Value`](Value) of the Instruction.
    pub value: Value,
}

/// The value shapes that carry a key of their own, and so can stand without a name.
pub open spec fn is_keyed_mapping(value: Value) -> bool {
    value is Mapping || value is UnquotedMapping
}

impl Instruction {
    /// An instruction without a name holds a mapping, which supplies the key.
    pub open spec fn wf(&self) -> bool {
        self.name is Some || is_keyed_mapping(self.value)
    }

    /// The line this instruction is written as, without its terminator:
    /// `prefix:name=value`, or `prefix:key=value` from the mapping when there is no name.
    pub open spec fn text(&self) -> Seq<char>
        recommends
            self.wf(),
    {
        match self.name {
            Some(name) => self.prefix.text() + seq![':'] + name@ + seq!['='] + self.value.text(),
            None => self.prefix.text() + seq![':'] + self.value.text(),
        }
    }

    /// Create a new Instruction. 99% of the time this should suffice instead of
    /// [`new_mapping()`](Self::new_mapping).
    pub fn new(name: &str, value: Value) -> (r: Self)
        ensures
            r.prefix is Cargo,
            r.name matches Some(n) && n@ == name@,
            r.value == value,
            r.wf(),
    {
        Instruction { value, name: Some(String::from_str(name)), prefix: Prefix::default() }
    }

    /// Create a new Instruction Mapping, whose key comes from the mapping itself. Only 1% of
    /// the time is this proven useful, instead use [new()](Self::new).
    ///
    /// `value` must be a [`Mapping`](Value::Mapping) or
    /// [`UnquotedMapping`](Value::UnquotedMapping): no other shape can stand without a name.
    pub fn new_mapping(value: Value) -> (r: Self)
        requires
            is_keyed_mapping(value),
        ensures
            r.prefix is Cargo,
            r.name is None,
            r.value == value,
            r.wf(),
    {
        Instruction { value, name: None, prefix: Prefix::default() }
    }

    /// Set the prefix.
    pub fn prefix(&mut self, prefix: Prefix) -> (r: &mut Self)
        ensures
            *r == (Instruction { prefix, ..*old(self) }),
            *final(self) == *final(r),
    {
        self.prefix = prefix;
        self
    }

    /// Set the name.
    pub fn name(&mut self, name: &str) -> (r: &mut Self)
        ensures
            r.prefix == old(self).prefix,
            r.name matches Some(n) && n@ == name@,
            r.value == old(self).value,
            r.wf(),
            *final(self) == *final(r),
    {
        self.name = Some(String::from_str(name));
        self
    }

    /// Writes the instruction as one line, without its terminator.
    pub fn to_string(&self) -> (r: String)
        requires
            self.wf(),
        ensures
            r@ == self.text(),
    {
        proof {
            reveal_strlit(":");
            reveal_strlit("=");
        }
        let mut s = self.prefix.to_string();
        s.append(":");
        match &self.name {
            Some(name) => {
                s.append(name.as_str());
                s.append("=");
            },
            None => {},
        }
        let value = self.value.to_string();
        s.append(value.as_str());
        assert(s@ =~= self.text());
        s
    }
}

} // verus!
