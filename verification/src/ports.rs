//! The optional ports a namespace may need.
use vstd::prelude::*;
use vstd::string::*;

verus! {

broadcast use vstd::string::group_string_axioms;

/// A namespace needs an optional port the composition root did not supply.
#[derive(Debug, Clone, Copy, PartialEq, Eq, Structural)]
pub enum MissingPort {
    Files,
    DidMinter,
}

impl MissingPort {
    pub open spec fn spec_name(self) -> Seq<char> {
        match self {
            MissingPort::Files => "files"@,
            MissingPort::DidMinter => "did_minter"@,
        }
    }

    /// The port's name.
    pub fn name(&self) -> (r: &'static str)
        ensures
            r@ == self.spec_name(),
    {
        match self {
            MissingPort::Files => "files",
            MissingPort::DidMinter => "did_minter",
        }
    }

    /// What the error displays: `missing port: ` and the port's name.
    pub fn message(&self) -> (r: String)
        ensures
            r@ == "missing port: "@ + self.spec_name(),
    {
        let mut m = String::from_str("missing port: ");
        m.append(self.name());
        m
    }
}

} // verus!
