//! Names of scheduled scenarios.

use vstd::prelude::*;
use vstd::std_specs::cmp::PartialEqSpecImpl;
use vstd::std_specs::convert::FromSpecImpl;
use vstd::string::*;

verus! {

/// The name under which one scheduled scenario is known to the registry, the log tap and
/// the exporter. Two identifiers are the same when they hold the same characters.
#[derive(Debug, Hash)]
pub struct Ident(pub String);

impl View for Ident {
    type V = Seq<char>;

    open spec fn view(&self) -> Seq<char> {
        self.0@
    }
}

impl Ident {
    /// The characters of the identifier.
    pub fn as_str(&self) -> (text: &str)
        ensures
            text@ == self@,
    {
        self.0.as_str()
    }

    /// Whether the identifier holds no character at all; such a name is not accepted by
    /// the configuration.
    pub fn is_empty(&self) -> (empty: bool)
        ensures
            empty == (self@.len() == 0),
    {
        self.0.as_str().unicode_len() == 0
    }
}

impl Clone for Ident {
    fn clone(&self) -> (copy: Self)
        ensures
            copy == *self,
    {
        Ident(self.0.clone())
    }
}

impl PartialEq for Ident {
    fn eq(&self, other: &Self) -> (same: bool) {
        self.0 == other.0
    }
}

impl Eq for Ident {}

impl PartialEqSpecImpl for Ident {
    open spec fn obeys_eq_spec() -> bool {
        true
    }

    open spec fn eq_spec(&self, other: &Self) -> bool {
        self@ == other@
    }
}

impl From<String> for Ident {
    fn from(inner: String) -> (ident: Self)
        ensures
            ident@ == inner@,
    {
        Ident(inner)
    }
}

impl FromSpecImpl<String> for Ident {
    open spec fn obeys_from_spec() -> bool {
        true
    }

    open spec fn from_spec(inner: String) -> Self {
        Ident(inner)
    }
}

impl<'a> From<&'a str> for Ident {
    fn from(inner: &'a str) -> (ident: Self)
        ensures
            ident@ == inner@,
    {
        Ident(String::from_str(inner))
    }
}

impl<'a> FromSpecImpl<&'a str> for Ident {
    open spec fn obeys_from_spec() -> bool {
        false
    }

    open spec fn from_spec(inner: &'a str) -> Self {
        arbitrary()
    }
}

} // verus!
