use vstd::prelude::*;

verus! {

/// A generic tag and value, for broker-specific options.
#[derive(Debug, Clone, Eq)]
pub struct TagValue {
    pub tag: String,
    pub value: String,
}

impl TagValue {
    /// Assembles a pair from its tag and value, unchanged.
    pub fn new(tag: &str, value: &str) -> (r: Self)
        ensures
            r.tag@ == tag@,
            r.value@ == value@,
    {
        TagValue { tag: tag.to_string(), value: value.to_string() }
    }
}

impl PartialEq for TagValue {
    /// Two pairs are equal when their tags and their values are.
    fn eq(&self, other: &TagValue) -> (r: bool)
        ensures
            r == (self.tag@ == other.tag@ && self.value@ == other.value@),
    {
        self.tag == other.tag && self.value == other.value
    }
}

impl vstd::std_specs::cmp::PartialEqSpecImpl for TagValue {
    open spec fn obeys_eq_spec() -> bool {
        true
    }

    open spec fn eq_spec(&self, other: &TagValue) -> bool {
        self.tag@ == other.tag@ && self.value@ == other.value@
    }
}

} // verus!
