use vstd::prelude::*;

verus! {

/// A news provider that the gateway offers: its code and its name.
#[derive(Debug, Clone)]
pub struct NewsProvider {
    pub code: String,
    pub name: String,
}

impl NewsProvider {
    /// Assembles a provider from its code and name, unchanged.
    pub fn new(code: &str, name: &str) -> (r: Self)
        ensures
            r.code@ == code@,
            r.name@ == name@,
    {
        NewsProvider { code: code.to_string(), name: name.to_string() }
    }
}

} // verus!
