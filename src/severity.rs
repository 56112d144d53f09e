use vstd::prelude::*;

verus! {

/// What a [`Severity`] holds: its display name and its numeric code.
pub struct SeverityView {
    pub name: Seq<char>,
    pub value: i32,
}

/// A named classification of outcome (success, informational, warning,
/// error) with its small integer code. No range is enforced here.
#[derive(Debug, Clone)]
pub struct Severity {
    name: String,
    value: i32,
}

impl View for Severity {
    type V = SeverityView;

    closed spec fn view(&self) -> SeverityView {
        SeverityView { name: self.name@, value: self.value }
    }
}

impl Severity {
    pub fn new(name: &str, value: i32) -> (r: Severity)
        ensures
            r@.name == name@,
            r@.value == value,
    {
        Severity { name: name.to_owned(), value }
    }

    pub fn name(&self) -> (r: &str)
        ensures
            r@ == self@.name,
    {
        self.name.as_str()
    }

    pub fn value(&self) -> (r: i32)
        ensures
            r == self@.value,
    {
        self.value
    }
}

} // verus!
