use vstd::prelude::*;

verus! {

/// What a [`Facility`] holds: display name, numeric id and symbolic name.
pub struct FacilityView {
    pub name: Seq<char>,
    pub value: i32,
    pub symbolic_name: Seq<char>,
}

/// A named subsystem that status codes come from, such as `FACILITY_ITF`.
/// No range is enforced here.
#[derive(Debug, Clone)]
pub struct Facility {
    name: String,
    value: i32,
    symbolic_name: String,
}

impl View for Facility {
    type V = FacilityView;

    closed spec fn view(&self) -> FacilityView {
        FacilityView { name: self.name@, value: self.value, symbolic_name: self.symbolic_name@ }
    }
}

impl Facility {
    pub fn new(name: &str, value: i32, symbolic_name: String) -> (r: Facility)
        ensures
            r@.name == name@,
            r@.value == value,
            r@.symbolic_name == symbolic_name@,
    {
        Facility { name: name.to_owned(), value, symbolic_name }
    }

    pub fn name(&self) -> (r: &str)
        ensures
            r@ == self@.name,
    {
        self.name.as_str()
    }

    pub fn value(&self) -> (r: i32)
        ensures
            r == self@.value,
    {
        self.value
    }

    pub fn symbolic_name(&self) -> (r: &str)
        ensures
            r@ == self@.symbolic_name,
    {
        self.symbolic_name.as_str()
    }
}

} // verus!
