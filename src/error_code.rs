use vstd::prelude::*;

use crate::layout::{
    facility_fits, facility_of_word, id_fits, id_of_word, lemma_excess_bits,
    lemma_packed_round_trip, packed, severity_fits, severity_of_word, FACILITY_EXCESS_BITS,
    ID_EXCESS_BITS, SEVERITY_EXCESS_BITS,
};

verus! {

/// Why a status code could not be built: the first field found out of range,
/// with the value that was given for it.
#[derive(Debug, Clone, Copy, PartialEq, Eq, Structural)]
pub enum ErrorCodeMemberError {
    WrongId(i32),
    WrongSeverity(i32),
    WrongFacility(i32),
}

/// What an [`ErrorCode`] holds: its three fields, its symbolic name and the
/// lines of its message, in the order they were added.
pub struct ErrorCodeView {
    pub id: i32,
    pub severity: i32,
    pub facility: i32,
    pub symbolic_name: Seq<char>,
    pub message: Seq<Seq<char>>,
}

/// The text of each line of a message.
pub open spec fn lines_of(lines: Seq<String>) -> Seq<Seq<char>> {
    lines.map_values(|l: String| l@)
}

/// The outcome of building a status code from the given fields: the fields are
/// checked in the order id, severity, facility, and the first one out of range
/// is reported.
pub open spec fn check_fields(id: i32, severity: i32, facility: i32) -> Result<
    (),
    ErrorCodeMemberError,
> {
    if !id_fits(id) {
        Err(ErrorCodeMemberError::WrongId(id))
    } else if !severity_fits(severity) {
        Err(ErrorCodeMemberError::WrongSeverity(severity))
    } else if !facility_fits(facility) {
        Err(ErrorCodeMemberError::WrongFacility(facility))
    } else {
        Ok(())
    }
}

/// The three checked fields of a status code, each within its width.
#[derive(Debug, Clone, Copy)]
struct CodeFields {
    id: i32,
    severity: i32,
    facility: i32,
}

impl CodeFields {
    #[verifier::type_invariant]
    spec fn fields_fit(&self) -> bool {
        &&& id_fits(self.id)
        &&& severity_fits(self.severity)
        &&& facility_fits(self.facility)
    }
}

/// A status code: a 16-bit id, a 2-bit severity and a 12-bit facility, each
/// checked when the code is built, with a symbolic name and a message that
/// lines can be added to.
#[derive(Debug, Clone)]
pub struct ErrorCode {
    fields: CodeFields,
    symbolic_name: String,
    message: Vec<String>,
}

impl View for ErrorCode {
    type V = ErrorCodeView;

    closed spec fn view(&self) -> ErrorCodeView {
        ErrorCodeView {
            id: self.fields.id,
            severity: self.fields.severity,
            facility: self.fields.facility,
            symbolic_name: self.symbolic_name@,
            message: lines_of(self.message@),
        }
    }
}

impl ErrorCode {
    /// Builds a status code with an empty message, or reports the first field,
    /// in the order id, severity, facility, that has a bit set above its width.
    pub fn new(id: i32, severity: i32, facility: i32, symbolic_name: &str) -> (r: Result<
        ErrorCode,
        ErrorCodeMemberError,
    >)
        ensures
            r is Ok <==> check_fields(id, severity, facility) is Ok,
            r matches Err(err) ==> check_fields(id, severity, facility) == Err::<(), _>(err),
            r matches Ok(e) ==> {
                &&& e@.id == id
                &&& e@.severity == severity
                &&& e@.facility == facility
                &&& e@.symbolic_name == symbolic_name@
                &&& e@.message == Seq::<Seq<char>>::empty()
            },
    {
        proof {
            lemma_excess_bits(id);
            lemma_excess_bits(severity);
            lemma_excess_bits(facility);
        }
        if id & ID_EXCESS_BITS != 0 {
            return Err(ErrorCodeMemberError::WrongId(id));
        }
        if severity & SEVERITY_EXCESS_BITS != 0 {
            return Err(ErrorCodeMemberError::WrongSeverity(severity));
        }
        if facility & FACILITY_EXCESS_BITS != 0 {
            return Err(ErrorCodeMemberError::WrongFacility(facility));
        }
        let e = ErrorCode {
            fields: CodeFields { id, severity, facility },
            symbolic_name: symbolic_name.to_owned(),
            message: Vec::new(),
        };
        assert(e@.message =~= Seq::<Seq<char>>::empty());
        Ok(e)
    }

    pub fn id(&self) -> (r: i32)
        ensures
            r == self@.id,
            id_fits(r),
    {
        proof {
            use_type_invariant(self.fields);
        }
        self.fields.id
    }

    pub fn severity(&self) -> (r: i32)
        ensures
            r == self@.severity,
            severity_fits(r),
    {
        proof {
            use_type_invariant(self.fields);
        }
        self.fields.severity
    }

    pub fn facility(&self) -> (r: i32)
        ensures
            r == self@.facility,
            facility_fits(r),
    {
        proof {
            use_type_invariant(self.fields);
        }
        self.fields.facility
    }

    pub fn symbolic_name(&self) -> (r: &str)
        ensures
            r@ == self@.symbolic_name,
    {
        self.symbolic_name.as_str()
    }

    /// Appends the given lines, in order, after the lines already in the
    /// message; nothing already there is removed.
    pub fn set_message(&mut self, message: &[String])
        ensures
            final(self)@.message == old(self)@.message + lines_of(message@),
            final(self)@.id == old(self)@.id,
            final(self)@.severity == old(self)@.severity,
            final(self)@.facility == old(self)@.facility,
            final(self)@.symbolic_name == old(self)@.symbolic_name,
    {
        let mut i: usize = 0;
        while i < message.len()
            invariant
                0 <= i <= message@.len(),
                self@.message == old(self)@.message + lines_of(message@.subrange(0, i as int)),
                self@.id == old(self)@.id,
                self@.severity == old(self)@.severity,
                self@.facility == old(self)@.facility,
                self@.symbolic_name == old(self)@.symbolic_name,
            decreases message@.len() - i,
        {
            let line = message[i].clone();
            let ghost before = self.message@;
            self.message.push(line);
            i = i + 1;
            assert(lines_of(self.message@) =~= lines_of(before).push(message@[i - 1]@));
            assert(lines_of(message@.subrange(0, i as int)) =~= lines_of(
                message@.subrange(0, i - 1),
            ).push(message@[i - 1]@));
            assert(self@.message =~= old(self)@.message + lines_of(
                message@.subrange(0, i as int),
            ));
        }
        assert(message@.subrange(0, message@.len() as int) =~= message@);
    }

    /// The lines of the message, in the order they were added.
    pub fn message(&self) -> (r: &[String])
        ensures
            lines_of(r@) == self@.message,
    {
        self.message.as_slice()
    }

    /// The status word `(severity << 30) | (facility << 16) | id`, in the
    /// generic status-code layout (not the HRESULT one).
    pub fn value(&self) -> (r: i32)
        ensures
            r == packed(self@.id, self@.severity, self@.facility),
            id_of_word(r) == self@.id,
            severity_of_word(r) == self@.severity,
            facility_of_word(r) == self@.facility,
    {
        proof {
            use_type_invariant(self.fields);
            lemma_packed_round_trip(self@.id, self@.severity, self@.facility);
        }
        (self.fields.severity << 30u32) | (self.fields.facility << 16u32) | self.fields.id
    }
}

/// Adding lines in two steps leaves the same message as adding them all at
/// once, in the same order.
pub proof fn lemma_append_in_steps(message: Seq<Seq<char>>, first: Seq<String>, second: Seq<String>)
    ensures
        message + lines_of(first) + lines_of(second) == message + lines_of(first + second),
{
    assert(lines_of(first + second) =~= lines_of(first) + lines_of(second));
    assert(message + lines_of(first) + lines_of(second) =~= message + (lines_of(first)
        + lines_of(second)));
}

} // verus!
