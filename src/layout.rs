use vstd::prelude::*;

verus! {

/// Bits that a status code's id may not have set: 16 to 31.
pub const ID_EXCESS_BITS: i32 = !0xFFFF;

/// Bits that a severity may not have set: 2 to 31.
pub const SEVERITY_EXCESS_BITS: i32 = !0x3;

/// Bits that a facility may not have set: 12 to 31.
pub const FACILITY_EXCESS_BITS: i32 = !0xFFF;

/// An id fits in 16 bits.
pub open spec fn id_fits(id: i32) -> bool {
    0 <= id <= 0xFFFF
}

/// A severity fits in 2 bits.
pub open spec fn severity_fits(severity: i32) -> bool {
    0 <= severity <= 3
}

/// A facility fits in 12 bits.
pub open spec fn facility_fits(facility: i32) -> bool {
    0 <= facility <= 0xFFF
}

/// The 32-bit word of a status code: severity in bits 31-30, facility in
/// bits 27-16, id in bits 15-0.
pub open spec fn packed(id: i32, severity: i32, facility: i32) -> i32 {
    (severity << 30u32) | (facility << 16u32) | id
}

/// The id held in bits 15-0 of a status word.
pub open spec fn id_of_word(word: i32) -> i32 {
    word & 0xFFFF
}

/// The severity held in bits 31-30 of a status word.
pub open spec fn severity_of_word(word: i32) -> i32 {
    (word >> 30u32) & 0x3
}

/// The facility held in bits 27-16 of a status word.
pub open spec fn facility_of_word(word: i32) -> i32 {
    (word >> 16u32) & 0xFFF
}

/// A value has a bit of `excess` set exactly when it lies outside the field's
/// range, for each of the three fields; negative values have them all set.
pub proof fn lemma_excess_bits(x: i32)
    ensures
        (x & ID_EXCESS_BITS != 0) <==> !id_fits(x),
        (x & SEVERITY_EXCESS_BITS != 0) <==> !severity_fits(x),
        (x & FACILITY_EXCESS_BITS != 0) <==> !facility_fits(x),
{
    assert((x & !0xFFFi32 != 0) <==> !(0 <= x <= 0xFFF)) by (bit_vector);
    assert((x & !0x3i32 != 0) <==> !(0 <= x <= 3)) by (bit_vector);
    assert((x & !0xFFFFi32 != 0) <==> !(0 <= x <= 0xFFFF)) by (bit_vector);
}

/// Packing valid fields into a status word loses nothing: masking and shifting
/// the word gives back each field.
pub proof fn lemma_packed_round_trip(id: i32, severity: i32, facility: i32)
    requires
        id_fits(id),
        severity_fits(severity),
        facility_fits(facility),
    ensures
        id_of_word(packed(id, severity, facility)) == id,
        severity_of_word(packed(id, severity, facility)) == severity,
        facility_of_word(packed(id, severity, facility)) == facility,
{
    assert(((severity << 30u32) | (facility << 16u32) | id) & 0xFFFF == id) by (bit_vector)
        requires
            0 <= id <= 0xFFFF,
            0 <= severity <= 3,
            0 <= facility <= 0xFFF,
    ;
    assert((((severity << 30u32) | (facility << 16u32) | id) >> 30u32) & 0x3 == severity)
        by (bit_vector)
        requires
            0 <= id <= 0xFFFF,
            0 <= severity <= 3,
            0 <= facility <= 0xFFF,
    ;
    assert((((severity << 30u32) | (facility << 16u32) | id) >> 16u32) & 0xFFF == facility)
        by (bit_vector)
        requires
            0 <= id <= 0xFFFF,
            0 <= severity <= 3,
            0 <= facility <= 0xFFF,
    ;
}

/// An input whose bit pattern is negative is rejected for every field, even
/// where its low bits would fit the field's width.
pub proof fn lemma_negative_rejected(id: i32, severity: i32, facility: i32)
    requires
        id < 0,
        severity < 0,
        facility < 0,
    ensures
        !id_fits(id),
        !severity_fits(severity),
        !facility_fits(facility),
        id & ID_EXCESS_BITS != 0,
        severity & SEVERITY_EXCESS_BITS != 0,
        facility & FACILITY_EXCESS_BITS != 0,
{
    lemma_excess_bits(id);
    lemma_excess_bits(severity);
    lemma_excess_bits(facility);
}

} // verus!
