use win_status::layout::{FACILITY_EXCESS_BITS, ID_EXCESS_BITS, SEVERITY_EXCESS_BITS};
use win_status::{ErrorCode, ErrorCodeMemberError, Facility, Severity};

fn build(id: i32, severity: i32, facility: i32) -> Result<ErrorCode, ErrorCodeMemberError> {
    ErrorCode::new(id, severity, facility, "X")
}

fn lines(items: &[&str]) -> Vec<String> {
    items.iter().map(|s| s.to_string()).collect()
}

#[test]
fn value_packs_fields() {
    let code = build(0x1234, 2, 0x0AB).ok().unwrap();
    assert_eq!(code.value(), 0x80AB_1234u32 as i32);
    assert_eq!(code.value(), (2 << 30) | (0x0AB << 16) | 0x1234);
}

#[test]
fn value_of_zero_fields_is_zero() {
    assert_eq!(build(0, 0, 0).ok().unwrap().value(), 0);
}

#[test]
fn value_of_largest_fields() {
    let code = build(0xFFFF, 3, 0xFFF).ok().unwrap();
    assert_eq!(code.value(), 0xCFFF_FFFFu32 as i32);
}

#[test]
fn value_with_named_codes() {
    let code = ErrorCode::new(0xFFFF, 3, 0, "ERROR_LAST").ok().unwrap();
    assert_eq!(code.value(), 0xC000_FFFFu32 as i32);
    let itf = build(0x0200, 2, 4).ok().unwrap();
    assert_eq!(itf.value(), 0x8004_0200u32 as i32);
}

#[test]
fn value_round_trips_through_masks() {
    let cases = [(0, 0, 0), (1, 1, 1), (0xFFFF, 3, 0xFFF), (0x8000, 2, 0x800), (42, 1, 7)];
    for (id, severity, facility) in cases {
        let word = build(id, severity, facility).ok().unwrap().value();
        assert_eq!(word, (severity << 30) | (facility << 16) | id);
        assert_eq!(word & 0xFFFF, id);
        assert_eq!((word >> 16) & 0xFFF, facility);
        assert_eq!((word >> 30) & 0x3, severity);
    }
}

#[test]
fn id_boundary() {
    assert!(matches!(build(0x10000, 0, 0), Err(ErrorCodeMemberError::WrongId(0x10000))));
    assert!(build(0xFFFF, 0, 0).is_ok());
}

#[test]
fn severity_boundary() {
    assert!(matches!(build(0, 4, 0), Err(ErrorCodeMemberError::WrongSeverity(4))));
    assert!(build(0, 3, 0).is_ok());
}

#[test]
fn facility_boundary() {
    assert!(matches!(build(0, 0, 0x1000), Err(ErrorCodeMemberError::WrongFacility(0x1000))));
    assert!(build(0, 0, 0xFFF).is_ok());
}

#[test]
fn first_failure_is_id() {
    assert!(matches!(build(0x10000, 4, 0x1000), Err(ErrorCodeMemberError::WrongId(0x10000))));
}

#[test]
fn severity_checked_before_facility() {
    assert!(matches!(build(0, 4, 0x1000), Err(ErrorCodeMemberError::WrongSeverity(4))));
}

#[test]
fn error_variants_compare_by_value() {
    assert_eq!(build(0, 0, 0x2000).err(), Some(ErrorCodeMemberError::WrongFacility(0x2000)));
    assert_ne!(ErrorCodeMemberError::WrongId(1), ErrorCodeMemberError::WrongSeverity(1));
}

#[test]
fn negative_id_rejected() {
    assert!(matches!(build(-1, 0, 0), Err(ErrorCodeMemberError::WrongId(-1))));
    let high_bit_only = 0x8000_0001u32 as i32;
    assert!(matches!(build(high_bit_only, 0, 0), Err(ErrorCodeMemberError::WrongId(v)) if v == high_bit_only));
    assert!(matches!(build(i32::MIN, 0, 0), Err(ErrorCodeMemberError::WrongId(i32::MIN))));
}

#[test]
fn negative_severity_rejected() {
    assert!(matches!(build(0, -4, 0), Err(ErrorCodeMemberError::WrongSeverity(-4))));
    let low_bits_error = 0x8000_0003u32 as i32;
    assert!(matches!(build(0, low_bits_error, 0), Err(ErrorCodeMemberError::WrongSeverity(v)) if v == low_bits_error));
}

#[test]
fn negative_facility_rejected() {
    assert!(matches!(build(0, 0, -1), Err(ErrorCodeMemberError::WrongFacility(-1))));
    let low_bits_itf = 0x8000_0004u32 as i32;
    assert!(matches!(build(0, 0, low_bits_itf), Err(ErrorCodeMemberError::WrongFacility(v)) if v == low_bits_itf));
}

#[test]
fn excess_bit_masks() {
    assert_eq!(ID_EXCESS_BITS, 0xFFFF_0000u32 as i32);
    assert_eq!(SEVERITY_EXCESS_BITS, 0xFFFF_FFFCu32 as i32);
    assert_eq!(FACILITY_EXCESS_BITS, 0xFFFF_F000u32 as i32);
}

#[test]
fn new_code_has_empty_message() {
    let code = build(5, 1, 2).ok().unwrap();
    assert!(code.message().is_empty());
}

#[test]
fn message_accumulates() {
    let mut code = build(5, 1, 2).ok().unwrap();
    code.set_message(&lines(&["line1"]));
    code.set_message(&lines(&["line2", "line3"]));
    assert_eq!(code.message(), lines(&["line1", "line2", "line3"]).as_slice());
}

#[test]
fn empty_append_keeps_message() {
    let mut code = build(5, 1, 2).ok().unwrap();
    code.set_message(&lines(&["only"]));
    code.set_message(&[]);
    assert_eq!(code.message(), lines(&["only"]).as_slice());
}

#[test]
fn append_keeps_other_fields() {
    let mut code = ErrorCode::new(7, 2, 9, "ERROR_SEVEN").ok().unwrap();
    let before = code.value();
    code.set_message(&lines(&["a", "b"]));
    assert_eq!(code.id(), 7);
    assert_eq!(code.severity(), 2);
    assert_eq!(code.facility(), 9);
    assert_eq!(code.symbolic_name(), "ERROR_SEVEN");
    assert_eq!(code.value(), before);
}

#[test]
fn error_code_accessors() {
    let code = ErrorCode::new(0x0005, 3, 7, "ERROR_ACCESS_DENIED").ok().unwrap();
    assert_eq!(code.id(), 5);
    assert_eq!(code.severity(), 3);
    assert_eq!(code.facility(), 7);
    assert_eq!(code.symbolic_name(), "ERROR_ACCESS_DENIED");
}

#[test]
fn severity_accessors() {
    let severity = Severity::new("Warning", 2);
    assert_eq!(severity.name(), "Warning");
    assert_eq!(severity.value(), 2);
    let unchecked = Severity::new("", -7);
    assert_eq!(unchecked.name(), "");
    assert_eq!(unchecked.value(), -7);
}

#[test]
fn facility_accessors() {
    let facility = Facility::new("Interface", 4, String::from("FACILITY_ITF"));
    assert_eq!(facility.name(), "Interface");
    assert_eq!(facility.value(), 4);
    assert_eq!(facility.symbolic_name(), "FACILITY_ITF");
    let unchecked = Facility::new("Wide", 0x12345, String::new());
    assert_eq!(unchecked.value(), 0x12345);
    assert_eq!(unchecked.symbolic_name(), "");
}
