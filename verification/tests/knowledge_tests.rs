//! TypeCode names come from the forensicnomicon knowledge base, including
//! less common codes such as OS/2 Boot Manager and Plan 9.
use mbr_forensic::partition::TypeCode;

#[test]
fn expanded_codes_resolve_via_knowledge_base() {
    assert_eq!(TypeCode(0x0A).name(), "OS/2 Boot Manager");
    assert_eq!(TypeCode(0x39).name(), "Plan 9");
}

#[test]
fn original_names_preserved() {
    assert_eq!(TypeCode(0x83).name(), "Linux");
    assert_eq!(TypeCode(0x07).name(), "NTFS / exFAT / IFS");
    assert_eq!(TypeCode(0xCC).name(), "Unknown");
}

#[test]
fn first_and_last_table_entries_resolve() {
    assert_eq!(TypeCode(0x00).name(), "Empty");
    assert_eq!(TypeCode(0xFE).name(), "Linux LAF / IBM IML");
    assert_eq!(TypeCode(0xEE).name(), "GPT Protective MBR");
}

#[test]
fn unlisted_codes_are_unknown() {
    assert_eq!(TypeCode(0xCD).name(), "Unknown");
    assert_eq!(TypeCode(0xFF).name(), "Unknown");
    assert_eq!(TypeCode(0x02).name(), "Unknown");
}

#[test]
fn lookup_result_fallback() {
    assert_eq!(TypeCode::name_from_lookup(Some("Linux")), "Linux");
    assert_eq!(TypeCode::name_from_lookup(None), "Unknown");
}
