//! Known-bootkit / boot-sector-malware marker detection.

use mbr_forensic::bootkit::{needle_found, scan, KNOWN_SIGNATURES};

#[test]
fn scan_clean_boot_code_finds_nothing() {
    assert!(scan(&[0u8; 446]).is_empty());
}

#[test]
fn scan_detects_stoned_marker() {
    let mut boot = vec![0u8; 446];
    let marker = b"Your PC is now Stoned!";
    boot[0x100..0x100 + marker.len()].copy_from_slice(marker);
    let hits = scan(&boot);
    assert!(hits.contains(&"Stoned"), "got {hits:?}");
}

#[test]
fn scan_dedups_repeated_family_markers() {
    // A boot record containing two Stoned markers reports the family once.
    let mut boot = vec![0u8; 446];
    boot[0x10..0x10 + 22].copy_from_slice(b"Your PC is now Stoned!");
    boot[0x80..0x80 + 18].copy_from_slice(b"LEGALISE MARIJUANA");
    let hits = scan(&boot);
    assert_eq!(
        hits.iter().filter(|&&n| n == "Stoned").count(),
        1,
        "got {hits:?}"
    );
}

#[test]
fn signature_table_is_non_empty() {
    assert!(!KNOWN_SIGNATURES.is_empty());
}

#[test]
fn scan_finds_marker_at_the_very_end() {
    let mut boot = vec![0u8; 446];
    let marker = b"LEGALISE MARIJUANA";
    boot[446 - marker.len()..].copy_from_slice(marker);
    assert_eq!(scan(&boot), vec!["Stoned"]);
}

#[test]
fn scan_of_truncated_marker_finds_nothing() {
    let boot = b"Your PC is now Stoned".to_vec();
    assert!(scan(&boot).is_empty());
    assert!(scan(&[]).is_empty());
}

#[test]
fn both_stoned_markers_are_recognised_alone() {
    let mut boot = vec![0u8; 446];
    boot[5..5 + 18].copy_from_slice(b"LEGALISE MARIJUANA");
    assert_eq!(scan(&boot), vec!["Stoned"]);
}

#[test]
fn needle_search_agrees_with_windows() {
    let hay = b"abcabcx";
    for needle in [&b"abc"[..], b"cx", b"x", b"abcabcx", b"abcabcxy", b"bd", b""] {
        let want = !needle.is_empty()
            && needle.len() <= hay.len()
            && hay.windows(needle.len()).any(|w| w == needle);
        assert_eq!(needle_found(hay, needle), want, "needle {needle:?}");
    }
}
