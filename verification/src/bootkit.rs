//! Known boot-sector-malware marker detection.
//!
//! The marker table and the matching live in the forensicnomicon knowledge
//! base; a match is a definitive tampering indicator.

use vstd::prelude::*;

pub use forensicnomicon::bootkit::BootkitMarker;
pub use forensicnomicon::bootkit::BOOTKIT_MARKERS as KNOWN_SIGNATURES;

verus! {

/// The bytes of an ASCII text.
pub open spec fn ascii_bytes(s: Seq<char>) -> Seq<u8> {
    s.map_values(|c: char| c as u8)
}

/// The first documented marker of the Stoned boot-sector virus (1987).
pub open spec fn stoned_taunt() -> Seq<u8> {
    ascii_bytes("Your PC is now Stoned!"@)
}

/// The second documented marker of the Stoned boot-sector virus.
pub open spec fn stoned_slogan() -> Seq<u8> {
    ascii_bytes("LEGALISE MARIJUANA"@)
}

/// The `i`-th marker of the forensicnomicon table of boot-sector-malware
/// markers (`forensicnomicon::bootkit::BOOTKIT_MARKERS`), as its family name
/// and its needle bytes; `None` past the end of the table. The table holds
/// the two Stoned markers.
pub open spec fn bootkit_marker(i: int) -> Option<(Seq<char>, Seq<u8>)> {
    if i == 0 {
        Some(("Stoned"@, stoned_taunt()))
    } else if i == 1 {
        Some(("Stoned"@, stoned_slogan()))
    } else {
        None
    }
}

/// `needle` is non-empty and occurs as a contiguous run somewhere in `hay`.
pub open spec fn needle_occurs(hay: Seq<u8>, needle: Seq<u8>) -> bool {
    &&& needle.len() > 0
    &&& needle.len() <= hay.len()
    &&& exists|i: int|
        0 <= i && i + needle.len() <= hay.len() && #[trigger] hay.subrange(i, i + needle.len())
            == needle
}

/// The hits after scanning the markers from index `i` on, starting from the
/// hits `hits`: each marker whose needle occurs in `boot_code` adds its family
/// name, unless that name is already among the hits.
pub open spec fn scan_from(boot_code: Seq<u8>, i: nat, hits: Seq<Seq<char>>) -> Seq<Seq<char>>
    decreases usize::MAX - i,
{
    if i >= usize::MAX {
        hits
    } else {
        match bootkit_marker(i as int) {
            None => hits,
            Some(m) => scan_from(
                boot_code,
                i + 1,
                if needle_occurs(boot_code, m.1) && !hits.contains(m.0) {
                    hits.push(m.0)
                } else {
                    hits
                },
            ),
        }
    }
}

/// The malware families whose markers occur in `boot_code`: the distinct
/// family names of the matching markers, in table order.
pub open spec fn bootkit_families(boot_code: Seq<u8>) -> Seq<Seq<char>> {
    scan_from(boot_code, 0, seq![])
}

/// The family names of a scan result, by their text.
pub open spec fn family_texts(hits: Seq<&'static str>) -> Seq<Seq<char>> {
    hits.map_values(|n: &'static str| n@)
}

/// Reads one marker of the knowledge-base table of boot-sector-malware markers.
///
/// Indexes `forensicnomicon::bootkit::BOOTKIT_MARKERS` (a slice of
/// `BootkitMarker`) and copies the marker's `name` and `needle` fields out.
/// Claimed: the result, taken by its views, is the named value
/// `bootkit_marker(i)`, which lists the table's two entries (the source's
/// `BOOTKIT_MARKERS`: family "Stoned" with needle "Your PC is now Stoned!",
/// then family "Stoned" with needle "LEGALISE MARIJUANA").
#[verifier::external_body]
fn kb_marker(i: usize) -> (r: Option<(&'static str, &'static [u8])>)
    ensures
        match r {
            Some(m) => bootkit_marker(i as int) == Some((m.0@, m.1@)),
            None => bootkit_marker(i as int) is None,
        },
{
    forensicnomicon::bootkit::BOOTKIT_MARKERS.get(i).map(|m| (m.name, m.needle))
}

/// Whether `needle` occurs in `hay` starting at byte `at`.
fn matches_at(hay: &[u8], needle: &[u8], at: usize) -> (r: bool)
    requires
        at + needle@.len() <= hay@.len(),
    ensures
        r == (hay@.subrange(at as int, at + needle@.len()) == needle@),
{
    let n = needle.len();
    let mut k: usize = 0;
    while k < n
        invariant
            n == needle@.len(),
            hay.len() == hay@.len(),
            at + n <= hay@.len(),
            k <= n,
            forall|j: int| 0 <= j < k ==> hay@[at + j] == needle@[j],
        decreases n - k,
    {
        if hay[at + k] != needle[k] {
            assert(hay@.subrange(at as int, at + n)[k as int] != needle@[k as int]);
            return false;
        }
        k = k + 1;
    }
    assert(hay@.subrange(at as int, at + n) =~= needle@);
    true
}

/// Whether the non-empty `needle` occurs anywhere in `hay`.
pub fn needle_found(hay: &[u8], needle: &[u8]) -> (r: bool)
    ensures
        r == needle_occurs(hay@, needle@),
{
    let n = needle.len();
    if n == 0 || n > hay.len() {
        return false;
    }
    let last = hay.len() - n;
    let mut i: usize = 0;
    while i <= last
        invariant
            n == needle@.len(),
            n >= 1,
            hay.len() == hay@.len(),
            last + n == hay@.len(),
            i <= last + 1,
            forall|k: int| 0 <= k < i ==> #[trigger] hay@.subrange(k, k + n) != needle@,
        decreases last + 1 - i,
    {
        if matches_at(hay, needle, i) {
            return true;
        }
        i = i + 1;
    }
    false
}

/// Whether `name` is already among `hits`.
fn has_hit(hits: &Vec<&'static str>, name: &str) -> (r: bool)
    ensures
        r == family_texts(hits@).contains(name@),
{
    let target = String::from_str(name);
    let mut k: usize = 0;
    while k < hits.len()
        invariant
            k <= hits@.len(),
            target@ == name@,
            forall|j: int| 0 <= j < k ==> hits@[j]@ != name@,
        decreases hits@.len() - k,
    {
        if String::from_str(hits[k]) == target {
            assert(family_texts(hits@)[k as int] == name@);
            return true;
        }
        k = k + 1;
    }
    proof {
        if family_texts(hits@).contains(name@) {
            let j = choose|j: int|
                0 <= j < family_texts(hits@).len() && family_texts(hits@)[j] == name@;
            assert(hits@[j]@ == name@);
        }
    }
    false
}

/// Scanning never adds a name twice: hits without duplicates stay so.
pub proof fn lemma_scan_from_no_duplicates(boot_code: Seq<u8>, i: nat, hits: Seq<Seq<char>>)
    requires
        hits.no_duplicates(),
    ensures
        scan_from(boot_code, i, hits).no_duplicates(),
    decreases usize::MAX - i,
{
    if i < usize::MAX {
        if let Some(m) = bootkit_marker(i as int) {
            if needle_occurs(boot_code, m.1) && !hits.contains(m.0) {
                let next = hits.push(m.0);
                assert forall|a: int, b: int|
                    0 <= a < next.len() && 0 <= b < next.len() && a != b implies next[a]
                    != next[b] by {
                    if a == hits.len() as int {
                        assert(hits[b] == next[b]);
                    } else if b == hits.len() as int {
                        assert(hits[a] == next[a]);
                    }
                }
                lemma_scan_from_no_duplicates(boot_code, i + 1, next);
            } else {
                lemma_scan_from_no_duplicates(boot_code, i + 1, hits);
            }
        }
    }
}

/// Scanning without a match leaves the hits as they were.
pub proof fn lemma_scan_from_no_match(boot_code: Seq<u8>, i: nat, hits: Seq<Seq<char>>)
    requires
        boot_code.len() == 0,
    ensures
        scan_from(boot_code, i, hits) == hits,
    decreases usize::MAX - i,
{
    if i < usize::MAX {
        if let Some(m) = bootkit_marker(i as int) {
            lemma_scan_from_no_match(boot_code, i + 1, hits);
        }
    }
}

/// Each family is reported at most once, and empty boot code shows no family.
pub proof fn law_bootkit_families(boot_code: Seq<u8>)
    ensures
        bootkit_families(boot_code).no_duplicates(),
        boot_code.len() == 0 ==> bootkit_families(boot_code).len() == 0,
{
    lemma_scan_from_no_duplicates(boot_code, 0, seq![]);
    if boot_code.len() == 0 {
        lemma_scan_from_no_match(boot_code, 0, seq![]);
    }
}

/// A scan reports the Stoned family, once, exactly when either Stoned marker
/// occurs in the boot code, and reports nothing otherwise.
pub proof fn law_scan_finds_stoned(boot_code: Seq<u8>)
    ensures
        bootkit_families(boot_code) == (if needle_occurs(boot_code, stoned_taunt())
            || needle_occurs(boot_code, stoned_slogan()) {
            seq!["Stoned"@]
        } else {
            Seq::<Seq<char>>::empty()
        }),
{
    reveal_with_fuel(scan_from, 4);
    let empty = Seq::<Seq<char>>::empty();
    let one = empty.push("Stoned"@);
    assert(!empty.contains("Stoned"@));
    assert(one[0] == "Stoned"@);
    assert(one.contains("Stoned"@));
    assert(one =~= seq!["Stoned"@]);
}

/// The boot-sector-malware families whose markers occur in `boot_code`, each
/// reported once, in table order.
pub fn scan(boot_code: &[u8]) -> (r: Vec<&'static str>)
    ensures
        family_texts(r@) == bootkit_families(boot_code@),
        family_texts(r@).no_duplicates(),
        family_texts(r@) == (if needle_occurs(boot_code@, stoned_taunt()) || needle_occurs(
            boot_code@,
            stoned_slogan(),
        ) {
            seq!["Stoned"@]
        } else {
            Seq::<Seq<char>>::empty()
        }),
{
    let mut hits: Vec<&'static str> = Vec::new();
    let mut i: usize = 0;
    assert(family_texts(hits@) =~= Seq::<Seq<char>>::empty());
    while i < usize::MAX
        invariant_except_break
            bootkit_families(boot_code@) == scan_from(boot_code@, i as nat, family_texts(hits@)),
        ensures
            bootkit_families(boot_code@) == family_texts(hits@),
        decreases usize::MAX - i,
    {
        match kb_marker(i) {
            None => {
                break;
            },
            Some(m) => {
                let ghost before = family_texts(hits@);
                if needle_found(boot_code, m.1) && !has_hit(&hits, m.0) {
                    hits.push(m.0);
                    assert(family_texts(hits@) =~= before.push(m.0@));
                }
            },
        }
        i = i + 1;
    }
    proof {
        law_bootkit_families(boot_code@);
        law_scan_finds_stoned(boot_code@);
    }
    hits
}

} // verus!
