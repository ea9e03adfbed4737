//! MBR partition type codes and their human-readable names, which come from
//! the forensicnomicon knowledge base.

use vstd::prelude::*;

verus! {

/// The `i`-th entry of the forensicnomicon table of MBR partition type codes
/// (`forensicnomicon::partition_types::PARTITION_TYPES`), as its code and its
/// name; `None` past the end of the table.
pub uninterp spec fn kb_partition_entry(i: int) -> Option<(u8, Seq<char>)>;

/// Reads one entry of the knowledge-base table of partition type codes.
///
/// Indexes `forensicnomicon::partition_types::PARTITION_TYPES` (a slice of
/// `MbrPartitionType`) and copies the entry's `code` and `name` fields out.
/// Claimed: the result, taken by its view, is the named value
/// `kb_partition_entry(i)`; the table's contents are not restated here.
#[verifier::external_body]
fn kb_entry(i: usize) -> (r: Option<(u8, &'static str)>)
    ensures
        match r {
            Some(e) => kb_partition_entry(i as int) == Some((e.0, e.1@)),
            None => kb_partition_entry(i as int) is None,
        },
{
    forensicnomicon::partition_types::PARTITION_TYPES.get(i).map(|t| (t.code, t.name))
}

/// The name of the first table entry at or after index `i` whose code is
/// `code`, scanning until the table ends.
pub open spec fn kb_lookup_from(code: u8, i: nat) -> Option<Seq<char>>
    decreases usize::MAX - i,
{
    if i >= usize::MAX {
        None
    } else {
        match kb_partition_entry(i as int) {
            None => None,
            Some(e) => if e.0 == code {
                Some(e.1)
            } else {
                kb_lookup_from(code, i + 1)
            },
        }
    }
}

/// The knowledge-base name of a partition type code: that of the first table
/// entry with this code, or `None` where no entry has it.
pub open spec fn kb_partition_type_name(code: u8) -> Option<Seq<char>> {
    kb_lookup_from(code, 0)
}

/// A lookup from index `k` reaches the entry at `i` when every entry between
/// them exists and holds another code.
proof fn lemma_lookup_reaches(code: u8, name: Seq<char>, k: nat, i: nat)
    requires
        k <= i < usize::MAX,
        kb_partition_entry(i as int) == Some((code, name)),
        forall|j: int|
            k <= j < i ==> (#[trigger] kb_partition_entry(j) matches Some(e) && e.0 != code),
    ensures
        kb_lookup_from(code, k) == Some(name),
    decreases i - k,
{
    if k < i {
        assert(kb_partition_entry(k as int) matches Some(e) && e.0 != code);
        lemma_lookup_reaches(code, name, k + 1, i);
    }
}

/// The name shown for a code is the name of the knowledge-base entry with that
/// very code: the first entry holding it, when the entries before it exist.
pub proof fn law_type_name_is_entry_name(code: u8, name: Seq<char>, i: int)
    requires
        0 <= i < usize::MAX,
        kb_partition_entry(i) == Some((code, name)),
        forall|j: int| 0 <= j < i ==> (#[trigger] kb_partition_entry(j) matches Some(e) && e.0 != code),
    ensures
        type_code_name(code) == name,
{
    lemma_lookup_reaches(code, name, 0, i as nat);
}

/// Searches the knowledge-base table for the first entry with `code`.
fn kb_find(code: u8) -> (r: Option<&'static str>)
    ensures
        match r {
            Some(n) => kb_partition_type_name(code) == Some(n@),
            None => kb_partition_type_name(code) is None,
        },
{
    let mut i: usize = 0;
    while i < usize::MAX
        invariant
            kb_partition_type_name(code) == kb_lookup_from(code, i as nat),
        decreases usize::MAX - i,
    {
        match kb_entry(i) {
            None => {
                return None;
            },
            Some(e) => {
                if e.0 == code {
                    return Some(e.1);
                }
            },
        }
        i = i + 1;
    }
    None
}

/// The 1-byte partition type field of an MBR partition entry.
#[derive(Debug, Clone, Copy, PartialEq, Eq, Structural)]
pub struct TypeCode(pub u8);

/// The name shown for a knowledge-base lookup result: the found name, or
/// `"Unknown"` where the code has none.
pub open spec fn name_or_unknown(found: Option<Seq<char>>) -> Seq<char> {
    match found {
        Some(n) => n,
        None => "Unknown"@,
    }
}

/// The name shown for a partition type code.
pub open spec fn type_code_name(code: u8) -> Seq<char> {
    name_or_unknown(kb_partition_type_name(code))
}

impl TypeCode {
    /// Human-readable name of the type code, from the knowledge base;
    /// `"Unknown"` for codes it does not list.
    pub fn name(&self) -> (s: &'static str)
        ensures
            s@ == type_code_name(self.0),
    {
        let found = kb_find(self.0);
        Self::name_from_lookup(found)
    }

    /// The name shown for a lookup result: the name found, else `"Unknown"`.
    pub fn name_from_lookup(found: Option<&'static str>) -> (s: &'static str)
        ensures
            s@ == name_or_unknown(
                match found {
                    Some(n) => Some(n@),
                    None => None,
                },
            ),
    {
        match found {
            Some(n) => n,
            None => "Unknown",
        }
    }
}

} // verus!
