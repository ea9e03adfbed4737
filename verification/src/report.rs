//! Human-readable text rendering of an [`MbrAnalysis`].
//!
//! The report is built by plain string appends; every line is defined
//! character for character by the spec functions below.

use vstd::prelude::*;

use crate::boot_code::boot_code_id_name;
use crate::findings::{
    anomaly_text, is_max_severity, GptCrossCheck, severity_name, severity_rank, Anomaly, MbrAnalysis,
    PartitionSummary, Severity,
};
use crate::partition::type_code_name;
use crate::provenance::era_name;
use crate::signature::{detected_fs_name, DetectedFs};
use crate::text::{
    contains_text, dec, hex_fixed, lemma_contains_concat, lemma_contains_prefix,
    lemma_pad_end_contains, pad_end, pad_start, push_dec, push_dec_pad_end, push_dec_pad_start,
    push_hex_fixed, push_pad_end,
};

verus! {

/// Width of the partition-type-name column.
pub const NAME_WIDTH: usize = 24;

/// Width of each LBA column.
pub const LBA_WIDTH: usize = 12;

/// The `fs=` column: the detected filesystem's name, or `-` when none.
pub open spec fn fs_text(f: Option<DetectedFs>) -> Seq<char> {
    match f {
        Some(fs) => detected_fs_name(fs),
        None => "-"@,
    }
}

/// One partition-table line, given the name shown for its type:
/// `  [index] name(padded) LBA start(right-aligned)..=end(left-aligned)  fs=...`.
pub open spec fn partition_line_named(p: PartitionSummary, name: Seq<char>) -> Seq<char> {
    "  ["@ + dec(p.index as nat) + "] "@ + pad_end(name, NAME_WIDTH as nat) + " LBA "@ + pad_start(
        dec(p.lba_start as nat),
        LBA_WIDTH as nat,
    ) + "..="@ + pad_end(dec(p.lba_end as nat), LBA_WIDTH as nat) + "  fs="@ + fs_text(
        p.detected_fs,
    ) + "\n"@
}

/// One partition-table line, with the knowledge-base name of its type.
pub open spec fn partition_line(p: PartitionSummary) -> Seq<char> {
    partition_line_named(p, type_code_name(p.declared_type.0))
}

/// The partition-table lines, in order.
pub open spec fn partitions_text(ps: Seq<PartitionSummary>) -> Seq<char>
    decreases ps.len(),
{
    if ps.len() == 0 {
        seq![]
    } else {
        partitions_text(ps.drop_last()) + partition_line(ps.last())
    }
}

/// One anomaly line: two spaces of indent, the anomaly's text, a newline.
pub open spec fn anomaly_line(a: Anomaly) -> Seq<char> {
    "  "@ + anomaly_text(a) + "\n"@
}

/// The anomaly lines, in order.
pub open spec fn anomalies_text(s: Seq<Anomaly>) -> Seq<char>
    decreases s.len(),
{
    if s.len() == 0 {
        seq![]
    } else {
        anomalies_text(s.drop_last()) + anomaly_line(s.last())
    }
}

/// The highest severity among `s`, or `None` when `s` is empty.
pub open spec fn max_severity_spec(s: Seq<Anomaly>) -> Option<Severity> {
    if s.len() == 0 {
        None
    } else {
        Some(choose|m: Severity| is_max_severity(s, m))
    }
}

/// The header: title, disk signature (`{:#010x}`), boot code and era.
pub open spec fn header_text(a: MbrAnalysis) -> Seq<char> {
    "MBR Forensic Analysis\n"@ + "  disk signature : 0x"@ + hex_fixed(a.disk_serial as nat, 8)
        + "\n"@ + "  boot code      : "@ + boot_code_id_name(a.boot_code_id) + "\n"@
        + "  partitioning   : "@ + era_name(a.era) + "\n"@
}

/// The partition-table section.
pub open spec fn partition_section(ps: Seq<PartitionSummary>) -> Seq<char> {
    "\nPartition table ("@ + dec(ps.len()) + " entries):\n"@ + (if ps.len() == 0 {
        "  (no primary partitions)\n"@
    } else {
        seq![]
    }) + partitions_text(ps)
}

/// The anomaly section.
pub open spec fn anomaly_section(s: Seq<Anomaly>) -> Seq<char> {
    if s.len() == 0 {
        "\nAnomalies: none\n"@
    } else {
        "\nAnomalies ("@ + dec(s.len()) + "):\n"@ + anomalies_text(s)
    }
}

/// The GPT cross-check line, where a cross-check was made.
pub open spec fn gpt_section(g: Option<GptCrossCheck>) -> Seq<char> {
    match g {
        Some(c) => "\nGPT cross-check: "@ + dec(c.partition_entries as nat) + " partition entries, "@
            + dec(c.anomalies as nat) + " GPT anomalies\n"@,
        None => seq![],
    }
}

/// The closing line naming the highest severity, or `none (clean)`.
pub open spec fn severity_section(s: Seq<Anomaly>) -> Seq<char> {
    "\nHighest severity: "@ + match max_severity_spec(s) {
        Some(m) => severity_name(m),
        None => "none (clean)"@,
    } + "\n"@
}

/// The whole text report of an analysis.
pub open spec fn report_text(a: MbrAnalysis) -> Seq<char> {
    header_text(a) + partition_section(a.partitions@) + anomaly_section(a.anomalies@)
        + gpt_section(a.gpt) + severity_section(a.anomalies@)
}

/// Two severities that are both the highest of the same anomalies are equal.
pub proof fn lemma_max_severity_unique(s: Seq<Anomaly>, m1: Severity, m2: Severity)
    requires
        is_max_severity(s, m1),
        is_max_severity(s, m2),
    ensures
        m1 == m2,
{
    let i = choose|i: int| 0 <= i < s.len() && #[trigger] s[i].severity == m1;
    let j = choose|j: int| 0 <= j < s.len() && #[trigger] s[j].severity == m2;
    assert(severity_rank(s[i].severity) <= severity_rank(m2));
    assert(severity_rank(s[j].severity) <= severity_rank(m1));
}

/// A partition line shows the name it was given for the partition's type.
pub proof fn lemma_partition_line_shows_name(p: PartitionSummary, name: Seq<char>)
    ensures
        contains_text(partition_line_named(p, name), name),
{
    let l0 = "  ["@ + dec(p.index as nat) + "] "@;
    let padded = pad_end(name, NAME_WIDTH as nat);
    let rest = " LBA "@ + pad_start(dec(p.lba_start as nat), LBA_WIDTH as nat) + "..="@ + pad_end(
        dec(p.lba_end as nat),
        LBA_WIDTH as nat,
    ) + "  fs="@ + fs_text(p.detected_fs) + "\n"@;
    lemma_pad_end_contains(name, NAME_WIDTH as nat);
    lemma_contains_concat(l0, padded, name);
    lemma_contains_concat(l0 + padded, rest, name);
    assert(partition_line_named(p, name) =~= l0 + padded + rest);
}

/// The partition lines hold the line of every partition.
pub proof fn lemma_partitions_text_holds_line(ps: Seq<PartitionSummary>, k: int)
    requires
        0 <= k < ps.len(),
    ensures
        contains_text(partitions_text(ps), partition_line(ps[k])),
    decreases ps.len(),
{
    let init = partitions_text(ps.drop_last());
    let last = partition_line(ps.last());
    if k == ps.len() - 1 {
        lemma_contains_prefix(last, seq![]);
        assert(last + seq![] =~= last);
        lemma_contains_concat(init, last, last);
    } else {
        lemma_partitions_text_holds_line(ps.drop_last(), k);
        assert(ps.drop_last()[k] == ps[k]);
        lemma_contains_concat(init, last, partition_line(ps[k]));
    }
}

/// Containment carries through a containing text.
pub proof fn lemma_contains_trans(a: Seq<char>, b: Seq<char>, c: Seq<char>)
    requires
        contains_text(a, b),
        contains_text(b, c),
    ensures
        contains_text(a, c),
{
    let i = choose|i: int|
        0 <= i && i + b.len() <= a.len() && #[trigger] a.subrange(i, i + b.len()) == b;
    let j = choose|j: int|
        0 <= j && j + c.len() <= b.len() && #[trigger] b.subrange(j, j + c.len()) == c;
    let t = i + j;
    assert(a.subrange(t, t + c.len()) =~= b.subrange(j, j + c.len()));
}

/// The report names the declared type of every partition it lists, as the
/// knowledge base names it.
pub proof fn law_report_names_partition_types(a: MbrAnalysis, k: int)
    requires
        0 <= k < a.partitions@.len(),
    ensures
        contains_text(report_text(a), type_code_name(a.partitions@[k].declared_type.0)),
{
    let ps = a.partitions@;
    let p = ps[k];
    let name = type_code_name(p.declared_type.0);
    lemma_partition_line_shows_name(p, name);
    lemma_partitions_text_holds_line(ps, k);
    lemma_contains_trans(partitions_text(ps), partition_line(p), name);
    let head = "\nPartition table ("@ + dec(ps.len()) + " entries):\n"@ + (if ps.len() == 0 {
        "  (no primary partitions)\n"@
    } else {
        seq![]
    });
    lemma_contains_concat(head, partitions_text(ps), name);
    assert(partition_section(ps) == head + partitions_text(ps));
    lemma_contains_concat(header_text(a), partition_section(ps), name);
    lemma_contains_concat(header_text(a) + partition_section(ps), anomaly_section(a.anomalies@), name);
    lemma_contains_concat(
        header_text(a) + partition_section(ps) + anomaly_section(a.anomalies@),
        gpt_section(a.gpt),
        name,
    );
    lemma_contains_concat(
        header_text(a) + partition_section(ps) + anomaly_section(a.anomalies@) + gpt_section(
            a.gpt,
        ),
        severity_section(a.anomalies@),
        name,
    );
}

/// Text placed between two others is found in the whole.
pub proof fn lemma_contains_middle(x: Seq<char>, y: Seq<char>, z: Seq<char>)
    ensures
        contains_text(x + y + z, y),
{
    lemma_contains_prefix(y, z);
    lemma_contains_concat(x, y + z, y);
    assert(x + y + z =~= x + (y + z));
}

/// Text found in the header is found in the report.
proof fn lemma_report_holds_header_text(a: MbrAnalysis, t: Seq<char>)
    requires
        contains_text(header_text(a), t),
    ensures
        contains_text(report_text(a), t),
{
    let rest = partition_section(a.partitions@) + anomaly_section(a.anomalies@) + gpt_section(
        a.gpt,
    ) + severity_section(a.anomalies@);
    lemma_contains_concat(header_text(a), rest, t);
    assert(report_text(a) =~= header_text(a) + rest);
}

/// The header states the disk signature, the analysis's own boot code
/// identity and its partitioning era, each on its own line.
pub proof fn law_report_header_lines(a: MbrAnalysis)
    ensures
        contains_text(
            report_text(a),
            "  disk signature : 0x"@ + hex_fixed(a.disk_serial as nat, 8) + "\n"@,
        ),
        contains_text(
            report_text(a),
            "  boot code      : "@ + boot_code_id_name(a.boot_code_id) + "\n"@,
        ),
        contains_text(report_text(a), "  partitioning   : "@ + era_name(a.era) + "\n"@),
{
    let title = "MBR Forensic Analysis\n"@;
    let sig = "  disk signature : 0x"@ + hex_fixed(a.disk_serial as nat, 8) + "\n"@;
    let boot = "  boot code      : "@ + boot_code_id_name(a.boot_code_id) + "\n"@;
    let era = "  partitioning   : "@ + era_name(a.era) + "\n"@;
    assert(header_text(a) =~= title + sig + (boot + era));
    lemma_contains_middle(title, sig, boot + era);
    lemma_report_holds_header_text(a, sig);
    assert(header_text(a) =~= (title + sig) + boot + era);
    lemma_contains_middle(title + sig, boot, era);
    lemma_report_holds_header_text(a, boot);
    assert(header_text(a) =~= (title + sig + boot) + era + Seq::<char>::empty());
    lemma_contains_middle(title + sig + boot, era, Seq::<char>::empty());
    lemma_report_holds_header_text(a, era);
}

/// Where a GPT cross-check was made, the report states its counts of GPT
/// partition entries and GPT anomalies.
pub proof fn law_report_shows_gpt_line(a: MbrAnalysis)
    ensures
        a.gpt matches Some(c) ==> contains_text(
            report_text(a),
            "\nGPT cross-check: "@ + dec(c.partition_entries as nat) + " partition entries, "@
                + dec(c.anomalies as nat) + " GPT anomalies\n"@,
        ),
{
    if let Some(c) = a.gpt {
        let front = header_text(a) + partition_section(a.partitions@) + anomaly_section(
            a.anomalies@,
        );
        lemma_contains_middle(front, gpt_section(a.gpt), severity_section(a.anomalies@));
    }
}

/// The report holds the table line of every partition it lists.
proof fn lemma_report_holds_partition_line(a: MbrAnalysis, k: int)
    requires
        0 <= k < a.partitions@.len(),
    ensures
        contains_text(report_text(a), partition_line(a.partitions@[k])),
{
    let ps = a.partitions@;
    let line = partition_line(ps[k]);
    lemma_partitions_text_holds_line(ps, k);
    let head = "\nPartition table ("@ + dec(ps.len()) + " entries):\n"@ + (if ps.len() == 0 {
        "  (no primary partitions)\n"@
    } else {
        seq![]
    });
    lemma_contains_concat(head, partitions_text(ps), line);
    assert(partition_section(ps) == head + partitions_text(ps));
    let rest = anomaly_section(a.anomalies@) + gpt_section(a.gpt) + severity_section(
        a.anomalies@,
    );
    lemma_contains_concat(header_text(a), partition_section(ps), line);
    lemma_contains_concat(header_text(a) + partition_section(ps), rest, line);
    assert(report_text(a) =~= header_text(a) + partition_section(ps) + rest);
}

/// A partition line shows the whole LBA range, `start..=end`, in decimal.
pub proof fn law_partition_line_shows_lba_range(p: PartitionSummary, name: Seq<char>)
    ensures
        contains_text(
            partition_line_named(p, name),
            dec(p.lba_start as nat) + "..="@ + dec(p.lba_end as nat),
        ),
{
    let ds = dec(p.lba_start as nat);
    let de = dec(p.lba_end as nat);
    let ps = pad_start(ds, LBA_WIDTH as nat);
    let pe = pad_end(de, LBA_WIDTH as nat);
    crate::text::law_pad_start_keeps_text(ds, LBA_WIDTH as nat);
    crate::text::law_pad_end_keeps_text(de, LBA_WIDTH as nat);
    let k = ps.len() - ds.len();
    assert(ps =~= ps.subrange(0, k) + ds);
    assert(pe =~= de + pe.subrange(de.len() as int, pe.len() as int));
    let l0 = "  ["@ + dec(p.index as nat) + "] "@ + pad_end(name, NAME_WIDTH as nat) + " LBA "@;
    let l1 = "  fs="@ + fs_text(p.detected_fs) + "\n"@;
    let range = ds + "..="@ + de;
    let before = l0 + ps.subrange(0, k);
    let after = pe.subrange(de.len() as int, pe.len() as int) + l1;
    assert(partition_line_named(p, name) =~= before + range + after);
    lemma_contains_middle(before, range, after);
}

/// The report shows the whole LBA range of every partition it lists.
pub proof fn law_report_shows_lba_ranges(a: MbrAnalysis, k: int)
    requires
        0 <= k < a.partitions@.len(),
    ensures
        contains_text(
            report_text(a),
            dec(a.partitions@[k].lba_start as nat) + "..="@ + dec(a.partitions@[k].lba_end as nat),
        ),
{
    let p = a.partitions@[k];
    lemma_report_holds_partition_line(a, k);
    law_partition_line_shows_lba_range(p, type_code_name(p.declared_type.0));
    lemma_contains_trans(
        report_text(a),
        partition_line(p),
        dec(p.lba_start as nat) + "..="@ + dec(p.lba_end as nat),
    );
}

/// Non-empty anomalies have a highest severity.
pub proof fn lemma_max_severity_exists(s: Seq<Anomaly>)
    requires
        s.len() > 0,
    ensures
        exists|m: Severity| is_max_severity(s, m),
    decreases s.len(),
{
    let last = s.last();
    if s.len() == 1 {
        assert(s[0].severity == last.severity);
        assert(is_max_severity(s, last.severity));
    } else {
        let init = s.drop_last();
        lemma_max_severity_exists(init);
        let b = choose|m: Severity| is_max_severity(init, m);
        let j = choose|j: int| 0 <= j < init.len() && #[trigger] init[j].severity == b;
        assert(s[j].severity == b);
        if severity_rank(last.severity) > severity_rank(b) {
            assert(s[s.len() - 1].severity == last.severity);
            assert forall|i: int| 0 <= i < s.len() implies severity_rank(
                #[trigger] s[i].severity,
            ) <= severity_rank(last.severity) by {
                if i < s.len() - 1 {
                    assert(s[i] == init[i]);
                }
            }
            assert(is_max_severity(s, last.severity));
        } else {
            assert forall|i: int| 0 <= i < s.len() implies severity_rank(
                #[trigger] s[i].severity,
            ) <= severity_rank(b) by {
                if i < s.len() - 1 {
                    assert(s[i] == init[i]);
                }
            }
            assert(is_max_severity(s, b));
        }
    }
}

/// The report states how many partitions it lists and, when there are
/// anomalies, how many.
pub proof fn law_report_counts(a: MbrAnalysis)
    ensures
        contains_text(
            report_text(a),
            "\nPartition table ("@ + dec(a.partitions@.len()) + " entries):\n"@,
        ),
        a.anomalies@.len() > 0 ==> contains_text(
            report_text(a),
            "\nAnomalies ("@ + dec(a.anomalies@.len()) + "):\n"@,
        ),
{
    let ps = a.partitions@;
    let count = "\nPartition table ("@ + dec(ps.len()) + " entries):\n"@;
    let rest = (if ps.len() == 0 {
        "  (no primary partitions)\n"@
    } else {
        seq![]
    }) + partitions_text(ps) + anomaly_section(a.anomalies@) + gpt_section(a.gpt)
        + severity_section(a.anomalies@);
    assert(report_text(a) =~= header_text(a) + count + rest);
    lemma_contains_middle(header_text(a), count, rest);
    if a.anomalies@.len() > 0 {
        let an = a.anomalies@;
        let acount = "\nAnomalies ("@ + dec(an.len()) + "):\n"@;
        let front = header_text(a) + partition_section(ps);
        let back = anomalies_text(an) + gpt_section(a.gpt) + severity_section(an);
        assert(report_text(a) =~= front + acount + back);
        lemma_contains_middle(front, acount, back);
    }
}

/// When there are anomalies, the report closes by naming a highest severity:
/// one that some anomaly has and that no anomaly exceeds.
pub proof fn law_report_names_highest_severity(a: MbrAnalysis)
    requires
        a.anomalies@.len() > 0,
    ensures
        exists|m: Severity|
            is_max_severity(a.anomalies@, m) && contains_text(
                report_text(a),
                "\nHighest severity: "@ + severity_name(m) + "\n"@,
            ),
{
    let an = a.anomalies@;
    lemma_max_severity_exists(an);
    let m = choose|m: Severity| is_max_severity(an, m);
    let front = header_text(a) + partition_section(a.partitions@) + anomaly_section(an)
        + gpt_section(a.gpt);
    let line = "\nHighest severity: "@ + severity_name(m) + "\n"@;
    assert(report_text(a) =~= front + line + Seq::<char>::empty());
    lemma_contains_middle(front, line, Seq::<char>::empty());
}

/// The anomaly lines hold the line of every anomaly.
pub proof fn lemma_anomalies_text_holds_line(s: Seq<Anomaly>, k: int)
    requires
        0 <= k < s.len(),
    ensures
        contains_text(anomalies_text(s), anomaly_line(s[k])),
    decreases s.len(),
{
    let init = anomalies_text(s.drop_last());
    let last = anomaly_line(s.last());
    if k == s.len() - 1 {
        lemma_contains_prefix(last, seq![]);
        assert(last + seq![] =~= last);
        lemma_contains_concat(init, last, last);
    } else {
        lemma_anomalies_text_holds_line(s.drop_last(), k);
        assert(s.drop_last()[k] == s[k]);
        lemma_contains_concat(init, last, anomaly_line(s[k]));
    }
}

/// An anomaly line shows the anomaly's code.
pub proof fn lemma_anomaly_line_shows_code(x: Anomaly)
    ensures
        contains_text(anomaly_line(x), x.code@),
{
    let before = "  "@ + "["@ + severity_name(x.severity) + "] "@;
    let after = " @ 0x"@ + crate::text::hex(x.offset as nat) + ": "@ + x.note@ + "\n"@;
    lemma_contains_prefix(x.code@, after);
    lemma_contains_concat(before, x.code@ + after, x.code@);
    assert(anomaly_line(x) =~= before + (x.code@ + after));
}

/// The report shows the code of every anomaly.
pub proof fn law_report_shows_anomaly_codes(a: MbrAnalysis, k: int)
    requires
        0 <= k < a.anomalies@.len(),
    ensures
        contains_text(report_text(a), a.anomalies@[k].code@),
{
    let s = a.anomalies@;
    let code = s[k].code@;
    lemma_anomaly_line_shows_code(s[k]);
    lemma_anomalies_text_holds_line(s, k);
    lemma_contains_trans(anomalies_text(s), anomaly_line(s[k]), code);
    let head = "\nAnomalies ("@ + dec(s.len()) + "):\n"@;
    lemma_contains_concat(head, anomalies_text(s), code);
    let front = header_text(a) + partition_section(a.partitions@);
    lemma_contains_concat(front, anomaly_section(s), code);
    lemma_contains_concat(front + anomaly_section(s), gpt_section(a.gpt), code);
    lemma_contains_concat(
        front + anomaly_section(s) + gpt_section(a.gpt),
        severity_section(s),
        code,
    );
}

/// The report opens with its title line, so it is never empty.
pub proof fn law_report_opens_with_title(a: MbrAnalysis)
    ensures
        report_text(a).len() > 0,
        report_text(a).subrange(0, "MBR Forensic Analysis\n"@.len() as int)
            == "MBR Forensic Analysis\n"@,
{
    reveal_strlit("MBR Forensic Analysis\n");
    let title = "MBR Forensic Analysis\n"@;
    let r = report_text(a);
    assert(r =~= title + (r.subrange(title.len() as int, r.len() as int)));
    assert(r.subrange(0, title.len() as int) =~= title);
}

/// The closing line reads `none (clean)` exactly when no anomaly was found,
/// which is also exactly when the command line exits with status 0.
pub proof fn law_clean_line_iff_no_anomaly(s: Seq<Anomaly>)
    ensures
        (severity_section(s) == "\nHighest severity: "@ + "none (clean)"@ + "\n"@) <==> s.len()
            == 0,
{
    if s.len() != 0 {
        let m = choose|m: Severity| is_max_severity(s, m);
        reveal_strlit("none (clean)");
        reveal_strlit("Info");
        reveal_strlit("Low");
        reveal_strlit("Medium");
        reveal_strlit("High");
        reveal_strlit("Critical");
        assert(severity_name(m).len() != "none (clean)"@.len());
        if severity_section(s) == "\nHighest severity: "@ + "none (clean)"@ + "\n"@ {
            assert(severity_section(s).len() == ("\nHighest severity: "@ + "none (clean)"@
                + "\n"@).len());
        }
    }
}

/// Appends the `fs=` column text.
fn push_fs(s: &mut String, f: Option<DetectedFs>)
    ensures
        final(s)@ == old(s)@ + fs_text(f),
{
    match f {
        Some(fs) => s.append(fs.debug_name()),
        None => s.append("-"),
    }
}

/// Appends one partition-table line for `p`, showing `name` as its type.
pub fn push_partition_line(s: &mut String, p: &PartitionSummary, name: &str)
    ensures
        final(s)@ == old(s)@ + partition_line_named(*p, name@),
{
    let ghost start = s@;
    s.append("  [");
    push_dec(s, p.index as u64);
    s.append("] ");
    push_pad_end(s, name, NAME_WIDTH);
    s.append(" LBA ");
    push_dec_pad_start(s, p.lba_start, LBA_WIDTH);
    s.append("..=");
    push_dec_pad_end(s, p.lba_end, LBA_WIDTH);
    s.append("  fs=");
    push_fs(s, p.detected_fs);
    s.append("\n");
    assert(s@ =~= start + partition_line_named(*p, name@));
}

/// Renders a partition-table line for `p`, showing `name` as its type.
pub fn partition_line_with_name(p: &PartitionSummary, name: &str) -> (r: String)
    ensures
        r@ == partition_line_named(*p, name@),
{
    let mut s = String::new();
    push_partition_line(&mut s, p, name);
    s
}

/// Appends the header lines.
fn push_header(s: &mut String, a: &MbrAnalysis)
    ensures
        final(s)@ == old(s)@ + header_text(*a),
{
    let ghost start = s@;
    s.append("MBR Forensic Analysis\n");
    s.append("  disk signature : 0x");
    push_hex_fixed(s, a.disk_serial as u64, 8);
    s.append("\n");
    s.append("  boot code      : ");
    s.append(a.boot_code_id.debug_name());
    s.append("\n");
    s.append("  partitioning   : ");
    s.append(a.era.debug_name());
    s.append("\n");
    assert(s@ =~= start + header_text(*a));
}

/// Appends the partition-table section.
fn push_partition_section(s: &mut String, ps: &Vec<PartitionSummary>)
    ensures
        final(s)@ == old(s)@ + partition_section(ps@),
{
    let ghost start = s@;
    let np = ps.len();
    s.append("\nPartition table (");
    push_dec(s, np as u64);
    s.append(" entries):\n");
    if np == 0 {
        s.append("  (no primary partitions)\n");
    }
    let ghost before_lines = s@;
    let mut i: usize = 0;
    while i < np
        invariant
            np == ps@.len(),
            i <= np,
            s@ == before_lines + partitions_text(ps@.take(i as int)),
        decreases np - i,
    {
        let p = &ps[i];
        let name = p.declared_type.name();
        push_partition_line(s, p, name);
        assert(ps@.take(i + 1).drop_last() =~= ps@.take(i as int));
        i = i + 1;
    }
    assert(ps@.take(np as int) =~= ps@);
    assert(s@ =~= start + partition_section(ps@));
}

/// Appends the anomaly section.
fn push_anomaly_section(s: &mut String, an: &Vec<Anomaly>)
    ensures
        final(s)@ == old(s)@ + anomaly_section(an@),
{
    let ghost start = s@;
    let na = an.len();
    if na == 0 {
        s.append("\nAnomalies: none\n");
    } else {
        s.append("\nAnomalies (");
        push_dec(s, na as u64);
        s.append("):\n");
        let ghost before_lines = s@;
        let mut j: usize = 0;
        while j < na
            invariant
                na == an@.len(),
                j <= na,
                s@ == before_lines + anomalies_text(an@.take(j as int)),
            decreases na - j,
        {
            s.append("  ");
            let t = an[j].render();
            s.append(t.as_str());
            s.append("\n");
            assert(an@.take(j + 1).drop_last() =~= an@.take(j as int));
            j = j + 1;
        }
        assert(an@.take(na as int) =~= an@);
    }
    assert(s@ =~= start + anomaly_section(an@));
}

/// Appends the GPT cross-check line, where a cross-check was made.
fn push_gpt_section(s: &mut String, g: Option<GptCrossCheck>)
    ensures
        final(s)@ == old(s)@ + gpt_section(g),
{
    let ghost start = s@;
    if let Some(c) = g {
        s.append("\nGPT cross-check: ");
        push_dec(s, c.partition_entries as u64);
        s.append(" partition entries, ");
        push_dec(s, c.anomalies as u64);
        s.append(" GPT anomalies\n");
    }
    assert(s@ =~= start + gpt_section(g));
}

/// Appends the closing severity line.
fn push_severity_section(s: &mut String, a: &MbrAnalysis)
    ensures
        final(s)@ == old(s)@ + severity_section(a.anomalies@),
{
    let ghost start = s@;
    s.append("\nHighest severity: ");
    match a.max_severity() {
        Some(sev) => {
            proof {
                let c = choose|m: Severity| is_max_severity(a.anomalies@, m);
                lemma_max_severity_unique(a.anomalies@, sev, c);
            }
            s.append(sev.name());
        },
        None => {
            s.append("none (clean)");
        },
    }
    s.append("\n");
    assert(s@ =~= start + severity_section(a.anomalies@));
}

/// Renders a forensic analysis as a multi-line text report.
///
/// The format is stable enough to grep but is meant for human eyes; programs
/// should read the typed [`MbrAnalysis`] instead.
pub fn text_report(a: &MbrAnalysis) -> (r: String)
    ensures
        r@ == report_text(*a),
{
    let mut s = String::new();
    push_header(&mut s, a);
    push_partition_section(&mut s, &a.partitions);
    push_anomaly_section(&mut s, &a.anomalies);
    push_gpt_section(&mut s, a.gpt);
    push_severity_section(&mut s, a);
    assert(s@ =~= report_text(*a));
    s
}

} // verus!
