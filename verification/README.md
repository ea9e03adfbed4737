# mbr_forensic (verified core)

Verified pieces of a forensic Master Boot Record analyser, written in Verus.

- `src/text.rs` — decimal / hexadecimal rendering and padding, specified over
  `Seq<char>`, with read-back and zero-fill lemmas.
- `src/findings.rs` — severities, anomalies, partition summaries, the analysis
  record and its highest severity.
- `src/report.rs` — the text report, specified line by line, with its laws
  (every partition type name and anomaly code appears; the title opens it; the
  closing line says `none (clean)` exactly for a clean disk; the GPT
  cross-check line appears where a cross-check was made).
- `src/partition.rs`, `src/bootkit.rs` — partition type names and boot-sector
  malware markers from the `forensicnomicon` knowledge base.
- `src/cli.rs` — command-line argument reading and exit status.
- `src/diag.rs` — trace-event hooks (no-ops).
- `app/main.rs` — the `mbr-forensic` program: file I/O and printing around the
  library; the sector-level analysis engine is a separate crate.
