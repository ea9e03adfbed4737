//! Decisions of the `mbr-forensic` command line: what the arguments ask for
//! and which exit status an analysis yields.

use vstd::prelude::*;

use crate::findings::MbrAnalysis;

verus! {

/// What the command line asks for.
#[derive(Debug)]
pub enum CliAction {
    /// Print the usage line and exit with status 2.
    Usage,
    /// Analyse the image at `path`, as JSON when `json` is set.
    Analyse { json: bool, path: String },
}

/// The state after reading `args` left to right: `None` once a help flag was
/// seen, else whether `--json` was seen and the last other argument.
pub open spec fn args_state(args: Seq<Seq<char>>) -> Option<(bool, Option<Seq<char>>)>
    decreases args.len(),
{
    if args.len() == 0 {
        Some((false, None))
    } else {
        match args_state(args.drop_last()) {
            None => None,
            Some(st) => {
                let a = args.last();
                if a == "--json"@ {
                    Some((true, st.1))
                } else if a == "-h"@ || a == "--help"@ {
                    None
                } else {
                    Some((st.0, Some(a)))
                }
            },
        }
    }
}

/// What the arguments ask for: `None` for the usage message (a help flag,
/// or no image path), else the JSON switch and the image path.
pub open spec fn cli_outcome(args: Seq<Seq<char>>) -> Option<(bool, Seq<char>)> {
    match args_state(args) {
        Some((json, Some(path))) => Some((json, path)),
        _ => None,
    }
}

/// The arguments by their text.
pub open spec fn arg_texts(args: Seq<String>) -> Seq<Seq<char>> {
    args.map_values(|a: String| a@)
}

/// Reads the command-line arguments (without the program name): `--json`
/// selects JSON output, `-h`/`--help` asks for usage at once, and any other
/// argument is the image path (the last one wins).
pub fn parse_args(args: &Vec<String>) -> (r: CliAction)
    ensures
        match r {
            CliAction::Usage => cli_outcome(arg_texts(args@)) is None,
            CliAction::Analyse { json, path } => cli_outcome(arg_texts(args@)) == Some(
                (json, path@),
            ),
        },
{
    let json_flag = String::from_str("--json");
    let short_help = String::from_str("-h");
    let long_help = String::from_str("--help");
    proof {
        reveal_strlit("--json");
        reveal_strlit("-h");
        reveal_strlit("--help");
    }
    let mut json = false;
    let mut path: Option<String> = None;
    let n = args.len();
    let mut i: usize = 0;
    while i < n
        invariant
            n == args@.len(),
            i <= n,
            json_flag@ == "--json"@,
            short_help@ == "-h"@,
            long_help@ == "--help"@,
            args_state(arg_texts(args@).take(i as int)) == Some(
                (
                    json,
                    match path {
                        Some(p) => Some(p@),
                        None => None::<Seq<char>>,
                    },
                ),
            ),
        decreases n - i,
    {
        let a = &args[i];
        let ghost pre = arg_texts(args@).take(i as int);
        assert(arg_texts(args@).take(i + 1) =~= pre.push(a@));
        assert(arg_texts(args@).take(i + 1).drop_last() =~= pre);
        if *a == json_flag {
            json = true;
        } else if *a == short_help || *a == long_help {
            proof {
                lemma_help_is_final(arg_texts(args@), i as int + 1);
            }
            return CliAction::Usage;
        } else {
            path = Some(a.clone());
        }
        i = i + 1;
    }
    assert(arg_texts(args@).take(n as int) =~= arg_texts(args@));
    match path {
        Some(p) => CliAction::Analyse { json, path: p },
        None => CliAction::Usage,
    }
}

/// Once a help flag has been read, the arguments ask for usage whatever follows.
pub proof fn lemma_help_is_final(args: Seq<Seq<char>>, k: int)
    requires
        0 <= k <= args.len(),
        args_state(args.take(k)) is None,
    ensures
        args_state(args) is None,
    decreases args.len() - k,
{
    if k < args.len() {
        assert(args.take(k + 1).drop_last() =~= args.take(k));
        lemma_help_is_final(args, k + 1);
    } else {
        assert(args.take(k) =~= args);
    }
}

/// The exit status for a finished analysis: 0 for a clean disk, 1 when any
/// anomaly was found.
pub fn exit_status(a: &MbrAnalysis) -> (code: u8)
    ensures
        code == (if a.anomalies@.len() == 0 { 0u8 } else { 1u8 }),
{
    if a.anomalies.len() == 0 {
        0
    } else {
        1
    }
}

} // verus!
