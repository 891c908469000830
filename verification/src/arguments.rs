use vstd::prelude::*;
use vstd::slice::slice_index_get;
use crate::error::FerrisBoyError;

verus! {

/// The character views of an argument vector.
pub open spec fn spec_arg_views(args: Seq<String>) -> Seq<Seq<char>> {
    Seq::new(args.len(), |i: int| args[i]@)
}

/// The two spellings that switch debug output on.
pub open spec fn spec_is_debug_flag(s: Seq<char>) -> bool {
    s == "--debug"@ || s == "-d"@
}

/// An argument that looks like a flag: at least two characters, starting
/// with a dash. A lone dash counts as a positional value.
pub open spec fn spec_is_flag_like(s: Seq<char>) -> bool {
    s.len() >= 2 && s[0] == '-'
}

/// Folds the arguments after the program name, left to right, into
/// (ROM path seen so far, debug flag seen so far, parse failed). An
/// unrecognized flag or a second positional argument fails the parse.
pub open spec fn spec_scan(views: Seq<Seq<char>>, i: int) -> (Option<Seq<char>>, bool, bool)
    decreases i,
{
    if i <= 1 {
        (Option::None, false, false)
    } else {
        let prev = spec_scan(views, i - 1);
        let s = views[i - 1];
        if prev.2 {
            prev
        } else if spec_is_debug_flag(s) {
            (prev.0, true, false)
        } else if spec_is_flag_like(s) {
            (prev.0, prev.1, true)
        } else if prev.0 is Some {
            (prev.0, prev.1, true)
        } else {
            (Option::Some(s), prev.1, false)
        }
    }
}

/// The parse of a full argument vector: the ROM path and the debug flag, or
/// nothing when the vector is empty, holds an unrecognized flag, holds more
/// than one positional argument, or lacks the ROM path.
pub open spec fn spec_parse_args(views: Seq<Seq<char>>) -> Option<(Seq<char>, bool)> {
    if views.len() == 0 {
        Option::None
    } else {
        let st = spec_scan(views, views.len() as int);
        if st.2 || st.0 is None {
            Option::None
        } else {
            Option::Some((st.0->0, st.1))
        }
    }
}

/// Once the scan has failed, it stays failed through the rest of the vector.
proof fn lemma_scan_error_sticky(views: Seq<Seq<char>>, i: int, j: int)
    requires
        1 <= i <= j,
        spec_scan(views, i).2,
    ensures
        spec_scan(views, j).2,
    decreases j - i,
{
    if j > i {
        lemma_scan_error_sticky(views, i, j - 1);
    }
}

/// Shared launch arguments: the ROM image path, and whether debug output is
/// requested.
#[derive(Debug)]
pub struct Args {
    pub debug: bool,
    pub rom_path: String,
}

impl Args {
    /// Parses an argument vector whose first element is the program name:
    /// `--debug` (or `-d`) switches debug output on, exactly one positional
    /// argument names the ROM path. Succeeds if and only if the vector is
    /// non-empty, holds no other flag-like argument, and holds exactly one
    /// positional argument.
    pub fn from_args_vec(args: &[String]) -> (r: Result<Self, FerrisBoyError>)
        ensures
            r is Ok <==> spec_parse_args(spec_arg_views(args@)) is Some,
            r is Ok ==> r->Ok_0.rom_path@ == (spec_parse_args(spec_arg_views(args@))->0).0
                && r->Ok_0.debug == (spec_parse_args(spec_arg_views(args@))->0).1,
            r is Err ==> r->Err_0 is GeneralError,
    {
        let ghost views = spec_arg_views(args@);
        if args.len() == 0 {
            return Err(FerrisBoyError::GeneralError("no arguments given"));
        }
        let debug_long: String = "--debug".to_owned();
        let debug_short: String = "-d".to_owned();
        let n = args.len();
        let mut rom_path: Option<String> = None;
        let mut debug = false;
        let mut i: usize = 1;
        while i < n
            invariant
                1 <= i <= n,
                n == views.len(),
                views == spec_arg_views(args@),
                debug_long@ == "--debug"@,
                debug_short@ == "-d"@,
                !spec_scan(views, i as int).2,
                spec_scan(views, i as int).1 == debug,
                match rom_path {
                    Option::Some(p) => spec_scan(views, i as int).0 == Option::Some(p@),
                    Option::None => spec_scan(views, i as int).0 is None,
                },
            decreases n - i,
        {
            let s: &String = slice_index_get(args, i);
            proof {
                assert(views[i as int] == s@);
            }
            if s.eq(&debug_long) || s.eq(&debug_short) {
                debug = true;
            } else {
                let len = s.as_str().unicode_len();
                let flag_like = len >= 2 && s.as_str().get_char(0) == '-';
                if flag_like {
                    proof {
                        lemma_scan_error_sticky(views, i + 1, n as int);
                    }
                    return Err(FerrisBoyError::GeneralError("unrecognized flag argument"));
                }
                if rom_path.is_some() {
                    proof {
                        lemma_scan_error_sticky(views, i + 1, n as int);
                    }
                    return Err(FerrisBoyError::GeneralError("unexpected extra argument"));
                }
                rom_path = Some(s.clone());
            }
            i += 1;
        }
        match rom_path {
            Some(p) => Ok(Args { debug, rom_path: p }),
            None => Err(FerrisBoyError::GeneralError("missing ROM path argument")),
        }
    }
}

} // verus!
