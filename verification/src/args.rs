//! Interpretation of the command-line argument list: a help or version flag
//! anywhere in the list short-circuits the session; otherwise the whole list,
//! in order, is the command payload forwarded to the remote service.

use vstd::prelude::*;

use crate::text::str_eq;

verus! {

pub open spec fn is_help_flag(s: Seq<char>) -> bool {
    s == "-h"@ || s == "--help"@
}

pub open spec fn is_version_flag(s: Seq<char>) -> bool {
    s == "-v"@ || s == "--version"@
}

pub open spec fn is_flag(s: Seq<char>) -> bool {
    is_help_flag(s) || is_version_flag(s)
}

/// The first help or version flag in the list, if any.
pub open spec fn first_flag(args: Seq<Seq<char>>) -> Option<Seq<char>>
    decreases args.len(),
{
    if args.len() == 0 {
        None
    } else if is_flag(args[0]) {
        Some(args[0])
    } else {
        first_flag(args.drop_first())
    }
}

/// What an invocation asks for: usage guidance, the version string, or a run
/// of the whole argument list as the remote command payload.
pub enum Invocation {
    Help,
    Version,
    Run(Vec<String>),
}

/// How the argument list is to be interpreted, as a relation between the list
/// and the chosen invocation.
pub open spec fn invocation_of(args: Seq<Seq<char>>, r: Invocation) -> bool {
    match first_flag(args) {
        Some(f) => if is_help_flag(f) {
            r is Help
        } else {
            r is Version
        },
        None => r matches Invocation::Run(payload) && payload@.map_values(|s: String| s@)
            == args,
    }
}

/// Scans the argument list for the first help or version flag; without one,
/// the list itself becomes the command payload.
pub fn parse_invocation(args: Vec<String>) -> (r: Invocation)
    ensures
        invocation_of(args@.map_values(|s: String| s@), r),
{
    let ghost view: Seq<Seq<char>> = args@.map_values(|s: String| s@);
    proof {
        assert(view.skip(0) =~= view);
    }
    let mut i: usize = 0;
    while i < args.len()
        invariant
            0 <= i <= args.len(),
            view == args@.map_values(|s: String| s@),
            forall|j: int| 0 <= j < i ==> !is_flag(view[j]),
            first_flag(view) == first_flag(view.skip(i as int)),
        decreases args.len() - i,
    {
        let a: &String = &args[i];
        proof {
            assert(view.skip(i as int)[0] == view[i as int]);
        }
        if str_eq(a.as_str(), "-h") || str_eq(a.as_str(), "--help") {
            proof {
                assert(first_flag(view) == Some(view[i as int]));
            }
            return Invocation::Help;
        }
        if str_eq(a.as_str(), "-v") || str_eq(a.as_str(), "--version") {
            proof {
                assert(first_flag(view) == Some(view[i as int]));
            }
            return Invocation::Version;
        }
        proof {
            assert(view.skip(i as int).drop_first() =~= view.skip(i as int + 1));
        }
        i = i + 1;
    }
    proof {
        assert(view.skip(i as int).len() == 0);
        assert(first_flag(view) is None);
    }
    Invocation::Run(args)
}

} // verus!
