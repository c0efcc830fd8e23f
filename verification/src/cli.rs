//! The command line of the program: up to two start directories.
use vstd::prelude::*;

use crate::text::opt_view;

verus! {

/// The start directories named on the command line (after the program
/// name): the left pane's, then the right pane's; more is an error.
pub open spec fn start_dirs_spec(args: Seq<Seq<char>>) -> Result<(Option<Seq<char>>, Option<Seq<char>>), Seq<char>> {
    if args.len() > 3 {
        Err("usage: zar [LEFT_START_DIR] [RIGHT_START_DIR]"@)
    } else {
        Ok((
            if args.len() > 1 { Some(args[1]) } else { None },
            if args.len() > 2 { Some(args[2]) } else { None },
        ))
    }
}

pub fn parse_start_dir_args(args: Vec<String>) -> (res: Result<(Option<String>, Option<String>), String>)
    ensures
        match start_dirs_spec(args@.map_values(|a: String| a@)) {
            Ok((l, r)) => res matches Ok((a, b)) && opt_view(a) == l && opt_view(b) == r,
            Err(m) => res matches Err(e) && e@ == m,
        },
{
    if args.len() > 3 {
        return Err(crate::text::owned("usage: zar [LEFT_START_DIR] [RIGHT_START_DIR]"));
    }
    let left = if args.len() > 1 { Some(args[1].clone()) } else { None };
    let right = if args.len() > 2 { Some(args[2].clone()) } else { None };
    Ok((left, right))
}

} // verus!
