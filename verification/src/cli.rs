//! The command line: which file holds the program.

use vstd::prelude::*;

verus! {

/// The ROM file named on a command line: the last argument if there is
/// one after the program's own name, and `game.bin` otherwise.
pub open spec fn bin_file_of(args: Seq<String>) -> Seq<char> {
    if args.len() > 1 {
        args[args.len() - 1]@
    } else {
        "game.bin"@
    }
}

/// Picks the ROM file from the arguments of the process, the program's
/// own name first.
pub fn get_bin_file(args: &Vec<String>) -> (r: String)
    ensures
        r@ == bin_file_of(args@),
{
    if args.len() > 1 {
        args[args.len() - 1].clone()
    } else {
        "game.bin".to_owned()
    }
}

} // verus!
