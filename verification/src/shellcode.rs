//! The shellcode executor's decisions.  The executor itself is pure
//! transport of control: it reads a file and jumps into its bytes,
//! which no contract can follow; what is verified is the choice of
//! path.

use vstd::prelude::*;

verus! {

/// The file read when the command line names none.
pub open spec fn spec_default_shellcode_path() -> Seq<char> {
    "shellcode.bin"@
}

/// The path the executor loads: the single optional command-line
/// argument, or `shellcode.bin` in the working directory.
pub fn shellcode_path(arg: Option<String>) -> (r: String)
    ensures
        r@ == match arg {
            Some(p) => p@,
            None => spec_default_shellcode_path(),
        },
{
    match arg {
        Some(p) => p,
        None => String::from_str("shellcode.bin"),
    }
}

} // verus!
