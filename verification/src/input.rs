//! The input descriptor: either the standard-input stream (written `-` on the
//! command line) or a filesystem path.

use vstd::prelude::*;

verus! {

/// What the user asked the server to expose: the bytes arriving on standard
/// input, or a file that already lives at a path.
#[derive(Debug, Clone)]
pub enum InputPath {
    Stdin,
    Path(String),
}

impl InputPath {
    /// Parses a command-line positional argument. The single dash `-` selects
    /// the stream variant; every other string is taken verbatim as a path.
    /// Every string parses successfully.
    pub fn from_str(s: &str) -> (r: Result<InputPath, String>)
        ensures
            r is Ok,
            (r->Ok_0 is Stdin) <==> s@ =~= "-"@,
            r->Ok_0 matches InputPath::Path(p) ==> p@ == s@,
    {
        proof {
            reveal_strlit("-");
        }
        let n = s.unicode_len();
        if n == 1 && s.get_char(0) == '-' {
            assert(s@ =~= "-"@);
            Ok(InputPath::Stdin)
        } else {
            assert(s@ !~= "-"@);
            Ok(InputPath::Path(String::from_str(s)))
        }
    }
}

} // verus!
