//! The well-known fallback location `<home>/.cargo/bin/<name>`, tried only
//! after the override variable and the bare name have both failed.

use vstd::prelude::*;
use vstd::string::StringExecFns;

verus! {

/// The character sequence of the fallback candidate for the given home
/// directory and executable name: `<home>/.cargo/bin/<name>`.
pub open spec fn fallback_chars(home: Seq<char>, name: Seq<char>) -> Seq<char> {
    home + "/.cargo/bin/"@ + name
}

/// Builds the fallback candidate path for the given home directory and
/// executable name.
pub fn fallback_candidate(home: &str, name: &str) -> (r: String)
    ensures
        r@ == fallback_chars(home@, name@),
{
    let mut r = home.to_owned();
    r.append("/.cargo/bin/");
    r.append(name);
    proof {
        assert(r@ =~= fallback_chars(home@, name@));
    }
    r
}

} // verus!
