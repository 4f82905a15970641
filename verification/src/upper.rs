//! ASCII uppercasing, used to derive the override variable name for an
//! executable: the override variable for `cargo` is `CARGO`.

use vstd::prelude::*;
use vstd::string::StrSliceExecFns;

verus! {

/// ASCII uppercase of a single character: `a`..`z` map to `A`..`Z`,
/// every other character is unchanged.
pub open spec fn upper_char(c: char) -> char {
    if 97 <= c as u32 && c as u32 <= 122 {
        ((c as u32 - 32) as u8) as char
    } else {
        c
    }
}

/// ASCII uppercase of a character sequence, applied character by character.
pub open spec fn upper_chars(s: Seq<char>) -> Seq<char> {
    s.map_values(|c: char| upper_char(c))
}

/// Relies on `String::push`: appends the given character at the end.
pub assume_specification[ String::push ](s: &mut String, c: char)
    ensures
        final(s)@ == old(s)@.push(c),
;

fn to_upper(c: char) -> (r: char)
    ensures
        r == upper_char(c),
{
    let u = c as u32;
    if 97 <= u && u <= 122 {
        ((u - 32) as u8) as char
    } else {
        c
    }
}

/// The name of the environment variable that overrides resolution for the
/// given executable name: every character ASCII-uppercased, nothing else.
pub fn override_var_name(name: &str) -> (r: String)
    ensures
        r@ == upper_chars(name@),
{
    let n = name.unicode_len();
    let mut out = String::new();
    let mut i: usize = 0;
    while i < n
        invariant
            i <= n,
            n == name@.len(),
            out@ == upper_chars(name@.subrange(0, i as int)),
        decreases n - i,
    {
        let c = name.get_char(i);
        out.push(to_upper(c));
        proof {
            assert(name@.subrange(0, i + 1 as int)
                =~= name@.subrange(0, i as int).push(name@[i as int]));
            assert(upper_chars(name@.subrange(0, i + 1 as int))
                =~= upper_chars(name@.subrange(0, i as int)).push(upper_char(name@[i as int])));
        }
        i = i + 1;
    }
    proof {
        assert(name@.subrange(0, n as int) =~= name@);
    }
    out
}

/// ASCII uppercasing is idempotent: applying it twice gives the same
/// sequence as applying it once.
pub proof fn lemma_upper_chars_idempotent(s: Seq<char>)
    ensures
        upper_chars(upper_chars(s)) == upper_chars(s),
{
    assert forall|c: char| #[trigger] upper_char(upper_char(c)) == upper_char(c) by {
        if 97 <= c as u32 && c as u32 <= 122 {
            assert(upper_char(c) as u32 == c as u32 - 32);
        }
    }
    assert(upper_chars(upper_chars(s)) =~= upper_chars(s));
}

} // verus!
