//! The file name that the toolbar proposes when a design is saved.

use vstd::prelude::*;
use vstd::string::*;
use crate::text::{is_ascii_alnum, push_char};

verus! {

/// The name with every character other than an ASCII letter or digit, `_`
/// or `-` replaced by `_`.
pub open spec fn filename_chars(name: Seq<char>) -> Seq<char> {
    name.map_values(|c: char| if is_ascii_alnum(c) || c == '_' || c == '-' { c } else { '_' })
}

/// Making a name safe for a file keeps its length, keeps every ASCII letter
/// of either case, every ASCII digit, `_` and `-` where it stands, and puts
/// `_` in place of every other character.
pub proof fn lemma_filename_chars(name: Seq<char>)
    ensures
        filename_chars(name).len() == name.len(),
        forall|i: int| 0 <= i < name.len() && (is_ascii_alnum(name[i]) || name[i] == '_' || name[i] == '-')
            ==> filename_chars(name)[i] == name[i],
        forall|i: int| 0 <= i < name.len() && !(is_ascii_alnum(name[i]) || name[i] == '_' || name[i] == '-')
            ==> filename_chars(name)[i] == '_',
{
}

/// The design's name made safe for a file name (see `filename_chars`).
pub fn sanitize_filename(name: &str) -> (r: String)
    ensures
        r@ == filename_chars(name@),
        r@.len() == name@.len(),
        forall|i: int| 0 <= i < name@.len() && (is_ascii_alnum(name@[i]) || name@[i] == '_' || name@[i] == '-')
            ==> r@[i] == name@[i],
        forall|i: int| 0 <= i < name@.len() && !(is_ascii_alnum(name@[i]) || name@[i] == '_' || name@[i] == '-')
            ==> r@[i] == '_',
{
    let n = name.unicode_len();
    let mut s = String::new();
    let mut i: usize = 0;
    while i < n
        invariant
            n == name@.len(),
            i <= n,
            s@ == filename_chars(name@.subrange(0, i as int)),
        decreases n - i,
    {
        let c = name.get_char(i);
        let m = if ('0' <= c && c <= '9') || ('a' <= c && c <= 'z') || ('A' <= c && c <= 'Z') || c == '_' || c == '-' {
            c
        } else {
            '_'
        };
        push_char(&mut s, m);
        assert(s@ =~= filename_chars(name@.subrange(0, i + 1)));
        i = i + 1;
    }
    assert(name@.subrange(0, n as int) =~= name@);
    s
}

} // verus!
