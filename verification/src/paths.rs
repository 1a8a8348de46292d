//! Windows-style path composition for the settings file, the session log
//! and the startup shortcut.

use vstd::prelude::*;

verus! {

/// A path separator.
pub open spec fn is_sep(c: char) -> bool {
    c == '\\' || c == '/'
}

/// A bare drive prefix such as `C:`.
pub open spec fn is_bare_drive(s: Seq<char>) -> bool {
    s.len() == 2 && s[1] == ':' && ((s[0] as int >= 'a' as int && s[0] as int <= 'z' as int) || (s[0] as int
        >= 'A' as int && s[0] as int <= 'Z' as int))
}

/// Appending to `base` needs a separator: it is not empty, does not end in
/// one, and is not a bare drive.
pub open spec fn needs_sep(base: Seq<char>) -> bool {
    base.len() > 0 && !is_sep(base.last()) && !is_bare_drive(base)
}

/// `base` joined with the relative component `part`.
pub open spec fn join_spec(base: Seq<char>, part: Seq<char>) -> Seq<char> {
    if needs_sep(base) {
        base + seq!['\\'] + part
    } else {
        base + part
    }
}

/// Join the relative component `part` onto `base`, inserting a `\`
/// separator unless `base` is empty, already ends in a separator, or is a
/// bare drive.
pub fn join_path(base: &str, part: &str) -> (r: String)
    ensures
        r@ == join_spec(base@, part@),
{
    let n = base.unicode_len();
    let mut need = false;
    if n > 0 {
        let last = base.get_char(n - 1);
        need = last != '\\' && last != '/';
        if n == 2 {
            let c0 = base.get_char(0);
            let c1 = base.get_char(1);
            let letter = (c0 >= 'a' && c0 <= 'z') || (c0 >= 'A' && c0 <= 'Z');
            if c1 == ':' && letter {
                need = false;
            }
        }
    }
    let mut out = String::from_str(base);
    if need {
        out.append("\\");
        proof {
            reveal_strlit("\\");
        }
    }
    out.append(part);
    proof {
        if need {
            assert(out@ =~= base@ + seq!['\\'] + part@);
        }
    }
    out
}

} // verus!
