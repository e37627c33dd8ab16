//! Paths are held as text. Joining follows the rules of a Unix path join:
//! an absolute path replaces the base, a relative one is appended after a
//! single separator.

use vstd::prelude::*;

verus! {

/// A path is absolute when it starts at the root.
pub open spec fn is_absolute(p: Seq<char>) -> bool {
    p.len() > 0 && p[0] == '/'
}

/// The path obtained by adjoining `rel` to `base`.
pub open spec fn joined(base: Seq<char>, rel: Seq<char>) -> Seq<char> {
    if is_absolute(rel) {
        rel
    } else if base.len() == 0 || base.last() == '/' {
        base + rel
    } else {
        base + seq!['/'] + rel
    }
}

/// Adjoins `rel` to `base`: an absolute `rel` replaces `base`; otherwise
/// `rel` follows `base`, with a `/` between them unless `base` is empty or
/// already ends with one.
pub fn join(base: &str, rel: &str) -> (r: String)
    ensures
        r@ == joined(base@, rel@),
{
    if !rel.is_empty() && rel.get_char(0) == '/' {
        return String::from_str(rel);
    }
    let mut r = String::from_str(base);
    let n: usize = base.unicode_len();
    if n > 0 && base.get_char(n - 1) != '/' {
        let sep = "/";
        proof {
            reveal_strlit("/");
        }
        r.append(sep);
    }
    r.append(rel);
    proof {
        if n > 0 && base@.last() != '/' {
            assert(r@ =~= base@ + seq!['/'] + rel@);
        }
    }
    r
}

/// Adjoining an absolute path gives that path, whatever the base.
pub proof fn law_join_absolute_replaces(base: Seq<char>, rel: Seq<char>)
    requires
        is_absolute(rel),
    ensures
        joined(base, rel) == rel,
{
}

/// Adjoining a relative path extends the base: the result starts with the
/// base, ends with the relative path, and adds at most one separator.
pub proof fn law_join_relative_extends(base: Seq<char>, rel: Seq<char>)
    requires
        !is_absolute(rel),
    ensures
        joined(base, rel).take(base.len() as int) == base,
        joined(base, rel).skip(joined(base, rel).len() - rel.len()) == rel,
        base.len() + rel.len() <= joined(base, rel).len() <= base.len() + rel.len() + 1,
{
    let j = joined(base, rel);
    if base.len() == 0 || base.last() == '/' {
        assert(j.take(base.len() as int) =~= base);
        assert(j.skip(j.len() - rel.len()) =~= rel);
    } else {
        assert(j.take(base.len() as int) =~= base);
        assert(j.skip(j.len() - rel.len()) =~= rel);
    }
}

} // verus!
