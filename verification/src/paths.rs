use vstd::prelude::*;

verus! {

/// Whether a path is absolute.  The model speaks the Unix dialect: an
/// absolute path starts with a separator.
pub open spec fn spec_is_abs(p: Seq<char>) -> bool {
    p.len() > 0 && p[0] == '/'
}

pub fn is_abs(p: &str) -> (r: bool)
    ensures
        r == spec_is_abs(p@),
{
    p.unicode_len() > 0 && p.get_char(0) == '/'
}

/// Resolves `rel` against the directory `dir`: an absolute path stands as it
/// is, a relative one is appended to the directory.
pub open spec fn spec_join(dir: Seq<char>, rel: Seq<char>) -> Seq<char> {
    if spec_is_abs(rel) {
        rel
    } else {
        dir + "/"@ + rel
    }
}

pub fn join_path(dir: &str, rel: &str) -> (r: String)
    ensures
        r@ == spec_join(dir@, rel@),
{
    if is_abs(rel) {
        String::from_str(rel)
    } else {
        let mut s = String::from_str(dir);
        s.append("/");
        s.append(rel);
        s
    }
}

/// Expands a leading home token: a link path that starts with `~` has that
/// token replaced by the home directory.
pub open spec fn spec_expand_tilde(link: Seq<char>, home: Seq<char>) -> Seq<char> {
    if link.len() > 0 && link[0] == '~' {
        home + link.skip(1)
    } else {
        link
    }
}

pub fn expand_tilde(link: &str, home: &str) -> (r: String)
    ensures
        r@ == spec_expand_tilde(link@, home@),
{
    let n = link.unicode_len();
    if n > 0 && link.get_char(0) == '~' {
        let rest = link.substring_char(1, n);
        let mut s = String::from_str(home);
        s.append(rest);
        assert(link@.subrange(1, n as int) =~= link@.skip(1));
        s
    } else {
        String::from_str(link)
    }
}

/// Whether `p` lies strictly below the directory `base`.
pub open spec fn spec_under(base: Seq<char>, p: Seq<char>) -> bool {
    p.len() > base.len() && p.subrange(0, base.len() as int) == base && p[base.len() as int]
        == '/'
}

pub fn path_under(base: &str, p: &str) -> (r: bool)
    ensures
        r == spec_under(base@, p@),
{
    let bn = base.unicode_len();
    let pn = p.unicode_len();
    if pn > bn && p.get_char(bn) == '/' {
        let pre = p.substring_char(0, bn);
        let a = String::from_str(pre);
        let b = String::from_str(base);
        a == b
    } else {
        false
    }
}

} // verus!
