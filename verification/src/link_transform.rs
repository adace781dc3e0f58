//! Path transformation applied to every configured pair before linking:
//! sources become absolute by joining them onto the working directory, and a
//! leading `$HOME` placeholder in a target is replaced by the home directory.

use vstd::prelude::*;
use vstd::string::StrSliceExecFns;
use vstd::string::StringExecFns;

use crate::config::Links;

verus! {

/// Joining `path` onto `base`, the way a path join works: an absolute `path`
/// stands alone; otherwise `base` and `path` are concatenated with exactly
/// one separator between them.
pub open spec fn spec_join_path(base: Seq<char>, path: Seq<char>) -> Seq<char> {
    if path.len() > 0 && path[0] == '/' {
        path
    } else if base.len() > 0 && base[base.len() - 1] == '/' {
        base + path
    } else {
        base + seq!['/'] + path
    }
}

/// Replacing a leading `$HOME` in `path` by `home`; a path without the
/// placeholder is kept as it is.
pub open spec fn spec_expand_home(home: Seq<char>, path: Seq<char>) -> Seq<char> {
    if path.len() >= 5 && path.subrange(0, 5) == "$HOME"@ {
        home + path.skip(5)
    } else {
        path
    }
}

/// Joins `path` onto `base` ([`spec_join_path`]).
pub fn join_path(base: &str, path: &str) -> (res: String)
    ensures
        res@ == spec_join_path(base@, path@),
{
    proof {
        reveal_strlit("/");
    }
    let path_len = path.unicode_len();
    if path_len > 0 && path.get_char(0) == '/' {
        return path.to_owned();
    }
    let base_len = base.unicode_len();
    let mut res = base.to_owned();
    if !(base_len > 0 && base.get_char(base_len - 1) == '/') {
        res.append("/");
        proof {
            assert(res@ =~= base@ + seq!['/']);
        }
    }
    res.append(path);
    proof {
        assert(res@ =~= spec_join_path(base@, path@));
    }
    res
}

/// Makes a configured source absolute: the source joined onto the working
/// directory `pwd`.
pub fn handle_source(source: &str, pwd: &str) -> (res: String)
    ensures
        res@ == spec_join_path(pwd@, source@),
{
    join_path(pwd, source)
}

/// Resolves the placeholder in a configured target: a leading `$HOME` is
/// replaced by the home directory `home` ([`spec_expand_home`]).
pub fn handle_path_placeholder(path: &str, home: &str) -> (res: String)
    ensures
        res@ == spec_expand_home(home@, path@),
{
    proof {
        reveal_strlit("$HOME");
    }
    let path_len = path.unicode_len();
    if path_len >= 5 && path.get_char(0) == '$' && path.get_char(1) == 'H' && path.get_char(2)
        == 'O' && path.get_char(3) == 'M' && path.get_char(4) == 'E' {
        proof {
            assert(path@.subrange(0, 5) =~= "$HOME"@);
        }
        let mut res = home.to_owned();
        let suffix = path.substring_char(5, path_len);
        res.append(suffix);
        return res;
    }
    proof {
        if path@.len() >= 5 {
            assert(path@.subrange(0, 5) != "$HOME"@) by {
                if path@.subrange(0, 5) == "$HOME"@ {
                    assert(path@.subrange(0, 5)[0] == '$');
                    assert(path@.subrange(0, 5)[1] == 'H');
                    assert(path@.subrange(0, 5)[2] == 'O');
                    assert(path@.subrange(0, 5)[3] == 'M');
                    assert(path@.subrange(0, 5)[4] == 'E');
                }
            }
        }
    }
    path.to_owned()
}

/// Resolves a configured target: placeholder expansion alone, the working
/// directory plays no part.
pub fn handle_target(target: &str, home: &str) -> (res: String)
    ensures
        res@ == spec_expand_home(home@, target@),
{
    handle_path_placeholder(target, home)
}

/// Transforms every configured pair for linking, in order: each source is
/// joined onto the working directory `pwd`, and each target has a leading
/// `$HOME` replaced by `home`.
pub fn link_transform(links: Links, pwd: &str, home: &str) -> (res: Links)
    ensures
        res@.len() == links@.len(),
        forall|i: int|
            0 <= i < links@.len() ==> {
                &&& (#[trigger] res@[i]).0@ == spec_join_path(pwd@, links@[i].0@)
                &&& res@[i].1@ == spec_expand_home(home@, links@[i].1@)
            },
{
    let mut res: Links = Vec::new();
    let mut idx: usize = 0;
    let len = links.len();
    while idx < len
        invariant
            len == links@.len(),
            idx <= len,
            res@.len() == idx,
            forall|i: int|
                0 <= i < idx ==> {
                    &&& (#[trigger] res@[i]).0@ == spec_join_path(pwd@, links@[i].0@)
                    &&& res@[i].1@ == spec_expand_home(home@, links@[i].1@)
                },
        decreases len - idx,
    {
        let source = handle_source(links[idx].0.as_str(), pwd);
        let target = handle_target(links[idx].1.as_str(), home);
        res.push((source, target));
        idx = idx + 1;
    }
    res
}

} // verus!
