//! Configuration discovery: the candidate file names, and the choice among
//! them.  Probing the filesystem, reading the chosen file and parsing it are
//! the caller's side.

use vstd::prelude::*;
use vstd::string::StrSliceExecFns;

use crate::error::ReadConfigError;
use crate::link_transform::join_path;
use crate::link_transform::spec_join_path;

verus! {

/// The candidate configuration files, in the order they are tried, each
/// joined onto the working directory `pwd`.
pub fn config_file_candidates(pwd: &str) -> (res: Vec<String>)
    ensures
        res@.len() == 2,
        res@[0]@ == spec_join_path(pwd@, ".ezcfg.toml"@),
        res@[1]@ == spec_join_path(pwd@, ".ezcfg/ezcfg.toml"@),
{
    let mut res: Vec<String> = Vec::new();
    res.push(join_path(pwd, ".ezcfg.toml"));
    res.push(join_path(pwd, ".ezcfg/ezcfg.toml"));
    res
}

/// The configuration-discovery decision: given which candidate files exist,
/// the index of the first existing one is the file to read; `None` means no
/// configuration was found.
pub fn read_config(exists: &Vec<bool>) -> (res: Option<usize>)
    ensures
        match res {
            Some(i) => {
                &&& i < exists@.len()
                &&& exists@[i as int]
                &&& forall|j: int| 0 <= j < i ==> !exists@[j]
            },
            None => forall|j: int| 0 <= j < exists@.len() ==> !exists@[j],
        },
{
    let mut idx: usize = 0;
    let len = exists.len();
    while idx < len
        invariant
            len == exists@.len(),
            idx <= len,
            forall|j: int| 0 <= j < idx ==> !exists@[j],
        decreases len - idx,
    {
        if exists[idx] {
            return Some(idx);
        }
        idx = idx + 1;
    }
    None
}

/// The format decision of the configuration reader: only the `toml` format is
/// supported, and a file of any other kind is rejected with the
/// unsupported-file error, carrying the file's path.
pub fn check_config_kind(path: &str, kind: &str) -> (res: Result<(), ReadConfigError>)
    ensures
        match res {
            Ok(()) => kind@ == "toml"@,
            Err(e) => match e {
                ReadConfigError::UnsupportedConfigFile(p) => p@ == path@ && kind@ != "toml"@,
                _ => false,
            },
        },
{
    proof {
        reveal_strlit("toml");
    }
    if kind.unicode_len() == 4 && kind.get_char(0) == 't' && kind.get_char(1) == 'o'
        && kind.get_char(2) == 'm' && kind.get_char(3) == 'l' {
        proof {
            assert(kind@ =~= "toml"@);
        }
        return Ok(());
    }
    proof {
        if kind@.len() == 4 {
            assert(kind@ != "toml"@) by {
                if kind@ == "toml"@ {
                    assert(kind@[0] == 't');
                    assert(kind@[1] == 'o');
                    assert(kind@[2] == 'm');
                    assert(kind@[3] == 'l');
                }
            }
        }
    }
    Err(ReadConfigError::UnsupportedConfigFile(path.to_owned()))
}

} // verus!
