//! Script paths: their file names, the whitelist, and the config file beside a script.
use vstd::prelude::*;

use crate::text::{ends_with, has_suffix, strip_suffix_or_keep, without_suffix};

verus! {

/// The text after the last `/` of `s`.
pub open spec fn last_segment(s: Seq<char>) -> Seq<char>
    decreases s.len(),
{
    if s.len() == 0 {
        Seq::empty()
    } else if s.last() == '/' {
        Seq::empty()
    } else {
        last_segment(s.drop_last()).push(s.last())
    }
}

/// A path that `std::path::Path` reads the same way on every platform: no backslash, no `:`
/// and no leading `//`, so that `/` is its only separator and it has no Windows prefix.
pub open spec fn portable_path(s: Seq<char>) -> bool {
    &&& !s.contains('\\')
    &&& !s.contains(':')
    &&& !(s.len() >= 2 && s[0] == '/' && s[1] == '/')
}

/// The file name of a path separated by `/`, as the documentation of `Path::components` and
/// `Path::file_name` describes it: trailing separators and `.` components are dropped, and
/// the last component is the name unless there is none, it is `.`, or it is `..`.
pub open spec fn slash_file_name(s: Seq<char>) -> Option<Seq<char>>
    decreases s.len(),
{
    if s.len() == 0 {
        None
    } else if s.last() == '/' {
        slash_file_name(s.drop_last())
    } else if s == seq!['.'] {
        None
    } else if s.len() >= 2 && s.last() == '.' && s[s.len() - 2] == '/' {
        slash_file_name(s.drop_last())
    } else if last_segment(s) == seq!['.', '.'] {
        None
    } else {
        Some(last_segment(s))
    }
}

/// A portable path that has a file name.
pub open spec fn named_path(s: Seq<char>) -> bool {
    portable_path(s) && slash_file_name(s) is Some
}

/// An optional string seen as characters.
pub open spec fn name_view(r: Option<String>) -> Option<Seq<char>> {
    match r {
        Some(n) => Some(n@),
        None => None,
    }
}

/// The file name of `path`.
///
/// Calls `std::path::Path::file_name` on the path.  How std splits a path depends on the
/// platform (on Windows `\` separates and `C:` is a prefix), so the contract speaks only of
/// portable paths, for which it claims what the documentation of `Path::components` and
/// `Path::file_name` says on every platform: the result is `slash_file_name` of the path.
/// Of any other path it says nothing.  The file name of a path built from a `&str` is valid
/// UTF-8, so the conversion back to `String` loses nothing.
#[verifier::external_body]
fn file_name(path: &str) -> (r: Option<String>)
    ensures
        portable_path(path@) ==> name_view(r) == slash_file_name(path@),
{
    let name = std::path::Path::new(path).file_name()?;
    Some(name.to_str()?.to_string())
}

/// The file name of a script path.  The path must be portable and have a file name.
pub fn path_to_name(path: &str) -> (r: String)
    requires
        named_path(path@),
    ensures
        slash_file_name(path@) == Some(r@),
{
    match file_name(path) {
        Some(name) => name,
        None => {
            assert(false);
            String::new()
        },
    }
}

/// The file name of `path`, or `None` where it has none.  On a path that is not portable the
/// answer is the platform's.
pub fn try_path_to_name(path: &str) -> (r: Option<String>)
    ensures
        portable_path(path@) ==> name_view(r) == slash_file_name(path@),
{
    file_name(path)
}

/// Some whitelist entry is a suffix of `name`.
pub open spec fn name_whitelisted(name: Seq<char>, whitelist: Seq<String>) -> bool {
    exists|i: int| 0 <= i < whitelist.len() && has_suffix(name, #[trigger] whitelist[i]@)
}

/// A script whose file name is itself on the whitelist is whitelisted.
pub proof fn lemma_listed_name_whitelisted(name: Seq<char>, whitelist: Seq<String>, i: int)
    requires
        0 <= i < whitelist.len(),
        whitelist[i]@ == name,
    ensures
        name_whitelisted(name, whitelist),
{
    assert(name.subrange(0, name.len() as int) =~= name);
    assert(has_suffix(name, whitelist[i]@));
}

/// Whether the file name `name` ends with one of the whitelisted names.
pub fn name_on_whitelist(name: &str, whitelist: &Vec<String>) -> (r: bool)
    ensures
        r == name_whitelisted(name@, whitelist@),
{
    let mut i: usize = 0;
    while i < whitelist.len()
        invariant
            i <= whitelist.len(),
            forall|j: int| 0 <= j < i ==> !has_suffix(name@, #[trigger] whitelist@[j]@),
        decreases whitelist.len() - i,
    {
        if ends_with(name, whitelist[i].as_str()) {
            return true;
        }
        i = i + 1;
    }
    false
}

/// Whether the script's file name ends with one of the whitelisted names.  The path must be
/// portable and have a file name.
pub fn is_script_whitelisted(path: &str, whitelist: &Vec<String>) -> (r: bool)
    requires
        named_path(path@),
    ensures
        r == name_whitelisted(slash_file_name(path@).unwrap(), whitelist@),
{
    let name = path_to_name(path);
    name_on_whitelist(name.as_str(), whitelist)
}

/// Whether the script is whitelisted, or `None` where its path has no file name.  On a path
/// that is not portable the file name is the platform's.
pub fn script_whitelisted(path: &str, whitelist: &Vec<String>) -> (r: Option<bool>)
    ensures
        portable_path(path@) ==> match r {
            None => slash_file_name(path@) is None,
            Some(b) => slash_file_name(path@) is Some && b == name_whitelisted(
                slash_file_name(path@).unwrap(),
                whitelist@,
            ),
        },
{
    match file_name(path) {
        Some(name) => Some(name_on_whitelist(name.as_str(), whitelist)),
        None => None,
    }
}

/// Every path of `paths` is portable.
pub open spec fn all_portable(paths: Seq<String>) -> bool {
    forall|i: int| 0 <= i < paths.len() ==> portable_path(#[trigger] paths[i]@)
}

/// Every path of `paths` is portable and has a file name.
pub open spec fn all_named(paths: Seq<String>) -> bool {
    forall|i: int| 0 <= i < paths.len() ==> named_path(#[trigger] paths[i]@)
}

/// Some path of `paths` has no file name.
pub open spec fn some_unnamed(paths: Seq<String>) -> bool {
    exists|i: int| 0 <= i < paths.len() && (slash_file_name(#[trigger] paths[i]@) is None)
}

/// The paths of `paths` that are whitelisted, in their order.
pub open spec fn whitelisted(paths: Seq<String>, whitelist: Seq<String>) -> Seq<String>
    decreases paths.len(),
{
    if paths.len() == 0 {
        Seq::empty()
    } else {
        let rest = whitelisted(paths.drop_last(), whitelist);
        if name_whitelisted(slash_file_name(paths.last()@).unwrap(), whitelist) {
            rest.push(paths.last())
        } else {
            rest
        }
    }
}

/// The file names of the whitelisted paths among `paths`, in their order.
pub open spec fn whitelisted_names(paths: Seq<String>, whitelist: Seq<String>) -> Seq<Seq<char>>
    decreases paths.len(),
{
    if paths.len() == 0 {
        Seq::empty()
    } else {
        let rest = whitelisted_names(paths.drop_last(), whitelist);
        let name = slash_file_name(paths.last()@).unwrap();
        if name_whitelisted(name, whitelist) {
            rest.push(name)
        } else {
            rest
        }
    }
}

/// The whitelisted scripts, or `None` where one of the paths has no file name.  Where a path
/// is not portable, its file name is the platform's.
pub fn try_whitelisted_scripts(paths: Vec<String>, whitelist: &Vec<String>) -> (r: Option<
    Vec<String>,
>)
    ensures
        all_portable(paths@) ==> match r {
            None => some_unnamed(paths@),
            Some(v) => v@ == whitelisted(paths@, whitelist@),
        },
{
    let mut out: Vec<String> = Vec::new();
    let mut i: usize = 0;
    while i < paths.len()
        invariant
            i <= paths.len(),
            all_portable(paths@) ==> out@ == whitelisted(paths@.subrange(0, i as int), whitelist@),
        decreases paths.len() - i,
    {
        assert(paths@.subrange(0, i + 1).drop_last() =~= paths@.subrange(0, i as int));
        let p = &paths[i];
        let named = file_name(p.as_str());
        proof {
            if all_portable(paths@) {
                assert(portable_path(paths@[i as int]@));
            }
        }
        match named {
            None => {
                return None;
            },
            Some(name) => {
                if name_on_whitelist(name.as_str(), whitelist) {
                    out.push(p.clone());
                }
            },
        }
        i = i + 1;
    }
    assert(paths@.subrange(0, paths.len() as int) =~= paths@);
    Some(out)
}

/// The whitelisted scripts among the paths of the scripts directory.  Each path must be
/// portable and have a file name.
pub fn whitelisted_scripts(paths: Vec<String>, whitelist: &Vec<String>) -> (r: Vec<String>)
    requires
        all_named(paths@),
    ensures
        r@ == whitelisted(paths@, whitelist@),
{
    let ghost all = paths@;
    proof {
        assert forall|i: int| 0 <= i < all.len() implies portable_path(#[trigger] all[i]@) by {
            assert(named_path(all[i]@));
        }
    }
    match try_whitelisted_scripts(paths, whitelist) {
        Some(v) => v,
        None => {
            proof {
                let i = choose|i: int|
                    0 <= i < all.len() && (slash_file_name(#[trigger] all[i]@) is None);
                assert(named_path(all[i]@));
            }
            Vec::new()
        },
    }
}

/// The file names of the whitelisted scripts, or `None` where one of the paths has no file
/// name.  Where a path is not portable, its file name is the platform's.
pub fn try_script_names(paths: Vec<String>, whitelist: &Vec<String>) -> (r: Option<Vec<String>>)
    ensures
        all_portable(paths@) ==> match r {
            None => some_unnamed(paths@),
            Some(v) => v@.map_values(|s: String| s@) == whitelisted_names(paths@, whitelist@),
        },
{
    let mut out: Vec<String> = Vec::new();
    let mut i: usize = 0;
    while i < paths.len()
        invariant
            i <= paths.len(),
            all_portable(paths@) ==> out@.map_values(|s: String| s@) == whitelisted_names(
                paths@.subrange(0, i as int),
                whitelist@,
            ),
        decreases paths.len() - i,
    {
        assert(paths@.subrange(0, i + 1).drop_last() =~= paths@.subrange(0, i as int));
        let ghost before = out@;
        let named = file_name(paths[i].as_str());
        proof {
            if all_portable(paths@) {
                assert(portable_path(paths@[i as int]@));
            }
        }
        match named {
            None => {
                return None;
            },
            Some(name) => {
                if name_on_whitelist(name.as_str(), whitelist) {
                    out.push(name);
                    assert(out@.map_values(|s: String| s@) =~= before.map_values(
                        |s: String| s@,
                    ).push(out@.last()@));
                }
            },
        }
        i = i + 1;
    }
    assert(paths@.subrange(0, paths.len() as int) =~= paths@);
    Some(out)
}

/// The file names of the whitelisted scripts among `paths`.  Each path must be portable and
/// have a file name.
pub fn script_names(paths: Vec<String>, whitelist: &Vec<String>) -> (r: Vec<String>)
    requires
        all_named(paths@),
    ensures
        r@.map_values(|s: String| s@) == whitelisted_names(paths@, whitelist@),
{
    let ghost all = paths@;
    proof {
        assert forall|i: int| 0 <= i < all.len() implies portable_path(#[trigger] all[i]@) by {
            assert(named_path(all[i]@));
        }
    }
    match try_script_names(paths, whitelist) {
        Some(v) => v,
        None => {
            proof {
                let i = choose|i: int|
                    0 <= i < all.len() && (slash_file_name(#[trigger] all[i]@) is None);
                assert(named_path(all[i]@));
            }
            Vec::new()
        },
    }
}

/// The path of a script's config: `fnl` removed from the end where it is there, then `toml` added.
pub open spec fn config_path(script_path: Seq<char>) -> Seq<char> {
    without_suffix(script_path, "fnl"@) + "toml"@
}

/// A config path always ends in `toml`, and a fennel script `x.fnl` has its config at
/// `x.toml`.
pub proof fn lemma_config_path(script_path: Seq<char>, stem: Seq<char>)
    ensures
        has_suffix(config_path(script_path), "toml"@),
        script_path == stem + "fnl"@ ==> config_path(script_path) == stem + "toml"@,
{
    reveal_strlit("toml");
    reveal_strlit("fnl");
    let r = config_path(script_path);
    let base = without_suffix(script_path, "fnl"@);
    assert(r.subrange(r.len() - 4, r.len() as int) =~= "toml"@);
    if script_path == stem + "fnl"@ {
        assert(script_path.subrange(script_path.len() - 3, script_path.len() as int) =~= "fnl"@);
        assert(base =~= stem);
    }
}

/// The path of the TOML config that sits beside a fennel script.
pub fn config_path_for(script_path: &str) -> (r: String)
    ensures
        r@ == config_path(script_path@),
{
    let mut path = strip_suffix_or_keep(script_path, "fnl");
    path.append("toml");
    path
}

} // verus!
