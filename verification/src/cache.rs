//! Where a downloaded archive is kept.
//!
//! Each download is stored under a file name made of the mod's name and the
//! release tag, in one flat cache directory.

use vstd::prelude::*;
use vstd::string::StringExecFns;

verus! {

/// The file name `<mod_name>_<tag_name>.zip`.
pub open spec fn cache_file_name_of(mod_name: Seq<char>, tag_name: Seq<char>) -> Seq<char> {
    mod_name + "_"@ + tag_name + ".zip"@
}

/// The path `./mod_cache/<file_name>`.
pub open spec fn cache_path_of(file_name: Seq<char>) -> Seq<char> {
    "./mod_cache/"@ + file_name
}

/// The name of the cache file for release `tag_name` of mod `mod_name`.
pub fn cache_file_name(mod_name: &str, tag_name: &str) -> (file_name: String)
    ensures
        file_name@ == cache_file_name_of(mod_name@, tag_name@),
{
    let mut file_name = mod_name.to_owned();
    file_name.append("_");
    file_name.append(tag_name);
    file_name.append(".zip");
    file_name
}

/// The path of the cache file called `file_name`.
pub fn cache_path(file_name: &str) -> (path: String)
    ensures
        path@ == cache_path_of(file_name@),
{
    let mut path = "./mod_cache/".to_owned();
    path.append(file_name);
    path
}

/// Two mods with different names never share a cache file for the same
/// release tag.
pub proof fn lemma_cache_file_names_differ(first: Seq<char>, second: Seq<char>, tag_name: Seq<char>)
    requires
        first != second,
    ensures
        cache_file_name_of(first, tag_name) != cache_file_name_of(second, tag_name),
{
    let rest = "_"@ + tag_name + ".zip"@;
    let a = cache_file_name_of(first, tag_name);
    let b = cache_file_name_of(second, tag_name);
    assert(a =~= first + rest);
    assert(b =~= second + rest);
    if a == b {
        assert(a.len() == first.len() + rest.len());
        assert(b.len() == second.len() + rest.len());
        assert forall|i: int| 0 <= i < first.len() implies first[i] == second[i] by {
            assert(a[i] == first[i]);
            assert(b[i] == second[i]);
        }
        assert(first =~= second);
    }
}

/// Cache files of different names lie at different paths.
pub proof fn lemma_cache_paths_differ(first: Seq<char>, second: Seq<char>)
    requires
        first != second,
    ensures
        cache_path_of(first) != cache_path_of(second),
{
    let dir = "./mod_cache/"@;
    let a = cache_path_of(first);
    let b = cache_path_of(second);
    if a == b {
        assert(a.len() == dir.len() + first.len());
        assert(b.len() == dir.len() + second.len());
        assert forall|i: int| 0 <= i < first.len() implies first[i] == second[i] by {
            assert(a[dir.len() + i] == first[i]);
            assert(b[dir.len() + i] == second[i]);
        }
        assert(first =~= second);
    }
}

} // verus!
