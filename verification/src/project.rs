use vstd::prelude::*;
use crate::release;
use crate::text;

verus! {

/// Where `app-dist.yml` would be in the folder `dir`.
pub open spec fn config_file_in(dir: Seq<char>) -> Seq<char> {
    release::path_join(dir, "app-dist.yml"@)
}

/// The places searched for `app-dist.yml` from the folder `dir` (a Unix path
/// without a trailing `/`), nearest first: `dir` itself, then each folder above
/// it up to the root. The folder above a path is the path up to its last `/`, or
/// `/` when that `/` is the first character; `/` and a path without `/` have none.
pub open spec fn config_candidates(dir: Seq<char>) -> Seq<Seq<char>>
    decreases dir.len(),
{
    let i = release::last_index_of(dir, '/');
    if i < 0 || (i == 0 && dir.len() == 1) {
        seq![config_file_in(dir)]
    } else if i == 0 {
        seq![config_file_in(dir), config_file_in(seq!['/'])]
    } else {
        proof {
            release::lemma_last_index_of_bound(dir, '/');
        }
        seq![config_file_in(dir)] + config_candidates(dir.take(i))
    }
}

/// Law: the search starts in the folder itself, and from an absolute path it
/// ends at the root.
pub proof fn law_config_search_climbs_to_root(dir: Seq<char>)
    requires
        dir.len() > 0,
        dir[0] == '/',
    ensures
        config_candidates(dir).len() >= 1,
        config_candidates(dir)[0] == config_file_in(dir),
        config_candidates(dir).last() == config_file_in(seq!['/']),
    decreases dir.len(),
{
    release::lemma_last_index_of_bound(dir, '/');
    release::lemma_last_index_of_is_last(dir, '/', 0);
    let i = release::last_index_of(dir, '/');
    if i == 0 && dir.len() == 1 {
        assert(dir =~= seq!['/']);
    } else if i > 0 {
        let up = dir.take(i);
        law_config_search_climbs_to_root(up);
        let rest = config_candidates(up);
        assert(config_candidates(dir) == seq![config_file_in(dir)] + rest);
        assert((seq![config_file_in(dir)] + rest).last() == rest.last());
    }
}

fn push_candidates(out: &mut Vec<String>, dir: &str)
    ensures
        text::string_views(final(out)@) == text::string_views(old(out)@) + config_candidates(dir@),
    decreases dir@.len(),
{
    let here = release::path_join_exec(dir, "app-dist.yml");
    out.push(here);
    let v = text::chars_vec(dir);
    proof {
        release::lemma_last_index_of_bound(dir@, '/');
    }
    let ghost before = text::string_views(old(out)@);
    match release::last_char_index(&v, '/') {
        None => {
            assert(text::string_views(out@) =~= before + config_candidates(dir@));
        },
        Some(i) => {
            if i == 0 {
                if v.len() > 1 {
                    let root = release::path_join_exec("/", "app-dist.yml");
                    proof {
                        reveal_strlit("/");
                    }
                    assert("/"@ =~= seq!['/']);
                    out.push(root);
                }
                assert(text::string_views(out@) =~= before + config_candidates(dir@));
            } else {
                let up = text::substring(dir, 0, i);
                assert(up@ =~= dir@.take(i as int));
                assert(text::string_views(out@) =~= before + seq![config_file_in(dir@)]);
                push_candidates(out, up.as_str());
                assert(text::string_views(out@) =~= before + config_candidates(dir@));
            }
        },
    }
}

/// The paths at which `app-dist.yml` is looked for from the folder `dir`, in the
/// order they are tried: the first that exists is the project's configuration.
pub fn config_search_paths(dir: &str) -> (r: Vec<String>)
    ensures
        text::string_views(r@) == config_candidates(dir@),
{
    let mut out: Vec<String> = Vec::new();
    push_candidates(&mut out, dir);
    assert(text::string_views(out@) =~= Seq::<Seq<char>>::empty() + config_candidates(dir@));
    out
}

} // verus!
