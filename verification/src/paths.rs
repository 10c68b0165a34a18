//! The path resolver: an ordered candidate list for the database file,
//! relative to the executable's directory and the working directory, and the
//! first-existing-candidate rule with its last-resort default.

use vstd::prelude::*;
use vstd::string::*;

verus! {

/// The last-resort relative path, returned when no candidate exists.
pub open spec fn spec_default_path() -> Seq<char> {
    "data/db.sqlite"@
}

/// The view of an optional string.
pub open spec fn opt_view(o: Option<&str>) -> Option<Seq<char>> {
    match o {
        Some(s) => Some(s@),
        None => None,
    }
}

/// The ordered candidate list: one, two and three directory levels above the
/// executable's directory (packaged layouts before development layouts), then
/// the working directory and one level above it.
pub open spec fn spec_candidates(exe_dir: Option<Seq<char>>, cwd: Option<Seq<char>>) -> Seq<
    Seq<char>,
> {
    (match exe_dir {
        Some(d) => seq![
            d + "/../data/db.sqlite"@,
            d + "/../../data/db.sqlite"@,
            d + "/../../../data/db.sqlite"@,
        ],
        None => Seq::<Seq<char>>::empty(),
    }) + (match cwd {
        Some(c) => seq![c + "/data/db.sqlite"@, c + "/../data/db.sqlite"@],
        None => Seq::<Seq<char>>::empty(),
    })
}

/// The first candidate whose flag is set, or the default when none is.
pub open spec fn spec_first_match(ps: Seq<Seq<char>>, fs: Seq<bool>) -> Seq<char>
    decreases ps.len(),
{
    if ps.len() == 0 {
        spec_default_path()
    } else if fs[0] {
        ps[0]
    } else {
        spec_first_match(ps.drop_first(), fs.drop_first())
    }
}

/// The path is the last-resort default or one of the candidates.
pub open spec fn is_candidate_or_default(
    p: Seq<char>,
    exe_dir: Option<Seq<char>>,
    cwd: Option<Seq<char>>,
) -> bool {
    p == spec_default_path() || exists|i: int|
        0 <= i < spec_candidates(exe_dir, cwd).len() && p == spec_candidates(exe_dir, cwd)[i]
}

/// The first match is the default path or one of the candidates.
pub proof fn lemma_first_match_is_candidate_or_default(ps: Seq<Seq<char>>, fs: Seq<bool>)
    ensures
        spec_first_match(ps, fs) == spec_default_path() || exists|i: int|
            0 <= i < ps.len() && spec_first_match(ps, fs) == ps[i],
    decreases ps.len(),
{
    if ps.len() == 0 {
    } else if fs[0] {
        assert(spec_first_match(ps, fs) == ps[0]);
    } else {
        lemma_first_match_is_candidate_or_default(ps.drop_first(), fs.drop_first());
        let sub = ps.drop_first();
        if spec_first_match(ps, fs) != spec_default_path() {
            let j = choose|j: int|
                0 <= j < sub.len() && spec_first_match(sub, fs.drop_first()) == sub[j];
            assert(spec_first_match(ps, fs) == ps[j + 1]);
        }
    }
}

/// Relies on std's `Path::exists` (via `Path::new`): true when something
/// exists on disk at the path. The result depends on the disk, so nothing
/// more is stated of it.
#[verifier::external_body]
pub(crate) fn path_exists(p: &str) -> bool {
    std::path::Path::new(p).exists()
}

/// Relies on std's `Path::canonicalize` (via `Path::new` and `Path::to_str`):
/// the absolute form of an existing path, or nothing when canonicalization
/// fails or the result is not valid text. The result depends on the disk.
#[verifier::external_body]
fn canonicalize_path(p: &str) -> Option<String> {
    match std::path::Path::new(p).canonicalize() {
        Ok(pb) => pb.to_str().map(|s| s.to_owned()),
        Err(_) => None,
    }
}

/// The fallback rule: the canonical form when one was produced, the path
/// itself otherwise (a canonicalization failure never fails the caller).
pub fn pick_canonical(canonical: Option<String>, p: &str) -> (r: String)
    ensures
        canonical matches Some(c) ==> r == c,
        canonical is None ==> r@ == p@,
{
    match canonical {
        Some(c) => c,
        None => p.to_owned(),
    }
}

/// The canonical form of the path, or the path itself when canonicalization
/// does not produce one. The canonical form depends on the disk, so the
/// choice rule is stated on `pick_canonical`.
pub fn canonical_or_self(p: &str) -> String {
    let canonical = canonicalize_path(p);
    pick_canonical(canonical, p)
}

/// Builds the ordered candidate list for the given directories.
pub fn candidate_paths(exe_dir: Option<&str>, cwd: Option<&str>) -> (r: Vec<String>)
    ensures
        r.deep_view() == spec_candidates(opt_view(exe_dir), opt_view(cwd)),
{
    let mut r: Vec<String> = Vec::new();
    match exe_dir {
        Some(d) => {
            r.push(String::from_str(d).concat("/../data/db.sqlite"));
            r.push(String::from_str(d).concat("/../../data/db.sqlite"));
            r.push(String::from_str(d).concat("/../../../data/db.sqlite"));
        },
        None => {},
    }
    match cwd {
        Some(c) => {
            r.push(String::from_str(c).concat("/data/db.sqlite"));
            r.push(String::from_str(c).concat("/../data/db.sqlite"));
        },
        None => {},
    }
    proof {
        assert(r.deep_view() =~~= spec_candidates(opt_view(exe_dir), opt_view(cwd)));
    }
    r
}

/// The first path whose flag is set, or the default path when none is.
pub fn first_match(paths: &Vec<String>, flags: &Vec<bool>) -> (r: String)
    requires
        paths@.len() == flags@.len(),
    ensures
        r@ == spec_first_match(paths.deep_view(), flags@),
{
    let ghost all = paths.deep_view();
    proof {
        assert(all.skip(0) =~~= all);
        assert(flags@.skip(0) =~= flags@);
    }
    let mut i: usize = 0;
    while i < paths.len()
        invariant
            all == paths.deep_view(),
            paths@.len() == flags@.len(),
            0 <= i <= paths@.len(),
            spec_first_match(all, flags@) == spec_first_match(
                all.skip(i as int),
                flags@.skip(i as int),
            ),
        decreases paths@.len() - i,
    {
        proof {
            assert(all.skip(i as int)[0] == paths@[i as int]@);
            assert(all.skip(i as int).drop_first() =~~= all.skip(i as int + 1));
            assert(flags@.skip(i as int).drop_first() =~= flags@.skip(i as int + 1));
        }
        if flags[i] {
            return paths[i].clone();
        }
        i = i + 1;
    }
    proof {
        assert(all.skip(i as int).len() == 0);
    }
    String::from_str("data/db.sqlite")
}

/// Resolves the database file path: the first existing candidate, checked in
/// list order, or the last-resort default when none exists.
pub fn find_db_path(exe_dir: Option<&str>, cwd: Option<&str>) -> (r: String)
    ensures
        is_candidate_or_default(r@, opt_view(exe_dir), opt_view(cwd)),
{
    let paths = candidate_paths(exe_dir, cwd);
    let mut flags: Vec<bool> = Vec::new();
    let mut i: usize = 0;
    while i < paths.len()
        invariant
            flags@.len() == i,
            0 <= i <= paths@.len(),
        decreases paths@.len() - i,
    {
        flags.push(path_exists(paths[i].as_str()));
        i = i + 1;
    }
    let r = first_match(&paths, &flags);
    proof {
        lemma_first_match_is_candidate_or_default(paths.deep_view(), flags@);
    }
    r
}

} // verus!
