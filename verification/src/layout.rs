//! Where a mirrored repository lives on disk: one working directory per
//! origin, named by a deterministic, filesystem-safe slug of the origin
//! URL.

use vstd::prelude::*;

verus! {

/// The slug of a URL: what `slug::slugify` returns for it. The result
/// depends on the characters alone, so identical origins name identical
/// directories across runs.
pub uninterp spec fn slug_of(s: Seq<char>) -> Seq<char>;

/// The characters a slug may consist of.
pub open spec fn slug_char(c: char) -> bool {
    ('a' <= c && c <= 'z') || ('0' <= c && c <= '9') || c == '-'
}

/// Relies on slug::slugify: a deterministic function of the input string
/// whose result consists of `a-z`, `0-9` and `-` alone.
#[verifier::external_body]
fn slugify(s: &str) -> (r: String)
    ensures
        r@ == slug_of(s@),
        forall|i: int| 0 <= i < r@.len() ==> slug_char(#[trigger] r@[i]),
{
    slug::slugify(s)
}

/// The model of a working-directory path: the mirror directory, one
/// separator, the origin's slug.
pub open spec fn workdir_view(mirror_dir: Seq<char>, origin: Seq<char>) -> Seq<char> {
    mirror_dir + seq!['/'] + slug_of(origin)
}

/// The working directory for `origin` inside `mirror_dir`.
pub fn workdir_for(mirror_dir: &str, origin: &str) -> (r: String)
    ensures
        r@ == workdir_view(mirror_dir@, origin@),
{
    let mut p = mirror_dir.to_owned();
    p.append("/");
    p.append(slugify(origin).as_str());
    proof {
        reveal_strlit("/");
        assert(p@ =~= workdir_view(mirror_dir@, origin@));
    }
    p
}

/// Origins with distinct slugs resolve to distinct working directories
/// within a single mirror directory.
pub proof fn lemma_distinct_slugs_distinct_workdirs(
    mirror_dir: Seq<char>,
    o1: Seq<char>,
    o2: Seq<char>,
)
    requires
        slug_of(o1) != slug_of(o2),
    ensures
        workdir_view(mirror_dir, o1) != workdir_view(mirror_dir, o2),
{
    let p1 = workdir_view(mirror_dir, o1);
    let p2 = workdir_view(mirror_dir, o2);
    assert(p1.subrange(mirror_dir.len() as int + 1, p1.len() as int) =~= slug_of(o1));
    assert(p2.subrange(mirror_dir.len() as int + 1, p2.len() as int) =~= slug_of(o2));
    if p1 == p2 {
        assert(slug_of(o1) =~= slug_of(o2));
    }
}

} // verus!
