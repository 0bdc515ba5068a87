//! Derivation of a namespace title from a project name and a mode.

use vstd::prelude::*;
use vstd::string::*;

verus! {

/// The fixed prefix of every title.
pub open spec fn title_prefix() -> Seq<char> {
    seq!['_', '_']
}

/// The suffix for production titles.
pub open spec fn production_suffix() -> Seq<char> {
    seq![
        '-', 'w', 'o', 'r', 'k', 'e', 'r', 's', '_', 's', 'i', 't', 'e', 's', '_',
        'a', 's', 's', 'e', 't', 's',
    ]
}

/// The suffix for preview titles.
pub open spec fn preview_suffix() -> Seq<char> {
    production_suffix() + seq!['_', 'p', 'r', 'e', 'v', 'i', 'e', 'w']
}

/// The title of the namespace for `project_name` in the given mode:
/// `__{project_name}-workers_sites_assets`, with `_preview` appended in preview mode.
pub open spec fn site_title(project_name: Seq<char>, preview: bool) -> Seq<char> {
    title_prefix() + project_name + if preview {
        preview_suffix()
    } else {
        production_suffix()
    }
}

/// Builds the namespace title for a project in preview or production mode.
pub fn namespace_title(project_name: &str, preview: bool) -> (r: String)
    ensures
        r@ == site_title(project_name@, preview),
{
    let mut t = String::from_str("__");
    t.append(project_name);
    if preview {
        t.append("-workers_sites_assets_preview");
    } else {
        t.append("-workers_sites_assets");
    }
    proof {
        reveal_strlit("__");
        reveal_strlit("-workers_sites_assets_preview");
        reveal_strlit("-workers_sites_assets");
        assert(title_prefix() =~= "__"@);
        assert(preview_suffix() =~= "-workers_sites_assets_preview"@);
        assert(production_suffix() =~= "-workers_sites_assets"@);
    }
    t
}

/// The derivation is injective: two titles agree exactly when the project
/// names and the modes agree. In particular the preview and production titles
/// of one project never collide.
pub proof fn lemma_site_title_injective(n1: Seq<char>, p1: bool, n2: Seq<char>, p2: bool)
    ensures
        site_title(n1, p1) == site_title(n2, p2) <==> (n1 == n2 && p1 == p2),
{
    let t1 = site_title(n1, p1);
    let t2 = site_title(n2, p2);
    if t1 == t2 {
        if p1 != p2 {
            // a preview title ends in 'w', a production title in 's'
            assert(t1.last() != t2.last());
        } else {
            let s = if p1 {
                preview_suffix()
            } else {
                production_suffix()
            };
            assert(n1 =~= t1.subrange(2, t1.len() - s.len()));
            assert(n2 =~= t2.subrange(2, t2.len() - s.len()));
        }
    }
}

} // verus!
