//! The laws of the caching layer, stated and proved over the same spec
//! functions the executable contracts use. Lemmas about two successive
//! operations take the two calls' contract relations as hypotheses and
//! conclude what the law claims of the pair.

use crate::cache::IconsCache;
use crate::cache::ThemeCache;
use crate::theme::best_upto;
use crate::theme::cand_distance;
use crate::theme::first_exact_from;
use crate::theme::local_match;
use crate::theme::parents_match_from;
use crate::theme::spec_matches_size;
use crate::theme::theme_find;
use crate::theme::theme_local_match;
use crate::theme::Directory;
use crate::theme::DirectoryRef;
use crate::theme::IconFile;
use crate::theme::Theme;
use vstd::prelude::*;

verus! {

/// Cache transparency: a cached lookup and the uncached lookup on the same
/// index return the same result — both are pinned to the index's
/// `spec_find_icon`, so this holds on a freshly constructed cache and after
/// any sequence of operations alike.
pub proof fn lemma_cache_transparency(
    cache: IconsCache,
    r_cached: Option<IconFile>,
    r_uncached: Option<IconFile>,
    name: Seq<char>,
    size: u32,
    scale: u32,
    theme_name: Seq<char>,
)
    requires
        r_cached == cache.spec_icons().spec_find_icon(name, size, scale, theme_name),
        r_uncached == cache.spec_icons().spec_find_icon(name, size, scale, theme_name),
    ensures
        r_cached == r_uncached,
{
}

/// Idempotent memoization: two successive local lookups of one name, size
/// and scale on one theme cache return identical results, and the second
/// leaves the memo table exactly as the first left it.
pub proof fn lemma_memoization_idempotent(
    c0: ThemeCache,
    c1: ThemeCache,
    c2: ThemeCache,
    r1: Option<IconFile>,
    r2: Option<IconFile>,
    name: Seq<char>,
    size: u32,
    scale: u32,
)
    requires
        c1.spec_theme() == c0.spec_theme(),
        c1.memo_dom() =~= c0.memo_dom().insert(name),
        r1 == theme_local_match(c0.spec_theme(), name, size, scale),
        c2.spec_theme() == c1.spec_theme(),
        c2.memo_dom() =~= c1.memo_dom().insert(name),
        r2 == theme_local_match(c1.spec_theme(), name, size, scale),
    ensures
        r2 == r1,
        c2.memo_dom() =~= c1.memo_dom(),
{
}

/// The first exact candidate at or after `k` is `cs[i]` when nothing in
/// between matches exactly.
proof fn lemma_first_exact_skip(
    dirs: Seq<Directory>,
    cs: Seq<(DirectoryRef, IconFile)>,
    size: u32,
    scale: u32,
    k: int,
    i: int,
)
    requires
        0 <= k <= i < cs.len(),
        spec_matches_size(dirs[cs[i].0 as int], size, scale),
        forall|j: int|
            k <= j < i ==> !spec_matches_size(dirs[(#[trigger] cs[j]).0 as int], size, scale),
    ensures
        first_exact_from(dirs, cs, size, scale, k) == Some(cs[i]),
    decreases i - k,
{
    if k < i {
        lemma_first_exact_skip(dirs, cs, size, scale, k + 1, i);
    }
}

/// Exact-match precedence: when a candidate matches the requested size and
/// scale exactly, the local match returns the first such candidate's file,
/// whatever any other candidate's distance is.
pub proof fn lemma_exact_match_precedence(
    dirs: Seq<Directory>,
    cs: Seq<(DirectoryRef, IconFile)>,
    size: u32,
    scale: u32,
    i: int,
)
    requires
        0 <= i < cs.len(),
        spec_matches_size(dirs[cs[i].0 as int], size, scale),
        forall|j: int|
            0 <= j < i ==> !spec_matches_size(dirs[(#[trigger] cs[j]).0 as int], size, scale),
    ensures
        local_match(dirs, cs, size, scale) == Some(cs[i].1),
{
    lemma_first_exact_skip(dirs, cs, size, scale, 0, i);
}

/// Among the first `k` candidates (with `k` at least one) there is a best
/// one, and it is one of them.
proof fn lemma_best_upto_member(
    dirs: Seq<Directory>,
    cs: Seq<(DirectoryRef, IconFile)>,
    size: u32,
    scale: u32,
    k: int,
)
    requires
        0 <= k <= cs.len(),
    ensures
        k > 0 ==> best_upto(dirs, cs, size, scale, k) is Some,
        best_upto(dirs, cs, size, scale, k) matches Some(b) ==> exists|j: int|
            0 <= j < k && cs[j] == b,
    decreases k,
{
    if k > 0 {
        lemma_best_upto_member(dirs, cs, size, scale, k - 1);
        match best_upto(dirs, cs, size, scale, k) {
            Some(b) => {
                if b == cs[k - 1] {
                    assert(0 <= k - 1 < k && cs[k - 1] == b);
                } else {
                    assert(best_upto(dirs, cs, size, scale, k - 1) == Some(b));
                }
            },
            None => {},
        }
    }
}

/// From position `i + 1` on, the best-so-far stays `cs[i]` when `cs[i]`
/// has minimal distance and strictly beats everything before it.
proof fn lemma_best_upto_first_min(
    dirs: Seq<Directory>,
    cs: Seq<(DirectoryRef, IconFile)>,
    size: u32,
    scale: u32,
    i: int,
    k: int,
)
    requires
        0 <= i < k <= cs.len(),
        forall|j: int|
            0 <= j < cs.len() ==> cand_distance(dirs, cs[i], size, scale) <= cand_distance(
                dirs,
                #[trigger] cs[j],
                size,
                scale,
            ),
        forall|j: int|
            0 <= j < i ==> cand_distance(dirs, cs[i], size, scale) < cand_distance(
                dirs,
                #[trigger] cs[j],
                size,
                scale,
            ),
    ensures
        best_upto(dirs, cs, size, scale, k) == Some(cs[i]),
    decreases k,
{
    if k == i + 1 {
        match best_upto(dirs, cs, size, scale, i) {
            Some(b) => {
                lemma_best_upto_member(dirs, cs, size, scale, i);
                let j = choose|j: int| 0 <= j < i && cs[j] == b;
                assert(cand_distance(dirs, cs[i], size, scale) < cand_distance(
                    dirs,
                    cs[j],
                    size,
                    scale,
                ));
            },
            None => {},
        }
    } else {
        lemma_best_upto_first_min(dirs, cs, size, scale, i, k - 1);
        assert(cand_distance(dirs, cs[i], size, scale) <= cand_distance(
            dirs,
            cs[k - 1],
            size,
            scale,
        ));
    }
}

/// Tie-break determinism: with no exact match, the first candidate whose
/// distance equals the minimum is returned — reproducibly, since the local
/// match is a function of the candidate list alone.
pub proof fn lemma_tie_break_first_minimum(
    dirs: Seq<Directory>,
    cs: Seq<(DirectoryRef, IconFile)>,
    size: u32,
    scale: u32,
    i: int,
)
    requires
        0 <= i < cs.len(),
        first_exact_from(dirs, cs, size, scale, 0) is None,
        forall|j: int|
            0 <= j < cs.len() ==> cand_distance(dirs, cs[i], size, scale) <= cand_distance(
                dirs,
                #[trigger] cs[j],
                size,
                scale,
            ),
        forall|j: int|
            0 <= j < i ==> cand_distance(dirs, cs[i], size, scale) < cand_distance(
                dirs,
                #[trigger] cs[j],
                size,
                scale,
            ),
    ensures
        local_match(dirs, cs, size, scale) == Some(cs[i].1),
{
    lemma_best_upto_first_min(dirs, cs, size, scale, i, cs.len() as int);
}

/// The first parent at or after `k` with a local match is `parents[i]` when
/// nothing in between has one.
proof fn lemma_parents_match_skip(
    parents: Seq<std::sync::Arc<Theme>>,
    name: Seq<char>,
    size: u32,
    scale: u32,
    k: int,
    i: int,
)
    requires
        0 <= k <= i < parents.len(),
        theme_local_match(*parents[i], name, size, scale) is Some,
        forall|j: int|
            k <= j < i ==> theme_local_match(*(#[trigger] parents[j]), name, size, scale) is None,
    ensures
        parents_match_from(parents, name, size, scale, k) == theme_local_match(
            *parents[i],
            name,
            size,
            scale,
        ),
    decreases i - k,
{
    if k < i {
        lemma_parents_match_skip(parents, name, size, scale, k + 1, i);
    }
}

/// Inheritance ordering, first half: a theme's own local match always wins
/// over every parent.
pub proof fn lemma_own_match_wins(t: Theme, name: Seq<char>, size: u32, scale: u32)
    requires
        theme_local_match(t, name, size, scale) is Some,
    ensures
        theme_find(t, name, size, scale) == theme_local_match(t, name, size, scale),
{
}

/// Inheritance ordering, second half: when the theme itself has no local
/// match, the first parent in listed order with a local match supplies the
/// result — a later parent is never preferred over an earlier match.
pub proof fn lemma_inheritance_order(t: Theme, name: Seq<char>, size: u32, scale: u32, i: int)
    requires
        theme_local_match(t, name, size, scale) is None,
        0 <= i < t.inherits_from@.len(),
        theme_local_match(*t.inherits_from@[i], name, size, scale) is Some,
        forall|j: int|
            0 <= j < i ==> theme_local_match(
                *(#[trigger] t.inherits_from@[j]),
                name,
                size,
                scale,
            ) is None,
    ensures
        theme_find(t, name, size, scale) == theme_local_match(
            *t.inherits_from@[i],
            name,
            size,
            scale,
        ),
{
    lemma_parents_match_skip(t.inherits_from@, name, size, scale, 0, i);
}

/// Pre-population equivalence: pre-populating never changes a lookup
/// result — every lookup is pinned to the unchanged index alone, so a
/// pre-populated cache answers exactly like a lazily used one.
pub proof fn lemma_pre_population_equivalence(
    c0: IconsCache,
    c1: IconsCache,
    r_pre: Option<IconFile>,
    r_lazy: Option<IconFile>,
    name: Seq<char>,
    size: u32,
    scale: u32,
    theme_name: Seq<char>,
)
    requires
        c1.spec_icons() == c0.spec_icons(),
        r_pre == c1.spec_icons().spec_find_icon(name, size, scale, theme_name),
        r_lazy == c0.spec_icons().spec_find_icon(name, size, scale, theme_name),
    ensures
        r_pre == r_lazy,
{
}

/// Pre-population totals: a freshly constructed theme cache, once eagerly
/// populated, holds a memo entry for exactly the icon names its theme
/// records — no more, no fewer.
pub proof fn lemma_pre_population_counts(c0: ThemeCache, c1: ThemeCache)
    requires
        c0.memo_dom() =~= Set::empty(),
        c1.spec_theme() == c0.spec_theme(),
        c1.memo_dom() =~= c0.memo_dom().union(crate::theme::theme_icon_names(c0.spec_theme())),
    ensures
        c1.memo_dom() =~= crate::theme::theme_icon_names(c1.spec_theme()),
{
}

/// Clearing resets state: after a clear the memo table reports no entry,
/// and the next local lookup memoizes its name afresh.
pub proof fn lemma_clear_resets(c1: ThemeCache, c2: ThemeCache, name: Seq<char>)
    requires
        c1.memo_dom() =~= Set::empty(),
        c2.memo_dom() =~= c1.memo_dom().insert(name),
    ensures
        c1.memo_dom().len() == 0,
        c2.memo_dom().contains(name),
        c2.memo_dom() =~= Set::empty().insert(name),
{
}

/// Invariant preservation: in every well-formed cache — as constructed,
/// and as preserved by each operation's contract — the cached theme names
/// equal the source index's theme names, in order.
pub proof fn lemma_theme_names_mirror(c: IconsCache)
    requires
        c.wf(),
    ensures
        c.cached_names() =~= c.spec_icons().theme_names(),
{
    assert forall|i: int| 0 <= i < c.cached_names().len() implies c.cached_names()[i] == c.spec_icons().theme_names()[i] by {
        assert(c.caches_seq()[i].0@ == c.spec_icons().themes_seq()[i].0@);
    }
}

} // verus!
