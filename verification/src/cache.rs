//! The caching layer: a memoizing [`ThemeCache`] per theme, and the
//! top-level [`IconsCache`] that mirrors an uncached [`Icons`] index.

use crate::memo::trie_clear;
use crate::memo::trie_count;
use crate::memo::trie_get;
use crate::memo::trie_insert;
use crate::memo::trie_new;
use crate::memo::trie_view;
use crate::theme::lemma_candidates_refs;
use crate::theme::match_candidates;
use crate::theme::theme_candidates;
use crate::theme::theme_find;
use crate::theme::theme_local_match;
use crate::icons::lookup_from;
use crate::icons::Icons;
use crate::theme::parents_match_from;
use crate::theme::dir_names_upto;
use crate::theme::names_upto;
use crate::theme::theme_icon_names;
use crate::theme::DirectoryRef;
use crate::theme::IconFile;
use crate::theme::Theme;
use std::sync::Arc;
use vstd::prelude::*;

verus! {

/// Caching version of a single theme's lookup: the shared theme graph node
/// plus a memo table from icon name to that name's full candidate list.
///
/// A name's candidate list is enumerated at most once per cache lifetime
/// (empty lists included, so a miss is remembered as cheaply as a hit); the
/// whole table can only be emptied atomically by [`ThemeCache::clear_cache`].
pub struct ThemeCache {
    theme: Arc<Theme>,
    cache: qp_trie::Trie<qp_trie::wrapper::BString, usize>,
    entries: Vec<Vec<(DirectoryRef, IconFile)>>,
}

impl ThemeCache {
    /// The theme this cache serves.
    pub closed spec fn spec_theme(self) -> Theme {
        *self.theme
    }

    /// The icon names that currently have a memo entry.
    pub closed spec fn memo_dom(self) -> Set<Seq<char>> {
        trie_view(self.cache).dom()
    }

    /// Soundness of the memo table: every memoized name maps to exactly the
    /// candidate list the theme's own enumeration yields for that name.
    pub closed spec fn wf(self) -> bool {
        &&& trie_view(self.cache).dom().finite()
        &&& forall|k: Seq<char>|
            #[trigger] trie_view(self.cache).dom().contains(k) ==> trie_view(self.cache)[k]
                < self.entries@.len() && self.entries@[trie_view(self.cache)[k] as int]@
                == theme_candidates(*self.theme, k)
    }

    /// Create a cache for `theme` with an empty memo table. No enumeration
    /// is performed.
    pub fn from_theme(theme: Arc<Theme>) -> (r: ThemeCache)
        ensures
            r.wf(),
            r.spec_theme() == *theme,
            r.memo_dom() =~= Set::empty(),
    {
        ThemeCache { theme, cache: trie_new(), entries: Vec::new() }
    }

    /// Cached local-only lookup. The first query for a name enumerates and
    /// memoizes the theme's candidate list for it; every query applies the
    /// local match algorithm (first exact match in scan order, else first
    /// minimum-distance candidate) to the memoized list.
    pub fn find_icon_here(&mut self, icon_name: &str, size: u32, scale: u32) -> (r: Option<
        IconFile,
    >)
        requires
            old(self).wf(),
        ensures
            final(self).wf(),
            final(self).spec_theme() == old(self).spec_theme(),
            final(self).memo_dom() =~= old(self).memo_dom().insert(icon_name@),
            r == theme_local_match(old(self).spec_theme(), icon_name@, size, scale),
    {
        let idx: usize = self.memo_slot(icon_name);
        proof {
            assert(self.entries@[idx as int]@ == theme_candidates(*self.theme, icon_name@));
            lemma_candidates_refs(
                self.theme.directories@,
                icon_name@,
                self.theme.directories@.len() as int,
            );
        }
        let cands = &self.entries[idx];
        match_candidates(&self.theme.directories, cands, size, scale)
    }

    /// Slot of `icon_name`'s memoized candidate list, enumerating and
    /// inserting the list first if the name has no entry yet.
    fn memo_slot(&mut self, icon_name: &str) -> (idx: usize)
        requires
            old(self).wf(),
        ensures
            final(self).wf(),
            final(self).spec_theme() == old(self).spec_theme(),
            final(self).memo_dom() =~= old(self).memo_dom().insert(icon_name@),
            idx < final(self).entries@.len(),
            final(self).entries@[idx as int]@ == theme_candidates(
                old(self).spec_theme(),
                icon_name@,
            ),
    {
        match trie_get(&self.cache, icon_name) {
            Some(i) => i,
            None => {
                let files = self.theme.find_icon_files(icon_name);
                let i = self.entries.len();
                self.entries.push(files);
                trie_insert(&mut self.cache, icon_name, i);
                i
            },
        }
    }

    /// Eagerly memoize every icon name this theme records anywhere: each
    /// name found in any directory gets its full candidate list inserted,
    /// unless it is already memoized — exactly what a lazy lookup of every
    /// such name would have left behind.
    pub(crate) fn populate_all(&mut self)
        requires
            old(self).wf(),
        ensures
            final(self).wf(),
            final(self).spec_theme() == old(self).spec_theme(),
            final(self).memo_dom() =~= old(self).memo_dom().union(
                theme_icon_names(old(self).spec_theme()),
            ),
    {
        let ghost dirs0 = self.theme.directories@;
        let mut d: usize = 0;
        while d < self.theme.directories.len()
            invariant
                d <= self.theme.directories@.len(),
                self.wf(),
                self.spec_theme() == old(self).spec_theme(),
                dirs0 == old(self).spec_theme().directories@,
                self.memo_dom() =~= old(self).memo_dom().union(names_upto(dirs0, d as int)),
            decreases self.theme.directories@.len() - d,
        {
            let ghost files0 = self.theme.directories@[d as int].files@;
            let mut j: usize = 0;
            while j < self.theme.directories[d].files.len()
                invariant
                    d < self.theme.directories@.len(),
                    j <= files0.len(),
                    self.wf(),
                    self.spec_theme() == old(self).spec_theme(),
                    dirs0 == old(self).spec_theme().directories@,
                    files0 == dirs0[d as int].files@,
                    self.memo_dom() =~= old(self).memo_dom().union(
                        names_upto(dirs0, d as int),
                    ).union(dir_names_upto(files0, j as int)),
                decreases files0.len() - j,
            {
                let name: String = self.theme.directories[d].files[j].icon_name.clone();
                self.memo_slot(name.as_str());
                j += 1;
            }
            d += 1;
        }
    }

    /// Cached inheritance-aware lookup: this theme's cached local match if
    /// present, else each parent's (uncached) local match, in inheritance
    /// order. Standalone fallback is the caller's responsibility.
    pub fn find_icon(&mut self, icon_name: &str, size: u32, scale: u32) -> (r: Option<IconFile>)
        requires
            old(self).wf(),
        ensures
            final(self).wf(),
            final(self).spec_theme() == old(self).spec_theme(),
            final(self).memo_dom() =~= old(self).memo_dom().insert(icon_name@),
            r == theme_find(old(self).spec_theme(), icon_name@, size, scale),
    {
        match self.find_icon_here(icon_name, size, scale) {
            Some(f) => Some(f),
            None => {
                let parents = &self.theme.inherits_from;
                let mut i: usize = 0;
                while i < parents.len()
                    invariant
                        i <= parents@.len(),
                        self.wf(),
                        self.spec_theme() == old(self).spec_theme(),
                        self.memo_dom() =~= old(self).memo_dom().insert(icon_name@),
                        parents@ == old(self).spec_theme().inherits_from@,
                        theme_local_match(old(self).spec_theme(), icon_name@, size, scale)
                            is None,
                        parents_match_from(parents@, icon_name@, size, scale, 0)
                            == parents_match_from(parents@, icon_name@, size, scale, i as int),
                    decreases parents@.len() - i,
                {
                    let p = &parents[i];
                    match p.find_icon_here(icon_name, size, scale) {
                        Some(f) => {
                            return Some(f);
                        },
                        None => {},
                    }
                    i += 1;
                }
                None
            },
        }
    }

    /// Empty the memo table; the underlying theme graph is untouched.
    pub fn clear_cache(&mut self)
        ensures
            final(self).wf(),
            final(self).spec_theme() == old(self).spec_theme(),
            final(self).memo_dom() =~= Set::empty(),
    {
        trie_clear(&mut self.cache);
        self.entries = Vec::new();
    }

    /// Number of icon names that currently have a memo entry.
    pub fn cache_count(&self) -> (r: usize)
        requires
            self.wf(),
        ensures
            r == self.memo_dom().len(),
    {
        trie_count(&self.cache)
    }

    /// Whether the memo table holds no entry at all.
    pub fn cache_is_empty(&self) -> (r: bool)
        requires
            self.wf(),
        ensures
            r == (self.memo_dom().len() == 0),
    {
        trie_count(&self.cache) == 0
    }

    /// Whether `icon_name` currently has a memo entry.
    pub fn cache_contains(&self, icon_name: &str) -> (r: bool)
        ensures
            r == self.memo_dom().contains(icon_name@),
    {
        match trie_get(&self.cache, icon_name) {
            Some(_) => true,
            None => false,
        }
    }
}

/// The position of the first mirror entry at or after `i` stored under
/// `name`.
pub open spec fn cache_index_from(
    pairs: Seq<(String, ThemeCache)>,
    name: Seq<char>,
    i: int,
) -> Option<int>
    decreases pairs.len() - i,
{
    if i < 0 || i >= pairs.len() {
        None
    } else if pairs[i].0@ == name {
        Some(i)
    } else {
        cache_index_from(pairs, name, i + 1)
    }
}

/// When mirror and index carry pairwise-equal names, the mirror resolves a
/// name exactly where the uncached index resolves it.
pub proof fn lemma_mirror_lookup(
    cpairs: Seq<(String, ThemeCache)>,
    ipairs: Seq<(String, Arc<Theme>)>,
    name: Seq<char>,
    i: int,
)
    requires
        cpairs.len() == ipairs.len(),
        forall|j: int| 0 <= j < cpairs.len() ==> (#[trigger] cpairs[j]).0@ == ipairs[j].0@,
    ensures
        match cache_index_from(cpairs, name, i) {
            Some(ix) => i <= ix < cpairs.len() && cpairs[ix].0@ == name && lookup_from(
                ipairs,
                name,
                i,
            ) == Some(ipairs[ix].1),
            None => lookup_from(ipairs, name, i) is None,
        },
    decreases cpairs.len() - i,
{
    if 0 <= i < cpairs.len() && cpairs[i].0@ != name {
        lemma_mirror_lookup(cpairs, ipairs, name, i + 1);
    }
}

/// Caching version of the uncached index: the index itself plus one
/// [`ThemeCache`] per recorded theme. The mirror is built once at
/// construction; no operation adds, removes or renames a theme afterwards,
/// so the cached theme names always equal the index's.
pub struct IconsCache {
    icons: Icons,
    themes: Vec<(String, ThemeCache)>,
}

impl IconsCache {
    /// The uncached index this cache was created from.
    pub closed spec fn spec_icons(self) -> Icons {
        self.icons
    }

    /// The mirror's (name, theme cache) pairs, in order.
    pub closed spec fn caches_seq(self) -> Seq<(String, ThemeCache)> {
        self.themes@
    }

    /// The cached theme names, in order.
    pub open spec fn cached_names(self) -> Seq<Seq<char>> {
        self.caches_seq().map_values(|p: (String, ThemeCache)| p.0@)
    }

    /// The standing invariant: one well-formed theme cache per recorded
    /// theme, pairwise under the same name and wrapping the same theme
    /// graph node as the index records.
    pub open spec fn wf(self) -> bool {
        &&& self.caches_seq().len() == self.spec_icons().themes_seq().len()
        &&& forall|i: int|
            0 <= i < self.caches_seq().len() ==> {
                &&& (#[trigger] self.caches_seq()[i]).0@ == self.spec_icons().themes_seq()[i].0@
                &&& self.caches_seq()[i].1.wf()
                &&& self.caches_seq()[i].1.spec_theme() == *self.spec_icons().themes_seq()[i].1
            }
    }

    /// Create a cache from an uncached index: exactly one fresh, empty
    /// theme cache per recorded theme, in recorded order.
    pub fn from_icons(icons: Icons) -> (r: IconsCache)
        ensures
            r.wf(),
            r.spec_icons() == icons,
            forall|i: int|
                0 <= i < r.caches_seq().len() ==> (#[trigger] r.caches_seq()[i]).1.memo_dom()
                    =~= Set::empty(),
    {
        let mut themes: Vec<(String, ThemeCache)> = Vec::new();
        let src = icons.themes_vec();
        let mut i: usize = 0;
        while i < src.len()
            invariant
                i <= src@.len(),
                src@ == icons.themes_seq(),
                themes@.len() == i,
                forall|k: int|
                    0 <= k < i as int ==> (#[trigger] themes@[k]).0@ == icons.themes_seq()[k].0@
                        && themes@[k].1.wf() && themes@[k].1.spec_theme()
                        == *icons.themes_seq()[k].1 && themes@[k].1.memo_dom() =~= Set::empty(),
            decreases src@.len() - i,
        {
            let p = &src[i];
            let name = p.0.clone();
            let tc = ThemeCache::from_theme(p.1.clone());
            themes.push((name, tc));
            i += 1;
        }
        IconsCache { icons, themes }
    }

    /// Position of the mirror entry for `theme_name`, if any.
    fn cache_index(&self, theme_name: &str) -> (r: Option<usize>)
        ensures
            match r {
                Some(i) => i < self.caches_seq().len() && cache_index_from(
                    self.caches_seq(),
                    theme_name@,
                    0,
                ) == Some(i as int),
                None => cache_index_from(self.caches_seq(), theme_name@, 0) is None,
            },
    {
        let name_owned: String = theme_name.to_owned();
        let mut i: usize = 0;
        while i < self.themes.len()
            invariant
                i <= self.themes@.len(),
                name_owned@ == theme_name@,
                cache_index_from(self.themes@, theme_name@, 0) == cache_index_from(
                    self.themes@,
                    theme_name@,
                    i as int,
                ),
            decreases self.themes@.len() - i,
        {
            let p = &self.themes[i];
            if p.0 == name_owned {
                return Some(i);
            }
            i += 1;
        }
        None
    }

    /// Cached lookup in the default `"hicolor"` theme.
    pub fn find_default_icon(&mut self, icon_name: &str, size: u32, scale: u32) -> (r: Option<
        IconFile,
    >)
        requires
            old(self).wf(),
        ensures
            final(self).wf(),
            final(self).spec_icons() == old(self).spec_icons(),
            final(self).cached_names() =~= old(self).cached_names(),
            r == old(self).spec_icons().spec_find_icon(icon_name@, size, scale, "hicolor"@),
    {
        self.find_icon(icon_name, size, scale, "hicolor")
    }

    /// Cached top-level lookup by name, size, scale and theme name:
    /// equivalent, result for result, to the uncached lookup on the
    /// underlying index. Empty names never match; an unknown theme falls
    /// back to `"hicolor"`; a theme-chain miss falls back to the standalone
    /// icons, which bypass all per-theme caching.
    pub fn find_icon(&mut self, icon_name: &str, size: u32, scale: u32, theme_name: &str) -> (r:
        Option<IconFile>)
        requires
            old(self).wf(),
        ensures
            final(self).wf(),
            final(self).spec_icons() == old(self).spec_icons(),
            final(self).cached_names() =~= old(self).cached_names(),
            r == old(self).spec_icons().spec_find_icon(icon_name@, size, scale, theme_name@),
    {
        if icon_name.is_empty() {
            return None;
        }
        proof {
            lemma_mirror_lookup(self.themes@, self.icons.themes_seq(), theme_name@, 0);
            lemma_mirror_lookup(self.themes@, self.icons.themes_seq(), "hicolor"@, 0);
        }
        let idx: usize = match self.cache_index(theme_name) {
            Some(i) => i,
            None => match self.cache_index("hicolor") {
                Some(i) => i,
                None => {
                    return None;
                },
            },
        };
        let tc = &mut self.themes[idx];
        let res = tc.1.find_icon(icon_name, size, scale);
        match res {
            Some(f) => Some(f),
            None => self.icons.find_standalone_icon(icon_name),
        }
    }

    /// Eagerly fill every theme's memo table in one pass over the whole
    /// index: every icon name a theme records anywhere gets its full
    /// candidate list memoized, exactly as a lazy lookup of that name would
    /// have; entries a lazy lookup already created are left alone, so
    /// interleaving lazy lookups with a later bulk pass cannot disagree.
    /// A triple whose theme or directory could not be located again would be
    /// a recoverable anomaly to skip; the mirror pairing and the positional
    /// directory references are part of the cache's invariant, so no such
    /// triple can arise.
    pub fn pre_populate_cache(&mut self)
        requires
            old(self).wf(),
        ensures
            final(self).wf(),
            final(self).spec_icons() == old(self).spec_icons(),
            final(self).caches_seq().len() == old(self).caches_seq().len(),
            forall|i: int|
                0 <= i < final(self).caches_seq().len() ==> (#[trigger] final(self).caches_seq()[i]).0@ == old(self).caches_seq()[i].0@ && final(self).caches_seq()[i].1.memo_dom() =~= old(self).caches_seq()[i].1.memo_dom().union(
                    theme_icon_names(old(self).caches_seq()[i].1.spec_theme()),
                ),
    {
        let mut i: usize = 0;
        while i < self.themes.len()
            invariant
                i <= self.themes@.len(),
                self.wf(),
                self.spec_icons() == old(self).spec_icons(),
                self.themes@.len() == old(self).themes@.len(),
                forall|k: int|
                    i as int <= k < self.themes@.len() ==> #[trigger] self.themes@[k] == old(self).themes@[k],
                forall|k: int|
                    0 <= k < i as int ==> (#[trigger] self.themes@[k]).0@ == old(self).themes@[k].0@ && self.themes@[k].1.memo_dom() =~= old(self).themes@[k].1.memo_dom().union(
                        theme_icon_names(old(self).themes@[k].1.spec_theme()),
                    ),
            decreases self.themes@.len() - i,
        {
            let tc = &mut self.themes[i];
            tc.1.populate_all();
            i += 1;
        }
    }

    /// Shared access to a known theme's cache, by name.
    pub fn theme_cache(&self, theme_name: &str) -> (r: Option<&ThemeCache>)
        ensures
            match r {
                Some(tc) => cache_index_from(self.caches_seq(), theme_name@, 0) matches Some(ix)
                    && *tc == self.caches_seq()[ix].1,
                None => cache_index_from(self.caches_seq(), theme_name@, 0) is None,
            },
    {
        match self.cache_index(theme_name) {
            Some(i) => Some(&self.themes[i].1),
            None => None,
        }
    }

    /// Exclusive access to a known theme's cache, by name. The mirror keeps
    /// the entry's name; only the cache value behind it can change.
    pub fn theme_cache_mut(&mut self, theme_name: &str) -> (r: Option<&mut ThemeCache>)
        ensures
            match cache_index_from(old(self).caches_seq(), theme_name@, 0) {
                Some(ix) => r.is_some() && *r.unwrap() == old(self).caches_seq()[ix].1 && final(self).spec_icons() == old(self).spec_icons() && final(self).caches_seq() == old(self).caches_seq().update(ix, (old(self).caches_seq()[ix].0, *final(r.unwrap()))),
                None => r.is_none() && *final(self) == *old(self),
            },
    {
        match self.cache_index(theme_name) {
            Some(i) => Some(&mut self.themes[i].1),
            None => None,
        }
    }

    /// Standalone lookup: pass-through to the uncached index; never cached.
    pub fn find_standalone_icon(&self, icon_name: &str) -> (r: Option<IconFile>)
        ensures
            r == self.spec_icons().spec_standalone(icon_name@),
    {
        self.icons.find_standalone_icon(icon_name)
    }

    /// The uncached index this cache uses.
    pub fn icons(&self) -> (r: &Icons)
        ensures
            *r == self.spec_icons(),
    {
        &self.icons
    }

    /// Number of themes the mirror holds.
    pub fn theme_count(&self) -> (r: usize)
        ensures
            r == self.caches_seq().len(),
    {
        self.themes.len()
    }
}

} // verus!
