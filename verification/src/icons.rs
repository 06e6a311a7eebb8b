//! The uncached top-level index: the named themes and the standalone icons
//! used as a last-resort fallback, with the uncached lookup the caching
//! layer is proved to agree with.

use crate::theme::theme_find;
use crate::theme::IconFile;
use crate::theme::Theme;
use std::sync::Arc;
use vstd::prelude::*;

verus! {

/// The first theme at or after position `i` stored under `name`.
pub open spec fn lookup_from(
    pairs: Seq<(String, Arc<Theme>)>,
    name: Seq<char>,
    i: int,
) -> Option<Arc<Theme>>
    decreases pairs.len() - i,
{
    if i < 0 || i >= pairs.len() {
        None
    } else if pairs[i].0@ == name {
        Some(pairs[i].1)
    } else {
        lookup_from(pairs, name, i + 1)
    }
}

/// The first standalone icon at or after position `i` recorded under
/// `name`.
pub open spec fn standalone_from(files: Seq<IconFile>, name: Seq<char>, i: int) -> Option<IconFile>
    decreases files.len() - i,
{
    if i < 0 || i >= files.len() {
        None
    } else if files[i].icon_name@ == name {
        Some(files[i])
    } else {
        standalone_from(files, name, i + 1)
    }
}

/// The uncached index: named themes in recorded order, plus the standalone
/// icons that serve as the last-resort fallback of every lookup.
pub struct Icons {
    themes: Vec<(String, Arc<Theme>)>,
    standalone: Vec<IconFile>,
}

impl Icons {
    /// The recorded (name, theme) pairs, in order.
    pub closed spec fn themes_seq(self) -> Seq<(String, Arc<Theme>)> {
        self.themes@
    }

    /// The recorded standalone icons, in order.
    pub closed spec fn standalone_seq(self) -> Seq<IconFile> {
        self.standalone@
    }

    /// The recorded theme names, in order.
    pub open spec fn theme_names(self) -> Seq<Seq<char>> {
        self.themes_seq().map_values(|p: (String, Arc<Theme>)| p.0@)
    }

    /// The theme recorded under `name`, if any (the first, when a name was
    /// recorded twice).
    pub open spec fn spec_theme(self, name: Seq<char>) -> Option<Arc<Theme>> {
        lookup_from(self.themes_seq(), name, 0)
    }

    /// The standalone icon recorded under `name`, if any.
    pub open spec fn spec_standalone(self, name: Seq<char>) -> Option<IconFile> {
        standalone_from(self.standalone_seq(), name, 0)
    }

    /// The uncached top-level lookup: empty names never match; the requested
    /// theme — or `"hicolor"` when the requested one is unknown — is
    /// searched with inheritance; on a miss the standalone icons are the
    /// last resort.
    pub open spec fn spec_find_icon(
        self,
        name: Seq<char>,
        size: u32,
        scale: u32,
        theme_name: Seq<char>,
    ) -> Option<IconFile> {
        if name.len() == 0 {
            None
        } else {
            let t = match self.spec_theme(theme_name) {
                Some(t) => Some(t),
                None => self.spec_theme("hicolor"@),
            };
            match t {
                None => None,
                Some(t) => match theme_find(*t, name, size, scale) {
                    Some(f) => Some(f),
                    None => self.spec_standalone(name),
                },
            }
        }
    }

    /// An index with no themes and no standalone icons.
    pub fn new() -> (r: Icons)
        ensures
            r.themes_seq() =~= Seq::empty(),
            r.standalone_seq() =~= Seq::empty(),
    {
        Icons { themes: Vec::new(), standalone: Vec::new() }
    }

    /// Record `theme` under `name`. Lookups return the first binding of a
    /// name, so a name recorded twice keeps its earlier theme.
    pub fn add_theme(&mut self, name: String, theme: Arc<Theme>)
        ensures
            final(self).themes_seq() == old(self).themes_seq().push((name, theme)),
            final(self).standalone_seq() == old(self).standalone_seq(),
    {
        self.themes.push((name, theme));
    }

    /// Record a standalone icon.
    pub fn add_standalone_icon(&mut self, file: IconFile)
        ensures
            final(self).standalone_seq() == old(self).standalone_seq().push(file),
            final(self).themes_seq() == old(self).themes_seq(),
    {
        self.standalone.push(file);
    }

    /// The recorded (name, theme) pairs, for the mirror construction.
    pub(crate) fn themes_vec(&self) -> (r: &Vec<(String, Arc<Theme>)>)
        ensures
            r@ == self.themes_seq(),
    {
        &self.themes
    }

    /// The theme recorded under `theme_name`, if any.
    pub fn theme(&self, theme_name: &str) -> (r: Option<Arc<Theme>>)
        ensures
            r == self.spec_theme(theme_name@),
    {
        let name_owned: String = theme_name.to_owned();
        let mut i: usize = 0;
        while i < self.themes.len()
            invariant
                i <= self.themes@.len(),
                name_owned@ == theme_name@,
                lookup_from(self.themes@, theme_name@, 0) == lookup_from(
                    self.themes@,
                    theme_name@,
                    i as int,
                ),
            decreases self.themes@.len() - i,
        {
            let p = &self.themes[i];
            if p.0 == name_owned {
                return Some(p.1.clone());
            }
            i += 1;
        }
        None
    }

    /// Uncached standalone lookup: the first standalone icon recorded under
    /// `icon_name`, if any. Never consults any theme.
    pub fn find_standalone_icon(&self, icon_name: &str) -> (r: Option<IconFile>)
        ensures
            r == self.spec_standalone(icon_name@),
    {
        let name_owned: String = icon_name.to_owned();
        let mut i: usize = 0;
        while i < self.standalone.len()
            invariant
                i <= self.standalone@.len(),
                name_owned@ == icon_name@,
                standalone_from(self.standalone@, icon_name@, 0) == standalone_from(
                    self.standalone@,
                    icon_name@,
                    i as int,
                ),
            decreases self.standalone@.len() - i,
        {
            let f = &self.standalone[i];
            if f.icon_name == name_owned {
                return Some(f.clone());
            }
            i += 1;
        }
        None
    }

    /// Uncached top-level lookup by name, size, scale and theme name.
    pub fn find_icon(&self, icon_name: &str, size: u32, scale: u32, theme_name: &str) -> (r: Option<
        IconFile,
    >)
        ensures
            r == self.spec_find_icon(icon_name@, size, scale, theme_name@),
    {
        if icon_name.is_empty() {
            return None;
        }
        let t = match self.theme(theme_name) {
            Some(t) => Some(t),
            None => self.theme("hicolor"),
        };
        match t {
            None => None,
            Some(t) => match t.find_icon(icon_name, size, scale) {
                Some(f) => Some(f),
                None => self.find_standalone_icon(icon_name),
            },
        }
    }

    /// Uncached lookup in the default `"hicolor"` theme.
    pub fn find_default_icon(&self, icon_name: &str, size: u32, scale: u32) -> (r: Option<IconFile>)
        ensures
            r == self.spec_find_icon(icon_name@, size, scale, "hicolor"@),
    {
        self.find_icon(icon_name, size, scale, "hicolor")
    }
}

} // verus!
