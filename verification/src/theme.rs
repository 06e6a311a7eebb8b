//! The shared, immutable theme graph: directory descriptors with their
//! recorded icon files, and themes with their ordered inheritance chains.
//! Also holds the uncached local-match algorithm that the caching layer is
//! proved to agree with.

use std::sync::Arc;
use vstd::prelude::*;

verus! {

/// Index of a directory within its owning theme's directory list.
///
/// A `DirectoryRef` is positional: it is only meaningful relative to the
/// theme whose directory list it was derived from.
pub type DirectoryRef = usize;

/// One addressable icon resource together with its recorded icon name.
#[derive(Debug)]
pub struct IconFile {
    /// Location of the resource.
    pub path: String,
    /// The icon name this resource was recorded under.
    pub icon_name: String,
}

impl IconFile {
    /// The icon name this resource was recorded under.
    pub fn icon_name(&self) -> (r: &String)
        ensures
            r == self.icon_name,
    {
        &self.icon_name
    }
}

impl Clone for IconFile {
    fn clone(&self) -> (r: Self)
        ensures
            r == *self,
    {
        IconFile { path: self.path.clone(), icon_name: self.icon_name.clone() }
    }
}

impl PartialEq for IconFile {
    fn eq(&self, other: &Self) -> (r: bool) {
        self.path == other.path && self.icon_name == other.icon_name
    }
}

impl vstd::std_specs::cmp::PartialEqSpecImpl for IconFile {
    open spec fn obeys_eq_spec() -> bool {
        true
    }

    open spec fn eq_spec(&self, other: &Self) -> bool {
        self.path@ == other.path@ && self.icon_name@ == other.icon_name@
    }
}

/// Descriptor of one icon directory of a theme: the size/scale range it
/// serves, and the icon files recorded in it.
pub struct Directory {
    /// The display scale this directory serves.
    pub scale: u32,
    /// Smallest nominal icon size this directory serves.
    pub min_size: u32,
    /// Largest nominal icon size this directory serves.
    pub max_size: u32,
    /// The icon files recorded in this directory, in scan order.
    pub files: Vec<IconFile>,
}

/// Whether `d` serves the requested size and scale exactly.
pub open spec fn spec_matches_size(d: Directory, size: u32, scale: u32) -> bool {
    d.scale == scale && d.min_size <= size && size <= d.max_size
}

/// Distance between the requested size/scale and the pixel range `d` serves;
/// `0` when the requested pixel size falls inside that range.
pub open spec fn spec_size_distance(d: Directory, size: u32, scale: u32) -> int {
    let p = size * scale;
    let lo = d.min_size * d.scale;
    let hi = d.max_size * d.scale;
    if p < lo {
        lo - p
    } else if p > hi {
        p - hi
    } else {
        0
    }
}

impl Directory {
    /// Whether this directory serves the requested size and scale exactly.
    pub fn matches_size(&self, size: u32, scale: u32) -> (r: bool)
        ensures
            r == spec_matches_size(*self, size, scale),
    {
        self.scale == scale && self.min_size <= size && size <= self.max_size
    }

    /// How far the requested size/scale is from the range this directory
    /// serves; `0` when the requested pixel size falls inside the range.
    pub fn size_distance(&self, size: u32, scale: u32) -> (r: u64)
        ensures
            r as int == spec_size_distance(*self, size, scale),
    {
        proof {
            assert((size as u64) * (scale as u64) <= u64::MAX && (self.min_size as u64) * (
            self.scale as u64) <= u64::MAX && (self.max_size as u64) * (self.scale as u64)
                <= u64::MAX) by (nonlinear_arith)
                requires
                    size <= u32::MAX,
                    scale <= u32::MAX,
                    self.min_size <= u32::MAX,
                    self.max_size <= u32::MAX,
                    self.scale <= u32::MAX,
            ;
        }
        let p: u64 = (size as u64) * (scale as u64);
        let lo: u64 = (self.min_size as u64) * (self.scale as u64);
        let hi: u64 = (self.max_size as u64) * (self.scale as u64);
        if p < lo {
            lo - p
        } else if p > hi {
            p - hi
        } else {
            0
        }
    }
}

/// A theme: its name, its ordered directory list, and the ordered list of
/// parent themes it inherits from (first match wins).
pub struct Theme {
    /// The name the theme is known under.
    pub internal_name: String,
    /// The theme's directories, in index order.
    pub directories: Vec<Directory>,
    /// Parent themes, in inheritance order.
    pub inherits_from: Vec<Arc<Theme>>,
}

/// Candidates contributed by the first `m` files of the directory with
/// reference `dref`: one `(dref, file)` pair per file recorded under `name`,
/// in file order.
pub open spec fn files_matching_upto(
    files: Seq<IconFile>,
    dref: DirectoryRef,
    name: Seq<char>,
    m: int,
) -> Seq<(DirectoryRef, IconFile)>
    decreases m,
{
    if m <= 0 {
        Seq::empty()
    } else {
        files_matching_upto(files, dref, name, m - 1) + if files[m - 1].icon_name@ == name {
            seq![(dref, files[m - 1])]
        } else {
            Seq::empty()
        }
    }
}

/// Candidates contributed by the first `n` directories of `dirs`, in
/// directory order.
pub open spec fn candidates_upto(dirs: Seq<Directory>, name: Seq<char>, n: int) -> Seq<
    (DirectoryRef, IconFile),
>
    decreases n,
{
    if n <= 0 {
        Seq::empty()
    } else {
        candidates_upto(dirs, name, n - 1) + files_matching_upto(
            dirs[n - 1].files@,
            (n - 1) as usize,
            name,
            dirs[n - 1].files@.len() as int,
        )
    }
}

/// The full candidate list of a theme for one icon name: every
/// (directory reference, icon file) pair recorded under that name, in
/// directory-major scan order.
pub open spec fn theme_candidates(t: Theme, name: Seq<char>) -> Seq<(DirectoryRef, IconFile)> {
    candidates_upto(t.directories@, name, t.directories@.len() as int)
}

/// Distance of one candidate's directory from the requested size and scale.
pub open spec fn cand_distance(
    dirs: Seq<Directory>,
    c: (DirectoryRef, IconFile),
    size: u32,
    scale: u32,
) -> int {
    spec_size_distance(dirs[c.0 as int], size, scale)
}

/// The first candidate at or after position `i` whose directory matches the
/// requested size and scale exactly.
pub open spec fn first_exact_from(
    dirs: Seq<Directory>,
    cs: Seq<(DirectoryRef, IconFile)>,
    size: u32,
    scale: u32,
    i: int,
) -> Option<(DirectoryRef, IconFile)>
    decreases cs.len() - i,
{
    if i < 0 || i >= cs.len() {
        None
    } else if spec_matches_size(dirs[cs[i].0 as int], size, scale) {
        Some(cs[i])
    } else {
        first_exact_from(dirs, cs, size, scale, i + 1)
    }
}

/// Among the first `i` candidates, the one whose directory has minimum
/// distance; on equal distance the earlier candidate is kept.
pub open spec fn best_upto(
    dirs: Seq<Directory>,
    cs: Seq<(DirectoryRef, IconFile)>,
    size: u32,
    scale: u32,
    i: int,
) -> Option<(DirectoryRef, IconFile)>
    decreases i,
{
    if i <= 0 || i > cs.len() {
        None
    } else {
        match best_upto(dirs, cs, size, scale, i - 1) {
            None => Some(cs[i - 1]),
            Some(b) => if cand_distance(dirs, cs[i - 1], size, scale) < cand_distance(
                dirs,
                b,
                size,
                scale,
            ) {
                Some(cs[i - 1])
            } else {
                Some(b)
            },
        }
    }
}

/// The local match algorithm on a candidate list: the first exact match in
/// list order if one exists, else the first minimum-distance candidate, else
/// no match on an empty list.
pub open spec fn local_match(
    dirs: Seq<Directory>,
    cs: Seq<(DirectoryRef, IconFile)>,
    size: u32,
    scale: u32,
) -> Option<IconFile> {
    match first_exact_from(dirs, cs, size, scale, 0) {
        Some(c) => Some(c.1),
        None => match best_upto(dirs, cs, size, scale, cs.len() as int) {
            Some(c) => Some(c.1),
            None => None,
        },
    }
}

/// The local match of a theme for one icon name, size and scale: the local
/// match algorithm applied to the theme's full candidate list.
pub open spec fn theme_local_match(t: Theme, name: Seq<char>, size: u32, scale: u32) -> Option<
    IconFile,
> {
    local_match(t.directories@, theme_candidates(t, name), size, scale)
}

/// The local match of the first parent at or after position `i` that has
/// one.
pub open spec fn parents_match_from(
    parents: Seq<Arc<Theme>>,
    name: Seq<char>,
    size: u32,
    scale: u32,
    i: int,
) -> Option<IconFile>
    decreases parents.len() - i,
{
    if i < 0 || i >= parents.len() {
        None
    } else {
        match theme_local_match(*parents[i], name, size, scale) {
            Some(f) => Some(f),
            None => parents_match_from(parents, name, size, scale, i + 1),
        }
    }
}

/// The inheritance-aware match of a theme: its own local match if present,
/// else the first parent's local match, in inheritance order.
pub open spec fn theme_find(t: Theme, name: Seq<char>, size: u32, scale: u32) -> Option<IconFile> {
    match theme_local_match(t, name, size, scale) {
        Some(f) => Some(f),
        None => parents_match_from(t.inherits_from@, name, size, scale, 0),
    }
}

/// The set of icon names the first `m` files of one directory record.
pub open spec fn dir_names_upto(files: Seq<IconFile>, m: int) -> Set<Seq<char>>
    decreases m,
{
    if m <= 0 {
        Set::empty()
    } else {
        dir_names_upto(files, m - 1).insert(files[m - 1].icon_name@)
    }
}

/// The set of icon names the first `n` directories record.
pub open spec fn names_upto(dirs: Seq<Directory>, n: int) -> Set<Seq<char>>
    decreases n,
{
    if n <= 0 {
        Set::empty()
    } else {
        names_upto(dirs, n - 1).union(
            dir_names_upto(dirs[n - 1].files@, dirs[n - 1].files@.len() as int),
        )
    }
}

/// Every icon name a theme records in any of its directories.
pub open spec fn theme_icon_names(t: Theme) -> Set<Seq<char>> {
    names_upto(t.directories@, t.directories@.len() as int)
}

/// Every candidate produced by the first `n` directories carries a directory
/// reference below `n`.
pub proof fn lemma_candidates_refs(dirs: Seq<Directory>, name: Seq<char>, n: int)
    requires
        n <= dirs.len(),
    ensures
        forall|i: int|
            0 <= i < candidates_upto(dirs, name, n).len() ==> (#[trigger] candidates_upto(
                dirs,
                name,
                n,
            )[i]).0 < n,
    decreases n,
{
    if n > 0 {
        lemma_candidates_refs(dirs, name, n - 1);
        let fs = files_matching_upto(dirs[n - 1].files@, (n - 1) as usize, name, dirs[n
            - 1].files@.len() as int);
        lemma_files_matching_refs(dirs[n - 1].files@, (n - 1) as usize, name, dirs[n
            - 1].files@.len() as int);
        let prev = candidates_upto(dirs, name, n - 1);
        let cs = candidates_upto(dirs, name, n);
        assert forall|i: int| 0 <= i < cs.len() implies (#[trigger] cs[i]).0 < n by {
            if i < prev.len() {
                assert(cs[i] == prev[i]);
            } else {
                assert(cs[i] == fs[i - prev.len()]);
            }
        }
    }
}

/// Every candidate contributed by one directory carries that directory's
/// reference.
pub proof fn lemma_files_matching_refs(
    files: Seq<IconFile>,
    dref: DirectoryRef,
    name: Seq<char>,
    m: int,
)
    ensures
        forall|i: int|
            0 <= i < files_matching_upto(files, dref, name, m).len() ==> (
            #[trigger] files_matching_upto(files, dref, name, m)[i]).0 == dref,
    decreases m,
{
    if m > 0 {
        lemma_files_matching_refs(files, dref, name, m - 1);
        let prev = files_matching_upto(files, dref, name, m - 1);
        let fs = files_matching_upto(files, dref, name, m);
        assert forall|i: int| 0 <= i < fs.len() implies (#[trigger] fs[i]).0 == dref by {
            if i < prev.len() {
                assert(fs[i] == prev[i]);
            } else {
                assert(fs[i] == (dref, files[m - 1]));
            }
        }
    }
}

/// Run the local match algorithm over `cands`: first exact match in list
/// order, else first minimum-distance candidate, else none.
pub(crate) fn match_candidates(
    dirs: &Vec<Directory>,
    cands: &Vec<(DirectoryRef, IconFile)>,
    size: u32,
    scale: u32,
) -> (r: Option<IconFile>)
    requires
        forall|i: int| 0 <= i < cands@.len() ==> (#[trigger] cands@[i]).0 < dirs@.len(),
    ensures
        r == local_match(dirs@, cands@, size, scale),
{
    let mut i: usize = 0;
    while i < cands.len()
        invariant
            i <= cands@.len(),
            forall|k: int| 0 <= k < cands@.len() ==> (#[trigger] cands@[k]).0 < dirs@.len(),
            first_exact_from(dirs@, cands@, size, scale, 0) == first_exact_from(
                dirs@,
                cands@,
                size,
                scale,
                i as int,
            ),
        decreases cands@.len() - i,
    {
        let c = &cands[i];
        let dir = &dirs[c.0];
        if dir.matches_size(size, scale) {
            return Some(c.1.clone());
        }
        i += 1;
    }
    if cands.len() == 0 {
        return None;
    }
    let c0 = &cands[0];
    let d0 = &dirs[c0.0];
    let mut best: usize = 0;
    let mut best_dist: u64 = d0.size_distance(size, scale);
    proof {
        assert(best_upto(dirs@, cands@, size, scale, 0) is None);
        assert(best_upto(dirs@, cands@, size, scale, 1) == Some(cands@[0]));
    }
    let mut j: usize = 1;
    while j < cands.len()
        invariant
            1 <= j <= cands@.len(),
            cands@.len() > 0,
            best < j,
            forall|k: int| 0 <= k < cands@.len() ==> (#[trigger] cands@[k]).0 < dirs@.len(),
            first_exact_from(dirs@, cands@, size, scale, 0) is None,
            best_dist as int == cand_distance(dirs@, cands@[best as int], size, scale),
            best_upto(dirs@, cands@, size, scale, j as int) == Some(cands@[best as int]),
        decreases cands@.len() - j,
    {
        let c = &cands[j];
        let dir = &dirs[c.0];
        let dist = dir.size_distance(size, scale);
        if dist < best_dist {
            best = j;
            best_dist = dist;
        }
        j += 1;
    }
    let b = &cands[best];
    Some(b.1.clone())
}

impl Theme {
    /// Enumerate every (directory reference, icon file) pair this theme
    /// records under `icon_name`, scanning directories and files in order.
    pub fn find_icon_files(&self, icon_name: &str) -> (r: Vec<(DirectoryRef, IconFile)>)
        ensures
            r@ == theme_candidates(*self, icon_name@),
    {
        let name_owned: String = icon_name.to_owned();
        let mut r: Vec<(DirectoryRef, IconFile)> = Vec::new();
        let mut d: usize = 0;
        while d < self.directories.len()
            invariant
                d <= self.directories.len(),
                name_owned@ == icon_name@,
                r@ == candidates_upto(self.directories@, icon_name@, d as int),
            decreases self.directories.len() - d,
        {
            let dir = &self.directories[d];
            let mut j: usize = 0;
            while j < dir.files.len()
                invariant
                    j <= dir.files.len(),
                    d < self.directories.len(),
                    name_owned@ == icon_name@,
                    dir == &self.directories[d as int],
                    r@ == candidates_upto(self.directories@, icon_name@, d as int)
                        + files_matching_upto(dir.files@, d, icon_name@, j as int),
                decreases dir.files.len() - j,
            {
                let f = &dir.files[j];
                if f.icon_name == name_owned {
                    r.push((d, f.clone()));
                }
                j += 1;
            }
            d += 1;
        }
        r
    }

    /// Local-only uncached lookup: applies the local match algorithm to this
    /// theme's candidate list for `icon_name`. This is the reference
    /// algorithm the caching layer is proved to agree with.
    pub fn find_icon_here(&self, icon_name: &str, size: u32, scale: u32) -> (r: Option<IconFile>)
        ensures
            r == theme_local_match(*self, icon_name@, size, scale),
    {
        let cands = self.find_icon_files(icon_name);
        proof {
            lemma_candidates_refs(self.directories@, icon_name@, self.directories@.len() as int);
        }
        match_candidates(&self.directories, &cands, size, scale)
    }

    /// Inheritance-aware uncached lookup: this theme's local match if
    /// present, else the first parent's local match, in inheritance order.
    pub fn find_icon(&self, icon_name: &str, size: u32, scale: u32) -> (r: Option<IconFile>)
        ensures
            r == theme_find(*self, icon_name@, size, scale),
    {
        match self.find_icon_here(icon_name, size, scale) {
            Some(f) => Some(f),
            None => {
                let mut i: usize = 0;
                while i < self.inherits_from.len()
                    invariant
                        i <= self.inherits_from@.len(),
                        theme_local_match(*self, icon_name@, size, scale) is None,
                        parents_match_from(self.inherits_from@, icon_name@, size, scale, 0)
                            == parents_match_from(
                            self.inherits_from@,
                            icon_name@,
                            size,
                            scale,
                            i as int,
                        ),
                    decreases self.inherits_from@.len() - i,
                {
                    let p = &self.inherits_from[i];
                    match p.find_icon_here(icon_name, size, scale) {
                        Some(f) => {
                            return Some(f);
                        },
                        None => {},
                    }
                    i += 1;
                }
                None
            },
        }
    }
}

} // verus!
