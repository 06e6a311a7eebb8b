use icon::Directory;
use icon::IconFile;
use icon::Icons;
use icon::IconsCache;
use icon::Theme;
use icon::ThemeCache;
use std::sync::Arc;

fn file(path: &str, name: &str) -> IconFile {
    IconFile { path: path.to_string(), icon_name: name.to_string() }
}

fn dir(scale: u32, min_size: u32, max_size: u32, files: Vec<IconFile>) -> Directory {
    Directory { scale, min_size, max_size, files }
}

fn test_theme() -> Arc<Theme> {
    Arc::new(Theme {
        internal_name: "TestTheme".to_string(),
        directories: vec![
            dir(
                1,
                16,
                16,
                vec![file("/test/16/happy.png", "happy"), file("/test/16/sad.png", "sad")],
            ),
            dir(1, 32, 32, vec![file("/test/32/happy.png", "happy")]),
        ],
        inherits_from: vec![],
    })
}

fn other_theme() -> Arc<Theme> {
    Arc::new(Theme {
        internal_name: "OtherTheme".to_string(),
        directories: vec![dir(1, 16, 16, vec![file("/other/16/ico.png", "ico")])],
        inherits_from: vec![],
    })
}

fn test_icons() -> Icons {
    let mut icons = Icons::new();
    icons.add_theme("TestTheme".to_string(), test_theme());
    icons.add_theme("OtherTheme".to_string(), other_theme());
    icons
}

#[test]
fn test_icons_cached() {
    let icons = test_icons();
    let icon_original = icons.find_icon("happy", 16, 1, "TestTheme").unwrap();
    let mut icons_cache = IconsCache::from_icons(icons);
    let icon_cached = icons_cache.find_icon("happy", 16, 1, "TestTheme").unwrap();

    assert_eq!(icon_original, icon_cached);
}

#[test]
fn test_cached_entry_persists() {
    let icons = test_icons();
    let theme = icons.theme("TestTheme").unwrap();

    let icon_original = theme.find_icon_here("happy", 16, 1).unwrap();

    let mut theme_cache = ThemeCache::from_theme(theme);

    assert!(theme_cache.cache_is_empty(), "cache is not yet populated");

    let icon = theme_cache.find_icon_here("happy", 16, 1).unwrap();
    assert_eq!(icon.icon_name().as_str(), "happy");
    println!("{:?}", icon);

    assert!(theme_cache.cache_contains("happy"), "cache contains happy icon");

    let icon_cached = theme_cache.find_icon_here("happy", 16, 1).unwrap();

    assert_eq!(icon, icon_cached, "cached icon is the same as the first one");
    assert_eq!(icon_original, icon, "cached icon is the same as the original");
}

#[test]
fn test_pre_population() {
    let mut icons = IconsCache::from_icons(test_icons());

    assert_eq!(icons.theme_count(), 2, "test themes in cache");
    assert_eq!(icons.theme_cache("TestTheme").unwrap().cache_count(), 0, "no icons in cache");
    assert_eq!(icons.theme_cache("OtherTheme").unwrap().cache_count(), 0, "no icons in cache");

    icons.pre_populate_cache();

    assert_eq!(icons.theme_count(), 2, "test themes in cache");

    assert_eq!(icons.theme_cache("TestTheme").unwrap().cache_count(), 2);
    assert_eq!(icons.theme_cache("OtherTheme").unwrap().cache_count(), 1);
}

#[test]
fn exact_match_beats_closer_distance() {
    // The first directory is near (distance 1) but not exact; the later
    // directory matches 16/1 exactly and must win despite its position.
    let theme = Arc::new(Theme {
        internal_name: "T".to_string(),
        directories: vec![
            dir(1, 14, 15, vec![file("/near.png", "app")]),
            dir(1, 16, 16, vec![file("/exact.png", "app")]),
        ],
        inherits_from: vec![],
    });
    let found = theme.find_icon_here("app", 16, 1).unwrap();
    assert_eq!(found.path.as_str(), "/exact.png");
}

#[test]
fn first_of_equal_exact_matches_wins() {
    let theme = Arc::new(Theme {
        internal_name: "T".to_string(),
        directories: vec![
            dir(1, 8, 24, vec![file("/a.png", "app")]),
            dir(1, 16, 16, vec![file("/b.png", "app")]),
        ],
        inherits_from: vec![],
    });
    let found = theme.find_icon_here("app", 16, 1).unwrap();
    assert_eq!(found.path.as_str(), "/a.png");
}

#[test]
fn tie_break_takes_first_minimum() {
    // Both directories are at distance 2 from size 16; the first one in
    // directory order must be chosen, on every repetition.
    let theme = Arc::new(Theme {
        internal_name: "T".to_string(),
        directories: vec![
            dir(1, 14, 14, vec![file("/low.png", "app")]),
            dir(1, 18, 18, vec![file("/high.png", "app")]),
        ],
        inherits_from: vec![],
    });
    let mut cache = ThemeCache::from_theme(theme.clone());
    for _ in 0..3 {
        let uncached = theme.find_icon_here("app", 16, 1).unwrap();
        let cached = cache.find_icon_here("app", 16, 1).unwrap();
        assert_eq!(uncached.path.as_str(), "/low.png");
        assert_eq!(cached.path.as_str(), "/low.png");
    }
}

#[test]
fn inheritance_takes_own_then_first_parent() {
    let parent_one = Arc::new(Theme {
        internal_name: "ParentOne".to_string(),
        directories: vec![dir(1, 16, 16, vec![file("/p1.png", "app"), file("/p1only.png", "solo")])],
        inherits_from: vec![],
    });
    let parent_two = Arc::new(Theme {
        internal_name: "ParentTwo".to_string(),
        directories: vec![
            dir(1, 16, 16, vec![file("/p2.png", "app"), file("/p2solo.png", "solo"), file("/p2last.png", "last")]),
        ],
        inherits_from: vec![],
    });
    let child = Arc::new(Theme {
        internal_name: "Child".to_string(),
        directories: vec![dir(1, 16, 16, vec![file("/child.png", "app")])],
        inherits_from: vec![parent_one, parent_two],
    });

    let mut cache = ThemeCache::from_theme(child.clone());
    // The child's own match wins.
    assert_eq!(cache.find_icon("app", 16, 1).unwrap().path.as_str(), "/child.png");
    // Both parents have "solo"; the first listed parent wins.
    assert_eq!(cache.find_icon("solo", 16, 1).unwrap().path.as_str(), "/p1only.png");
    // Only the second parent has "last".
    assert_eq!(cache.find_icon("last", 16, 1).unwrap().path.as_str(), "/p2last.png");
    // The uncached lookup agrees on all three.
    assert_eq!(child.find_icon("app", 16, 1).unwrap().path.as_str(), "/child.png");
    assert_eq!(child.find_icon("solo", 16, 1).unwrap().path.as_str(), "/p1only.png");
    assert_eq!(child.find_icon("last", 16, 1).unwrap().path.as_str(), "/p2last.png");
}

#[test]
fn pre_population_matches_lazy_results() {
    let mut lazy = IconsCache::from_icons(test_icons());
    let mut eager = IconsCache::from_icons(test_icons());
    eager.pre_populate_cache();

    for name in ["happy", "sad", "ico"] {
        for theme in ["TestTheme", "OtherTheme"] {
            assert_eq!(
                lazy.find_icon(name, 16, 1, theme),
                eager.find_icon(name, 16, 1, theme),
                "lazy and eager caches agree"
            );
        }
    }
}

#[test]
fn clear_cache_resets_state() {
    let mut cache = ThemeCache::from_theme(test_theme());
    cache.find_icon_here("happy", 16, 1);
    cache.find_icon_here("missing", 16, 1);
    assert_eq!(cache.cache_count(), 2, "hits and misses are both remembered");

    cache.clear_cache();
    assert_eq!(cache.cache_count(), 0);
    assert!(cache.cache_is_empty());
    assert!(!cache.cache_contains("happy"));

    // The next lookup still answers, re-enumerating and re-memoizing.
    let again = cache.find_icon_here("happy", 16, 1).unwrap();
    assert_eq!(again.icon_name().as_str(), "happy");
    assert!(cache.cache_contains("happy"));
}

#[test]
fn theme_names_mirror_source_index() {
    let mut cache = IconsCache::from_icons(test_icons());
    // After construction, lookups, pre-population and a clear, the cached
    // theme set still equals the source index's.
    cache.find_icon("happy", 16, 1, "TestTheme");
    cache.pre_populate_cache();
    cache.theme_cache_mut("TestTheme").unwrap().clear_cache();

    assert_eq!(cache.theme_count(), 2);
    for name in ["TestTheme", "OtherTheme"] {
        assert!(cache.theme_cache(name).is_some());
        assert!(cache.icons().theme(name).is_some());
    }
    assert!(cache.theme_cache("Missing").is_none());
    assert!(cache.icons().theme("Missing").is_none());
}

#[test]
fn empty_name_never_matches() {
    let mut cache = IconsCache::from_icons(test_icons());
    assert_eq!(cache.find_icon("", 16, 1, "TestTheme"), None);
}

#[test]
fn unknown_theme_falls_back_to_hicolor() {
    let mut icons = Icons::new();
    let hicolor = Arc::new(Theme {
        internal_name: "hicolor".to_string(),
        directories: vec![dir(1, 16, 16, vec![file("/hicolor/app.png", "app")])],
        inherits_from: vec![],
    });
    icons.add_theme("hicolor".to_string(), hicolor);
    let mut cache = IconsCache::from_icons(icons);

    let found = cache.find_icon("app", 16, 1, "NoSuchTheme").unwrap();
    assert_eq!(found.path.as_str(), "/hicolor/app.png");
    let direct = cache.find_default_icon("app", 16, 1).unwrap();
    assert_eq!(direct.path.as_str(), "/hicolor/app.png");
}

#[test]
fn unknown_theme_without_hicolor_is_no_match() {
    let mut cache = IconsCache::from_icons(test_icons());
    assert_eq!(cache.find_icon("happy", 16, 1, "NoSuchTheme"), None);
}

#[test]
fn standalone_icons_are_last_resort() {
    let mut icons = test_icons();
    icons.add_standalone_icon(file("/standalone/logo.png", "logo"));
    let mut cache = IconsCache::from_icons(icons);

    let found = cache.find_icon("logo", 16, 1, "TestTheme").unwrap();
    assert_eq!(found.path.as_str(), "/standalone/logo.png");
    let direct = cache.find_standalone_icon("logo").unwrap();
    assert_eq!(direct.path.as_str(), "/standalone/logo.png");
    // A theme hit is preferred over a standalone icon of the same name.
    let mut icons2 = test_icons();
    icons2.add_standalone_icon(file("/standalone/happy.png", "happy"));
    let mut cache2 = IconsCache::from_icons(icons2);
    let themed = cache2.find_icon("happy", 16, 1, "TestTheme").unwrap();
    assert_eq!(themed.path.as_str(), "/test/16/happy.png");
}

#[test]
fn size_distance_formula() {
    let d = dir(2, 16, 32, vec![]);
    // Requested pixel size 40 * 2 = 80 exceeds the top of 32 * 2 = 64.
    assert_eq!(d.size_distance(40, 2), 16);
    // Requested pixel size 4 * 2 = 8 falls short of 16 * 2 = 32.
    assert_eq!(d.size_distance(4, 2), 24);
    // Inside the served range the distance is zero.
    assert_eq!(d.size_distance(20, 2), 0);
    assert!(d.matches_size(20, 2));
    // A scale mismatch is never an exact match, whatever the distance.
    let e = dir(1, 16, 16, vec![]);
    assert!(!e.matches_size(16, 2));
    assert_eq!(e.size_distance(16, 1), 0);
    // Zero sizes and scales are accepted and just yield a distance.
    assert_eq!(e.size_distance(0, 0), 16);
}

#[test]
fn memoization_does_not_regrow_cache() {
    let mut cache = ThemeCache::from_theme(test_theme());
    let first = cache.find_icon_here("happy", 16, 1);
    let count_after_first = cache.cache_count();
    let second = cache.find_icon_here("happy", 16, 1);
    assert_eq!(first, second);
    assert_eq!(cache.cache_count(), count_after_first, "no new enumeration happened");
}

#[test]
fn find_icon_files_scans_in_directory_order() {
    let theme = test_theme();
    let files = theme.find_icon_files("happy");
    assert_eq!(files.len(), 2);
    assert_eq!(files[0].0, 0);
    assert_eq!(files[0].1.path.as_str(), "/test/16/happy.png");
    assert_eq!(files[1].0, 1);
    assert_eq!(files[1].1.path.as_str(), "/test/32/happy.png");
    assert!(theme.find_icon_files("nothing").is_empty());
}

#[test]
fn empty_candidate_list_is_no_match() {
    let mut cache = ThemeCache::from_theme(test_theme());
    assert_eq!(cache.find_icon_here("missing", 16, 1), None);
    // The miss is memoized all the same.
    assert!(cache.cache_contains("missing"));
}
