//! Settings that the viewer's logic reads, and where the settings file is looked for.
use vstd::prelude::*;

verus! {

/// How the window is shown.
#[derive(Clone, Copy, Debug, PartialEq, Eq, Structural)]
pub enum WindowMode {
    Overlay,
    Windowed,
}

/// What a double click on the canvas does.
#[derive(Clone, Copy, Debug, PartialEq, Eq, Structural)]
pub enum DoubleClickAction {
    ToggleWindowMode,
    ToggleFitToWindow,
    ToggleActualSize,
    NoAction,
}

/// How textures are filtered.
#[derive(Clone, Copy, Debug, PartialEq, Eq, Structural)]
pub enum FilterMode {
    Auto,
    Nearest,
    Bilinear,
}

/// When the thumbnail strip is shown.
#[derive(Clone, Copy, Debug, PartialEq, Eq, Structural)]
pub enum FilmstripVisibility {
    Hover,
    Always,
    Hidden,
}

impl WindowMode {
    /// The other mode.
    pub open spec fn spec_toggled(self) -> WindowMode {
        match self {
            WindowMode::Overlay => WindowMode::Windowed,
            WindowMode::Windowed => WindowMode::Overlay,
        }
    }

    /// The other mode: overlay becomes windowed and windowed becomes overlay.
    pub fn toggled(self) -> (m: WindowMode)
        ensures
            m == self.spec_toggled(),
    {
        match self {
            WindowMode::Overlay => WindowMode::Windowed,
            WindowMode::Windowed => WindowMode::Overlay,
        }
    }
}

impl FilterMode {
    /// The next mode in the cycle Auto, Nearest, Bilinear.
    pub open spec fn spec_next_in_cycle(self) -> FilterMode {
        match self {
            FilterMode::Auto => FilterMode::Nearest,
            FilterMode::Nearest => FilterMode::Bilinear,
            FilterMode::Bilinear => FilterMode::Auto,
        }
    }

    /// The next mode in the cycle Auto, Nearest, Bilinear.
    pub fn next_in_cycle(self) -> (m: FilterMode)
        ensures
            m == self.spec_next_in_cycle(),
    {
        match self {
            FilterMode::Auto => FilterMode::Nearest,
            FilterMode::Nearest => FilterMode::Bilinear,
            FilterMode::Bilinear => FilterMode::Auto,
        }
    }
}

impl FilmstripVisibility {
    /// The next setting in the cycle Hover, Always, Hidden.
    pub open spec fn spec_next_in_cycle(self) -> FilmstripVisibility {
        match self {
            FilmstripVisibility::Hover => FilmstripVisibility::Always,
            FilmstripVisibility::Always => FilmstripVisibility::Hidden,
            FilmstripVisibility::Hidden => FilmstripVisibility::Hover,
        }
    }

    /// The next setting in the cycle Hover, Always, Hidden.
    pub fn next_in_cycle(self) -> (v: FilmstripVisibility)
        ensures
            v == self.spec_next_in_cycle(),
    {
        match self {
            FilmstripVisibility::Hover => FilmstripVisibility::Always,
            FilmstripVisibility::Always => FilmstripVisibility::Hidden,
            FilmstripVisibility::Hidden => FilmstripVisibility::Hover,
        }
    }
}

/// Toggling the window mode twice restores it.
pub proof fn lemma_toggle_twice(m: WindowMode)
    ensures
        m.spec_toggled().spec_toggled() == m,
        m.spec_toggled() != m,
{
}

/// Three presses of the filter key come back to the starting filter, and
/// every press changes it.
pub proof fn lemma_filter_cycle(m: FilterMode)
    ensures
        m.spec_next_in_cycle().spec_next_in_cycle().spec_next_in_cycle() == m,
        m.spec_next_in_cycle() != m,
{
}

/// Three presses of the strip key come back to the starting setting, and
/// every press changes it.
pub proof fn lemma_filmstrip_cycle(v: FilmstripVisibility)
    ensures
        v.spec_next_in_cycle().spec_next_in_cycle().spec_next_in_cycle() == v,
        v.spec_next_in_cycle() != v,
{
}

/// Limits of the image caches and of prefetching.
pub struct CacheConfig {
    pub max_ram_cache_mb: usize,
    pub prefetch_count: usize,
    pub thumbnail_cache_count: usize,
}

impl Default for CacheConfig {
    /// 1024 MB of decoded images, two images prefetched each way, 2000 thumbnails.
    fn default() -> (c: CacheConfig)
        ensures
            c.max_ram_cache_mb == 1024,
            c.prefetch_count == 2,
            c.thumbnail_cache_count == 2000,
    {
        CacheConfig { max_ram_cache_mb: 1024, prefetch_count: 2, thumbnail_cache_count: 2000 }
    }
}

/// A place where a settings file may be found. A file found at a legacy
/// place is written back to the current place once it has been read.
pub struct ConfigCandidate {
    pub path: String,
    pub is_legacy: bool,
}

/// The places to read settings from, in order: the current place, then the
/// legacy place when there is one that differs from it.
pub fn config_candidates(current: String, legacy: Option<String>) -> (c: Vec<ConfigCandidate>)
    ensures
        c@.len() >= 1,
        c@[0].path@ == current@,
        !c@[0].is_legacy,
        match legacy {
            Some(l) => if l@ != current@ {
                c@.len() == 2 && c@[1].path@ == l@ && c@[1].is_legacy
            } else {
                c@.len() == 1
            },
            None => c@.len() == 1,
        },
{
    let mut c: Vec<ConfigCandidate> = Vec::new();
    match legacy {
        Some(l) => {
            let differs = !(l == current);
            c.push(ConfigCandidate { path: current, is_legacy: false });
            if differs {
                c.push(ConfigCandidate { path: l, is_legacy: true });
            }
        },
        None => {
            c.push(ConfigCandidate { path: current, is_legacy: false });
        },
    }
    c
}

} // verus!
