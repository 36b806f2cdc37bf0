//! The configuration read from the user's dotfile.
//!
//! The monitors are kept as a list of `(name, configuration)` pairs in which
//! no name occurs twice; the application fills it from the parsed file.

use vstd::prelude::*;

verus! {

/// No two entries of `entries` carry the same name.
pub open spec fn names_distinct<V>(entries: Seq<(String, V)>) -> bool {
    forall|i: int, j: int|
        0 <= i < entries.len() && 0 <= j < entries.len() && i != j
            ==> #[trigger] entries[i].0@ != #[trigger] entries[j].0@
}

/// The names of `entries`, in order.
pub open spec fn names_of<V>(entries: Seq<(String, V)>) -> Seq<Seq<char>> {
    entries.map_values(|e: (String, V)| e.0@)
}

/// The whole configuration of the daemon.
#[derive(Debug)]
pub struct DotfileTreeConfig {
    /// general configuration
    pub general: GeneralConfig,
    /// monitor-dependant configuration, one entry per monitor name
    pub monitor: Vec<(String, MonitorConfig)>,
    /// optional configuration of the swww daemon
    pub swww: Option<SwwwConf>,
}

impl DotfileTreeConfig {
    /// Each monitor is configured at most once.
    pub open spec fn wf(&self) -> bool {
        names_distinct(self.monitor@)
    }

    /// `self` and `other` hold the same settings.
    pub open spec fn same_as(&self, other: &DotfileTreeConfig) -> bool {
        &&& self.general.same_as(&other.general)
        &&& self.monitor@ == other.monitor@
        &&& self.swww == other.swww
    }
}

/// How `swww` fits an image to the output.
#[derive(Clone, Copy, Debug, PartialEq, Eq, Structural)]
pub enum ResizeType {
    Crop,
}

/// The name under which `swww` knows a resize mode.
pub open spec fn resize_name(r: ResizeType) -> Seq<char> {
    match r {
        ResizeType::Crop => "crop"@,
    }
}

impl ResizeType {
    /// The lower-case name of the variant, as `swww img --resize` expects it.
    pub fn as_static_str(&self) -> (r: &'static str)
        ensures
            r@ == resize_name(*self),
    {
        match self {
            ResizeType::Crop => "crop",
        }
    }
}

/// Settings of the transitions that `swww` plays.
#[derive(Clone, Copy, Debug)]
pub struct SwwwConf {
    pub resize_type: ResizeType,
    pub transition_fps: i32,
    pub transition_step: i32,
}

/// Settings shared by all monitors.
#[derive(Debug)]
pub struct GeneralConfig {
    /// duration between each transition
    pub duration: u32,
    /// dirs of horizontal wallpapers
    pub path: Vec<String>,
    /// dirs of vertical wallpapers
    pub path_vertical: Vec<String>,
}

/// Settings of one monitor.
#[derive(Debug)]
pub struct MonitorConfig {
    pub resolution: String,
    /// transform rotation degree
    pub transform: Option<i32>,
    pub vertical: Option<bool>,
}

/// An exact copy of a list of strings.
pub fn copy_strings(v: &Vec<String>) -> (r: Vec<String>)
    ensures
        r@ == v@,
{
    let mut r: Vec<String> = Vec::new();
    let mut i: usize = 0;
    while i < v.len()
        invariant
            i <= v.len(),
            r@ == v@.take(i as int),
        decreases v.len() - i,
    {
        r.push(v[i].clone());
        i = i + 1;
        assert(r@ =~= v@.take(i as int));
    }
    assert(v@.take(v.len() as int) =~= v@);
    r
}

impl Clone for MonitorConfig {
    fn clone(&self) -> (r: Self)
        ensures
            r == *self,
    {
        MonitorConfig {
            resolution: self.resolution.clone(),
            transform: self.transform,
            vertical: self.vertical,
        }
    }
}

impl GeneralConfig {
    /// `self` and `other` hold the same settings.
    pub open spec fn same_as(&self, other: &GeneralConfig) -> bool {
        &&& self.duration == other.duration
        &&& self.path@ == other.path@
        &&& self.path_vertical@ == other.path_vertical@
    }
}

impl Clone for GeneralConfig {
    fn clone(&self) -> (r: Self)
        ensures
            r.same_as(self),
    {
        GeneralConfig {
            duration: self.duration,
            path: copy_strings(&self.path),
            path_vertical: copy_strings(&self.path_vertical),
        }
    }
}

/// An exact copy of the monitor list.
pub fn copy_monitors(v: &Vec<(String, MonitorConfig)>) -> (r: Vec<(String, MonitorConfig)>)
    ensures
        r@ == v@,
{
    let mut r: Vec<(String, MonitorConfig)> = Vec::new();
    let mut i: usize = 0;
    while i < v.len()
        invariant
            i <= v.len(),
            r@ == v@.take(i as int),
        decreases v.len() - i,
    {
        let entry = (v[i].0.clone(), v[i].1.clone());
        r.push(entry);
        i = i + 1;
        assert(r@ =~= v@.take(i as int));
    }
    assert(v@.take(v.len() as int) =~= v@);
    r
}

impl Clone for DotfileTreeConfig {
    fn clone(&self) -> (r: Self)
        ensures
            r.same_as(self),
    {
        DotfileTreeConfig {
            general: self.general.clone(),
            monitor: copy_monitors(&self.monitor),
            swww: self.swww,
        }
    }
}

impl Default for SwwwConf {
    fn default() -> (r: Self)
        ensures
            r.resize_type == ResizeType::Crop,
            r.transition_fps == 60,
            r.transition_step == 2,
    {
        SwwwConf { resize_type: ResizeType::Crop, transition_fps: 60, transition_step: 2 }
    }
}

impl Default for GeneralConfig {
    fn default() -> (r: Self)
        ensures
            r.duration == 60,
            r.path@.len() == 0,
            r.path_vertical@.len() == 0,
    {
        GeneralConfig { duration: 60, path: Vec::new(), path_vertical: Vec::new() }
    }
}

impl Default for DotfileTreeConfig {
    fn default() -> (r: Self)
        ensures
            r.general.duration == 60,
            r.general.path@.len() == 0,
            r.general.path_vertical@.len() == 0,
            r.monitor@.len() == 0,
            r.swww == Some(
                SwwwConf { resize_type: ResizeType::Crop, transition_fps: 60, transition_step: 2 },
            ),
            r.wf(),
    {
        DotfileTreeConfig {
            general: GeneralConfig::default(),
            monitor: Vec::new(),
            swww: Some(SwwwConf::default()),
        }
    }
}

} // verus!
