use crate::level::{Level, LevelFilter};
use vstd::prelude::*;

verus! {

/// The settings of a `Config`, with strings as character sequences.
pub struct ConfigView {
    pub level_filter: LevelFilter,
    pub datetime_format: Seq<char>,
    pub timezone: Seq<char>,
    pub max_file_size: Option<u64>,
    pub levels: Option<Seq<Level>>,
    pub targets: Option<Seq<Seq<char>>>,
}

impl ConfigView {
    /// The global level allow-list lets `level` through.
    pub open spec fn level_allowed(self, level: Level) -> bool {
        match self.levels {
            None => true,
            Some(ls) => ls.contains(level),
        }
    }

    /// The global target allow-list lets `target` through.
    pub open spec fn target_allowed(self, target: Seq<char>) -> bool {
        match self.targets {
            None => true,
            Some(ts) => ts.contains(target),
        }
    }

    /// The same settings with the driver threshold replaced.
    pub open spec fn with_level_filter(self, level_filter: LevelFilter) -> ConfigView {
        ConfigView { level_filter, ..self }
    }
}

/// The logger's configuration: the global settings, and for each driver its threshold.
#[derive(Clone, Debug)]
pub struct Config {
    pub level_filter: LevelFilter,
    pub datetime_format: String,
    /// The IANA name of the zone timestamps are shown in.
    pub timezone: String,
    pub max_file_size: Option<u64>,
    pub levels: Option<Vec<Level>>,
    pub targets: Option<Vec<String>>,
}

pub open spec fn strings_view(v: Vec<String>) -> Seq<Seq<char>> {
    v@.map_values(|s: String| s@)
}

impl View for Config {
    type V = ConfigView;

    open spec fn view(&self) -> ConfigView {
        ConfigView {
            level_filter: self.level_filter,
            datetime_format: self.datetime_format@,
            timezone: self.timezone@,
            max_file_size: self.max_file_size,
            levels: match self.levels {
                None => None,
                Some(v) => Some(v@),
            },
            targets: match self.targets {
                None => None,
                Some(v) => Some(strings_view(v)),
            },
        }
    }
}

pub open spec fn default_datetime_format() -> Seq<char> {
    "%Y-%m-%d %H:%M:%S"@
}

pub(crate) fn copy_levels(v: &Vec<Level>) -> (r: Vec<Level>)
    ensures
        r@ == v@,
{
    let mut r: Vec<Level> = Vec::new();
    let mut i: usize = 0;
    while i < v.len()
        invariant
            i <= v.len(),
            r@ == v@.subrange(0, i as int),
        decreases v.len() - i,
    {
        r.push(v[i]);
        i += 1;
    }
    assert(r@ =~= v@);
    r
}

pub(crate) fn copy_strings(v: &Vec<String>) -> (r: Vec<String>)
    ensures
        strings_view(r) == strings_view(*v),
{
    let mut r: Vec<String> = Vec::new();
    let mut i: usize = 0;
    while i < v.len()
        invariant
            i <= v.len(),
            strings_view(r) =~= strings_view(*v).subrange(0, i as int),
        decreases v.len() - i,
    {
        let ghost before = r;
        r.push(v[i].clone());
        assert(strings_view(r) =~= strings_view(before).push(v@[i as int]@));
        i += 1;
    }
    assert(strings_view(r) =~= strings_view(*v));
    r
}

/// Whether `target` is one of the strings of `v`.
pub fn contains_string(v: &Vec<String>, target: &String) -> (r: bool)
    ensures
        r == strings_view(*v).contains(target@),
{
    let ghost ts = strings_view(*v);
    let mut i: usize = 0;
    while i < v.len()
        invariant
            i <= v.len(),
            ts == strings_view(*v),
            forall|j: int| 0 <= j < i ==> ts[j] != target@,
        decreases v.len() - i,
    {
        if v[i] == *target {
            assert(ts[i as int] == target@);
            assert(ts.contains(target@));
            return true;
        }
        i += 1;
    }
    false
}

impl Config {
    /// The zone `UTC`, the pattern `%Y-%m-%d %H:%M:%S`, no size limit, no level or target
    /// allow-list, and no driver threshold.
    pub fn new() -> (r: Config)
        ensures
            r@.level_filter == LevelFilter::Off,
            r@.datetime_format == default_datetime_format(),
            r@.timezone == "UTC"@,
            r@.max_file_size.is_none(),
            r@.levels.is_none(),
            r@.targets.is_none(),
    {
        Config {
            level_filter: LevelFilter::Off,
            datetime_format: "%Y-%m-%d %H:%M:%S".to_string(),
            timezone: "UTC".to_string(),
            max_file_size: None,
            levels: None,
            targets: None,
        }
    }

    /// A copy of these settings with the driver threshold set to `level_filter`.
    pub fn resolved(&self, level_filter: LevelFilter) -> (r: Config)
        ensures
            r@ == self@.with_level_filter(level_filter),
    {
        let levels = match &self.levels {
            None => None,
            Some(v) => Some(copy_levels(v)),
        };
        let targets = match &self.targets {
            None => None,
            Some(v) => Some(copy_strings(v)),
        };
        Config {
            level_filter,
            datetime_format: self.datetime_format.clone(),
            timezone: self.timezone.clone(),
            max_file_size: self.max_file_size,
            levels,
            targets,
        }
    }

    /// Whether the global level allow-list lets `level` through.
    pub fn allows_level(&self, level: Level) -> (r: bool)
        ensures
            r == self@.level_allowed(level),
    {
        match &self.levels {
            None => true,
            Some(v) => {
                let mut i: usize = 0;
                while i < v.len()
                    invariant
                        i <= v.len(),
                        self@.levels == Some(v@),
                        forall|j: int| 0 <= j < i ==> v@[j] != level,
                    decreases v.len() - i,
                {
                    if v[i] == level {
                        assert(v@[i as int] == level);
                        assert(v@.contains(level));
                        return true;
                    }
                    i += 1;
                }
                false
            },
        }
    }

    /// Whether the global target allow-list lets `target` through.
    pub fn allows_target(&self, target: &String) -> (r: bool)
        ensures
            r == self@.target_allowed(target@),
    {
        match &self.targets {
            None => true,
            Some(v) => contains_string(v, target),
        }
    }
}

impl Default for Config {
    fn default() -> (r: Config)
        ensures
            r@.level_filter == LevelFilter::Off,
            r@.datetime_format == default_datetime_format(),
            r@.timezone == "UTC"@,
            r@.max_file_size.is_none(),
            r@.levels.is_none(),
            r@.targets.is_none(),
    {
        Config::new()
    }
}

} // verus!
