//! A logging façade with several independently configured drivers.
//!
//! A `Ftail` collects global options and drivers, each with its own threshold.
//! `init` resolves one configuration per driver; `log` then says which drivers
//! receive a record, in the order they were added.

pub mod ansi_escape;
pub mod clock;
pub mod config;
pub mod decimal;
pub mod drivers;
pub mod error;
pub mod formatters;
pub mod helpers;
pub mod level;
pub mod record;
mod writer;

pub use crate::config::{Config, ConfigView};
pub use crate::error::FtailError;
pub use crate::level::{Level, LevelFilter};
pub use crate::record::Record;
use vstd::prelude::*;

verus! {

/// Where a driver writes.
#[derive(Debug)]
pub enum DriverKind {
    /// One plain line per record on standard output.
    Console,
    /// A styled block per record on standard output.
    FormattedConsole,
    /// One file at a fixed path, appended to or truncated when opened.
    SingleFile { path: String, append: bool },
    /// One file per day, `<dir>/<YYYY-MM-DD>.log`.
    DailyFile { dir: String },
    /// A sink of the caller's, known by the number the caller gave it.
    Custom { id: usize },
}

/// A `DriverKind` with its strings as character sequences.
pub enum DriverKindView {
    Console,
    FormattedConsole,
    SingleFile(Seq<char>, bool),
    DailyFile(Seq<char>),
    Custom(usize),
}

impl View for DriverKind {
    type V = DriverKindView;

    open spec fn view(&self) -> DriverKindView {
        match self {
            DriverKind::Console => DriverKindView::Console,
            DriverKind::FormattedConsole => DriverKindView::FormattedConsole,
            DriverKind::SingleFile { path, append } => DriverKindView::SingleFile(path@, *append),
            DriverKind::DailyFile { dir } => DriverKindView::DailyFile(dir@),
            DriverKind::Custom { id } => DriverKindView::Custom(*id),
        }
    }
}

impl DriverKind {
    pub fn duplicate(&self) -> (r: DriverKind)
        ensures
            r@ == self@,
    {
        match self {
            DriverKind::Console => DriverKind::Console,
            DriverKind::FormattedConsole => DriverKind::FormattedConsole,
            DriverKind::SingleFile { path, append } => DriverKind::SingleFile {
                path: path.clone(),
                append: *append,
            },
            DriverKind::DailyFile { dir } => DriverKind::DailyFile { dir: dir.clone() },
            DriverKind::Custom { id } => DriverKind::Custom { id: *id },
        }
    }
}

/// A driver queued before `init`, with its threshold.
pub(crate) struct LogDriver {
    kind: DriverKind,
    level: LevelFilter,
}

/// A driver after `init`, with its own resolved configuration.
pub struct InitializedLogDriver {
    pub kind: DriverKind,
    pub config: Config,
}

pub open spec fn initialized_view(d: InitializedLogDriver) -> (DriverKindView, ConfigView) {
    (d.kind@, d.config@)
}

/// The logger under construction, and after `init` the dispatcher.
pub struct Ftail {
    drivers: Vec<LogDriver>,
    initialized_drivers: Vec<InitializedLogDriver>,
    config: Config,
}

/// What a `Ftail` holds: the queued drivers with their thresholds, the initialized
/// drivers with their configurations, and the global configuration.
pub struct FtailView {
    pub queued: Seq<(DriverKindView, LevelFilter)>,
    pub drivers: Seq<(DriverKindView, ConfigView)>,
    pub config: ConfigView,
}

impl View for Ftail {
    type V = FtailView;

    closed spec fn view(&self) -> FtailView {
        FtailView {
            queued: self.drivers@.map_values(|d: LogDriver| (d.kind@, d.level)),
            drivers: self.initialized_drivers@.map_values(|d: InitializedLogDriver| initialized_view(d)),
            config: self.config@,
        }
    }
}

/// Each queued driver with the global configuration, its threshold put in.
pub open spec fn resolve(queued: Seq<(DriverKindView, LevelFilter)>, config: ConfigView) -> Seq<(DriverKindView, ConfigView)> {
    queued.map_values(|q: (DriverKindView, LevelFilter)| (q.0, config.with_level_filter(q.1)))
}

/// After `init`, the `i`-th driver is the `i`-th one added, it filters with the
/// threshold it was added with, and the global allow-lists are those set before;
/// with `Ftail::log`, a record reaches that driver exactly when the allow-lists
/// let it through and that threshold admits its level.
pub proof fn lemma_init_keeps_registration(
    queued: Seq<(DriverKindView, LevelFilter)>,
    config: ConfigView,
    i: int,
    level: Level,
    target: Seq<char>,
)
    requires
        0 <= i < queued.len(),
    ensures
        resolve(queued, config).len() == queued.len(),
        resolve(queued, config)[i].0 == queued[i].0,
        resolve(queued, config)[i].1.level_filter == queued[i].1,
        passes_filters(resolve(queued, config)[i].1, level, target) == passes_filters(config, level, target),
{
}

/// The configuration that `Ftail::new` starts from.
pub open spec fn is_default_config(c: ConfigView) -> bool {
    &&& c.level_filter == LevelFilter::Off
    &&& c.datetime_format == config::default_datetime_format()
    &&& c.timezone == "UTC"@
    &&& c.max_file_size.is_none()
    &&& c.levels.is_none()
    &&& c.targets.is_none()
}

/// A record passes the global filters when its level and its target are on the
/// allow-lists that are set.
pub open spec fn passes_filters(c: ConfigView, level: Level, target: Seq<char>) -> bool {
    c.level_allowed(level) && c.target_allowed(target)
}

/// The global configuration with one option changed.
pub open spec fn with_config(v: FtailView, config: ConfigView) -> FtailView {
    FtailView { config, ..v }
}

/// One more driver queued.
pub open spec fn with_queued(v: FtailView, kind: DriverKindView, level: LevelFilter) -> FtailView {
    FtailView { queued: v.queued.push((kind, level)), ..v }
}

impl LogDriver {
    fn new(kind: DriverKind, level: LevelFilter) -> (r: LogDriver)
        ensures
            r.kind@ == kind@,
            r.level == level,
    {
        LogDriver { kind, level }
    }

    fn init(&self, config: Config) -> (r: InitializedLogDriver)
        ensures
            r.kind@ == self.kind@,
            r.config@ == config@,
    {
        InitializedLogDriver { kind: self.kind.duplicate(), config }
    }
}

impl Ftail {
    /// No drivers, and the default configuration.
    pub fn new() -> (r: Ftail)
        ensures
            r@.queued.len() == 0,
            r@.drivers.len() == 0,
            is_default_config(r@.config),
    {
        let r = Ftail { drivers: Vec::new(), initialized_drivers: Vec::new(), config: Config::new() };
        assert(r@.queued =~= Seq::empty());
        assert(r@.drivers =~= Seq::empty());
        r
    }

    /// Sets the zone that timestamps are shown in, by its IANA name.
    pub fn timezone(self, timezone: &str) -> (r: Ftail)
        ensures
            r@ == with_config(self@, ConfigView { timezone: timezone@, ..self@.config }),
    {
        let mut s = self;
        s.config.timezone = timezone.to_string();
        s
    }

    /// Sets the strftime pattern that timestamps are rendered with.
    pub fn datetime_format(self, datetime_format: &str) -> (r: Ftail)
        ensures
            r@ == with_config(self@, ConfigView { datetime_format: datetime_format@, ..self@.config }),
    {
        let mut s = self;
        s.config.datetime_format = datetime_format.to_string();
        s
    }

    /// Sets the size, in megabytes, past which log files are rotated.
    pub fn max_file_size(self, max_file_size_in_mb: u64) -> (r: Ftail)
        requires
            max_file_size_in_mb * 1048576 <= u64::MAX,
        ensures
            r@ == with_config(
                self@,
                ConfigView { max_file_size: Some((max_file_size_in_mb * 1048576) as u64), ..self@.config },
            ),
    {
        let mut s = self;
        s.config.max_file_size = Some(max_file_size_in_mb * 1024 * 1024);
        s
    }

    /// Only records with one of these levels are logged.
    pub fn filter_levels(self, levels: Vec<Level>) -> (r: Ftail)
        ensures
            r@ == with_config(self@, ConfigView { levels: Some(levels@), ..self@.config }),
    {
        let mut s = self;
        s.config.levels = Some(levels);
        s
    }

    /// Only records with one of these targets are logged.
    pub fn filter_targets(self, targets: Vec<&str>) -> (r: Ftail)
        ensures
            r@ == with_config(
                self@,
                ConfigView { targets: Some(targets@.map_values(|t: &str| t@)), ..self@.config },
            ),
    {
        let mut owned: Vec<String> = Vec::new();
        let mut i: usize = 0;
        while i < targets.len()
            invariant
                i <= targets.len(),
                config::strings_view(owned) =~= targets@.subrange(0, i as int).map_values(|t: &str| t@),
            decreases targets.len() - i,
        {
            let ghost before = owned;
            owned.push(targets[i].to_string());
            assert(config::strings_view(owned) =~= config::strings_view(before).push(targets@[i as int]@));
            i += 1;
        }
        assert(targets@.subrange(0, i as int) =~= targets@);
        let mut s = self;
        s.config.targets = Some(owned);
        s
    }

    fn add_driver(self, kind: DriverKind, level: LevelFilter) -> (r: Ftail)
        ensures
            r@ == with_queued(self@, kind@, level),
    {
        let mut s = self;
        s.drivers.push(LogDriver::new(kind, level));
        assert(s@.queued =~= self@.queued.push((kind@, level)));
        s
    }

    /// Adds a driver that prints one line per record.
    pub fn console(self, level: LevelFilter) -> (r: Ftail)
        ensures
            r@ == with_queued(self@, DriverKindView::Console, level),
    {
        self.add_driver(DriverKind::Console, level)
    }

    /// Adds a driver that prints a styled block per record.
    pub fn formatted_console(self, level: LevelFilter) -> (r: Ftail)
        ensures
            r@ == with_queued(self@, DriverKindView::FormattedConsole, level),
    {
        self.add_driver(DriverKind::FormattedConsole, level)
    }

    /// Adds a driver that writes to the file at `path`.
    pub fn single_file(self, path: &str, append: bool, level: LevelFilter) -> (r: Ftail)
        ensures
            r@ == with_queued(self@, DriverKindView::SingleFile(path@, append), level),
    {
        self.add_driver(DriverKind::SingleFile { path: path.to_string(), append }, level)
    }

    /// Adds a driver that writes to one file per day in the directory `path`.
    pub fn daily_file(self, path: &str, level: LevelFilter) -> (r: Ftail)
        ensures
            r@ == with_queued(self@, DriverKindView::DailyFile(path@), level),
    {
        self.add_driver(DriverKind::DailyFile { dir: path.to_string() }, level)
    }

    /// Adds a sink of the caller's, known by `id`.
    pub fn custom(self, id: usize, level: LevelFilter) -> (r: Ftail)
        ensures
            r@ == with_queued(self@, DriverKindView::Custom(id), level),
    {
        self.add_driver(DriverKind::Custom { id }, level)
    }

    /// Resolves every queued driver's configuration: the global one, with the
    /// driver's threshold. Fails when no driver was added.
    pub fn init(self) -> (r: Result<Ftail, FtailError>)
        ensures
            r is Err <==> self@.queued.len() == 0,
            r is Err ==> r matches Err(FtailError::NoDriversError),
            r is Ok ==> r.unwrap()@ == (FtailView {
                queued: Seq::empty(),
                drivers: self@.drivers + resolve(self@.queued, self@.config),
                config: self@.config,
            }),
    {
        if self.drivers.len() == 0 {
            return Err(FtailError::NoDriversError);
        }
        let ghost queued = self@.queued;
        let ghost base = self@.drivers;
        let ghost config = self@.config;
        let Ftail { drivers, initialized_drivers, config: global } = self;
        let mut initialized = initialized_drivers;
        let mut i: usize = 0;
        while i < drivers.len()
            invariant
                i <= drivers.len(),
                queued == drivers@.map_values(|d: LogDriver| (d.kind@, d.level)),
                global@ == config,
                initialized@.map_values(|d: InitializedLogDriver| initialized_view(d))
                    =~= base + resolve(queued.subrange(0, i as int), config),
            decreases drivers.len() - i,
        {
            let ghost before = initialized;
            let driver = drivers[i].init(global.resolved(drivers[i].level));
            initialized.push(driver);
            assert(resolve(queued.subrange(0, i + 1), config) =~= resolve(queued.subrange(0, i as int), config).push(
                (queued[i as int].0, config.with_level_filter(queued[i as int].1)),
            ));
            assert(initialized@.map_values(|d: InitializedLogDriver| initialized_view(d)) =~= before@.map_values(
                |d: InitializedLogDriver| initialized_view(d),
            ).push(initialized_view(driver)));
            i += 1;
        }
        assert(queued.subrange(0, i as int) =~= queued);
        let r = Ftail { drivers: Vec::new(), initialized_drivers: initialized, config: global };
        assert(r@.queued =~= Seq::empty());
        Ok(r)
    }

    /// The initialized drivers, in the order they were added.
    pub fn drivers(&self) -> (r: &Vec<InitializedLogDriver>)
        ensures
            r@.map_values(|d: InitializedLogDriver| initialized_view(d)) == self@.drivers,
    {
        &self.initialized_drivers
    }

    /// Whether the global allow-lists let a record with this level and target through.
    pub fn passes(&self, level: Level, target: &String) -> (r: bool)
        ensures
            r == passes_filters(self@.config, level, target@),
    {
        self.config.allows_level(level) && self.config.allows_target(target)
    }

    /// Whether a record with this level and target would be logged: the global
    /// allow-lists let it through, and some driver's threshold admits the level while
    /// the driver itself is willing (`willing[i]`, what driver `i`'s own check said).
    pub fn enabled(&self, level: Level, target: &String, willing: &Vec<bool>) -> (r: bool)
        requires
            willing.len() == self@.drivers.len(),
        ensures
            r == (passes_filters(self@.config, level, target@) && exists|i: int|
                0 <= i < self@.drivers.len() && #[trigger] self@.drivers[i].1.level_filter.spec_admits(level)
                    && willing[i]),
    {
        if !self.passes(level, target) {
            return false;
        }
        let ghost ds = self@.drivers;
        let mut i: usize = 0;
        while i < self.initialized_drivers.len()
            invariant
                i <= self.initialized_drivers.len(),
                ds == self@.drivers,
                ds.len() == self.initialized_drivers.len(),
                willing.len() == ds.len(),
                passes_filters(self@.config, level, target@),
                forall|j: int| 0 <= j < i ==> !(#[trigger] ds[j].1.level_filter.spec_admits(level) && willing[j]),
            decreases self.initialized_drivers.len() - i,
        {
            assert(ds[i as int] == initialized_view(self.initialized_drivers@[i as int]));
            if self.initialized_drivers[i].config.level_filter.admits(level) && willing[i] {
                assert(self@.drivers[i as int].1.level_filter.spec_admits(level) && willing[i as int]);
                return true;
            }
            i += 1;
        }
        false
    }

    /// The drivers that receive `record`, in the order they were added: none where
    /// the global allow-lists stop it, otherwise each driver whose threshold admits
    /// its level.
    pub fn log(&self, record: &Record) -> (r: Vec<usize>)
        ensures
            forall|k: int| 0 <= k < r@.len() ==> r@[k] < self@.drivers.len(),
            forall|a: int, b: int| 0 <= a < b < r@.len() ==> r@[a] < r@[b],
            forall|i: usize|
                i < self@.drivers.len() ==> (r@.contains(i) <==> (passes_filters(
                    self@.config,
                    record.level,
                    record.target@,
                ) && self@.drivers[i as int].1.level_filter.spec_admits(record.level))),
    {
        let mut r: Vec<usize> = Vec::new();
        if !self.passes(record.level, &record.target) {
            assert(r@ =~= Seq::empty());
            return r;
        }
        let ghost ds = self@.drivers;
        let mut i: usize = 0;
        while i < self.initialized_drivers.len()
            invariant
                i <= self.initialized_drivers.len(),
                ds == self@.drivers,
                ds.len() == self.initialized_drivers.len(),
                forall|k: int| 0 <= k < r@.len() ==> r@[k] < i,
                forall|a: int, b: int| 0 <= a < b < r@.len() ==> r@[a] < r@[b],
                forall|j: usize|
                    j < i ==> (r@.contains(j) <==> ds[j as int].1.level_filter.spec_admits(record.level)),
            decreases self.initialized_drivers.len() - i,
        {
            assert(ds[i as int] == initialized_view(self.initialized_drivers@[i as int]));
            if self.initialized_drivers[i].config.level_filter.admits(record.level) {
                let ghost before = r@;
                r.push(i);
                assert forall|j: usize| j < i + 1 implies (r@.contains(j) <==> ds[j as int].1.level_filter.spec_admits(
                    record.level,
                )) by {
                    if j < i {
                        if before.contains(j) {
                            let k = choose|k: int| 0 <= k < before.len() && before[k] == j;
                            assert(r@[k] == j);
                        }
                        if r@.contains(j) {
                            let k = choose|k: int| 0 <= k < r@.len() && r@[k] == j;
                            assert(k < before.len());
                            assert(before[k] == j);
                        }
                    } else {
                        assert(r@[r@.len() - 1] == j);
                    }
                }
            } else {
                assert forall|j: usize| j < i + 1 implies (r@.contains(j) <==> ds[j as int].1.level_filter.spec_admits(
                    record.level,
                )) by {
                    if j == i && r@.contains(j) {
                        let k = choose|k: int| 0 <= k < r@.len() && r@[k] == j;
                        assert(r@[k] < i);
                    }
                }
            }
            i += 1;
        }
        r
    }
}

impl Default for Ftail {
    fn default() -> (r: Ftail)
        ensures
            r@.queued.len() == 0,
            r@.drivers.len() == 0,
            is_default_config(r@.config),
    {
        Ftail::new()
    }
}

} // verus!
