//! The checked configuration and the optional settings it is merged from.

use crate::config::{
    AccessConfig, AddressText, ConfigError, PacketBudgetConfig, Settings, SocketAddress,
    WorldConfig, MAX_COMPRESSION_THRESHOLD, MAX_CONNECTIONS, MAX_KEEP_ALIVE_INTERVAL_MS,
    MAX_CHUNK_STREAM_INTERVAL_MS, MAX_HORIZONTAL_COORDINATE, MAX_IO_TIMEOUT_SECS,
    MAX_PERMISSION_LEVEL, MAX_PLAY_DISTANCE, MAX_REGION_FILL_VOLUME, MAX_REGION_UNDO_HISTORY,
    MAX_SPAWN_CHUNK_RADIUS, MAX_SPAWN_PROTECT_RADIUS, MAX_SPAWN_Y, MAX_TICKS_PER_SECOND,
    MIN_CHUNK_STREAM_INTERVAL_MS, MIN_KEEP_ALIVE_INTERVAL_MS, MIN_SPAWN_Y,
};
use crate::config::defaults_are_valid;
use crate::math::Vec3;
use crate::time_span::TimeSpan;
use vstd::prelude::*;

verus! {

/// A configuration that satisfies every limit.
#[derive(Debug, PartialEq)]
pub struct AppConfig {
    settings: Settings,
}

impl AppConfig {
    #[verifier::type_invariant]
    closed spec fn within_limits(self) -> bool {
        self.settings.valid()
    }

    /// The values of the configuration.
    pub closed spec fn model(self) -> Settings {
        self.settings
    }

    /// Checks values against every limit.
    pub fn new(settings: Settings) -> (r: Result<AppConfig, ConfigError>)
        ensures
            match r {
                Ok(config) => settings.valid() && config.model() == settings,
                Err(error) => settings.first_fault() == Some(error),
            },
            r is Ok == settings.valid(),
    {
        match settings.validate() {
            Ok(()) => Ok(AppConfig { settings }),
            Err(error) => Err(error),
        }
    }

    /// The values of the configuration, which satisfy every limit.
    pub fn settings(&self) -> (r: &Settings)
        ensures
            *r == self.model(),
            r.valid(),
    {
        proof {
            use_type_invariant(self);
        }
        &self.settings
    }

    /// The nominal duration of one simulation tick, which is never zero.
    pub fn tick_period(&self) -> (r: TimeSpan)
        ensures
            r.as_nanos() == 1_000_000_000int / self.model().ticks_per_second as int,
            r.as_nanos() > 0,
    {
        proof {
            use_type_invariant(self);
        }
        match self.settings.checked_tick_period() {
            Ok(period) => period,
            Err(_) => TimeSpan::from_nanos(1),
        }
    }

    /// Returns a copy that uses `world_dir` for persistence.
    pub fn with_world_dir(self, world_dir: Option<String>) -> (r: Result<AppConfig, ConfigError>)
        ensures
            r matches Ok(config) && config.model() == (Settings { world_dir, ..self.model() }),
    {
        proof {
            use_type_invariant(&self);
        }
        let mut settings = self.settings;
        settings.world_dir = world_dir;
        AppConfig::new(settings)
    }

    /// Returns a copy that scans `plugins_dir` at startup.
    pub fn with_plugins_dir(self, plugins_dir: Option<String>) -> (r: Result<
        AppConfig,
        ConfigError,
    >)
        ensures
            r matches Ok(config) && config.model() == (Settings { plugins_dir, ..self.model() }),
    {
        proof {
            use_type_invariant(&self);
        }
        let mut settings = self.settings;
        settings.plugins_dir = plugins_dir;
        AppConfig::new(settings)
    }

    /// Returns a copy carrying the supplied access-control policy; refused where the
    /// connection limit of one address exceeds that of the server.
    pub fn with_access(self, access: AccessConfig) -> (r: Result<AppConfig, ConfigError>)
        ensures
            match r {
                Ok(config) => {
                    &&& access.per_ip_connection_limit <= self.model().max_connections
                    &&& config.model() == (Settings { access, ..self.model() })
                },
                Err(error) => {
                    &&& access.per_ip_connection_limit > self.model().max_connections
                    &&& error == (ConfigError::PerIpConnectionLimit {
                        max_connections: self.model().max_connections,
                        limit: access.per_ip_connection_limit,
                    })
                },
            },
    {
        proof {
            use_type_invariant(&self);
        }
        let mut settings = self.settings;
        settings.access = access;
        AppConfig::new(settings)
    }

    /// Applies the command-line overrides and the shipping default: the full bind
    /// address first, then the port, then a world directory where none is named.
    pub fn with_runtime_overrides(
        self,
        bind: Option<SocketAddress>,
        port: Option<u16>,
        default_world_dir: String,
    ) -> (r: Result<AppConfig, ConfigError>)
        ensures
            r matches Ok(config) && config.model() == runtime_settings(
                self.model(),
                bind,
                port,
                default_world_dir,
            ),
    {
        proof {
            use_type_invariant(&self);
        }
        let mut settings = self.settings;
        if let Some(address) = bind {
            settings.bind = address;
        }
        if let Some(port) = port {
            settings.bind = SocketAddress { ip: settings.bind.ip, port };
        }
        if settings.world_dir.is_none() {
            settings.world_dir = Some(default_world_dir);
        }
        AppConfig::new(settings)
    }

    /// Returns the socket address the TCP listener binds to.
    pub fn bind(&self) -> (r: SocketAddress)
        ensures
            r == self.model().bind,
    {
        self.settings.bind
    }

    /// Returns the ceiling on simultaneously accepted connections.
    pub fn max_connections(&self) -> (r: usize)
        ensures
            r == self.model().max_connections,
            1 <= r <= MAX_CONNECTIONS,
    {
        proof {
            use_type_invariant(self);
        }
        self.settings.max_connections
    }

    /// Returns the deadline applied to each socket read and write.
    pub fn io_timeout(&self) -> (r: TimeSpan)
        ensures
            r == self.model().io_timeout,
            1_000_000_000 <= r.as_nanos() <= MAX_IO_TIMEOUT_SECS * 1_000_000_000,
    {
        proof {
            use_type_invariant(self);
        }
        self.settings.io_timeout
    }

    /// Returns the compression threshold, or `None` when compression is disabled.
    pub fn compression_threshold(&self) -> (r: Option<i32>)
        ensures
            r == self.model().compression_threshold,
            r matches Some(t) ==> 0 <= t <= MAX_COMPRESSION_THRESHOLD,
    {
        proof {
            use_type_invariant(self);
        }
        self.settings.compression_threshold
    }

    /// Returns the play view distance advertised to clients.
    pub fn view_distance(&self) -> (r: i32)
        ensures
            r == self.model().view_distance,
            0 <= r <= MAX_PLAY_DISTANCE,
    {
        proof {
            use_type_invariant(self);
        }
        self.settings.view_distance
    }

    /// Returns the play simulation distance advertised to clients.
    pub fn simulation_distance(&self) -> (r: i32)
        ensures
            r == self.model().simulation_distance,
            0 <= r <= MAX_PLAY_DISTANCE,
    {
        proof {
            use_type_invariant(self);
        }
        self.settings.simulation_distance
    }

    /// Returns the world-spawn position, which is finite and within the world.
    pub fn spawn(&self) -> (r: Vec3)
        ensures
            r == self.model().spawn,
            r.x.within(-MAX_HORIZONTAL_COORDINATE as int, MAX_HORIZONTAL_COORDINATE as int),
            r.y.within(MIN_SPAWN_Y as int, MAX_SPAWN_Y as int),
            r.z.within(-MAX_HORIZONTAL_COORDINATE as int, MAX_HORIZONTAL_COORDINATE as int),
    {
        proof {
            use_type_invariant(self);
        }
        self.settings.spawn
    }

    /// Returns the resident spawn-area radius in chunks.
    pub fn spawn_chunk_radius(&self) -> (r: u8)
        ensures
            r == self.model().spawn_chunk_radius,
            r <= MAX_SPAWN_CHUNK_RADIUS,
    {
        proof {
            use_type_invariant(self);
        }
        self.settings.spawn_chunk_radius
    }

    /// Returns the simulation rate in ticks per second.
    pub fn ticks_per_second(&self) -> (r: u32)
        ensures
            r == self.model().ticks_per_second,
            1 <= r <= MAX_TICKS_PER_SECOND,
    {
        proof {
            use_type_invariant(self);
        }
        self.settings.ticks_per_second
    }

    /// Returns the configured plugin directory, if any.
    pub fn plugins_dir(&self) -> (r: Option<&String>)
        ensures
            r is Some == self.model().plugins_dir is Some,
            r matches Some(dir) ==> *dir == self.model().plugins_dir->Some_0,
    {
        self.settings.plugins_dir.as_ref()
    }

    /// Returns whether the built-in plugin set is enabled.
    pub fn builtin_plugins(&self) -> (r: bool)
        ensures
            r == self.model().builtin_plugins,
    {
        self.settings.builtin_plugins
    }

    /// Returns the spawn-protection radius in blocks.
    pub fn spawn_protect_radius(&self) -> (r: i32)
        ensures
            r == self.model().spawn_protect_radius,
            0 <= r <= MAX_SPAWN_PROTECT_RADIUS,
    {
        proof {
            use_type_invariant(self);
        }
        self.settings.spawn_protect_radius
    }

    /// Returns the names granted the spawn-protection bypass.
    pub fn spawn_protect_bypass(&self) -> (r: &Vec<String>)
        ensures
            *r == self.model().spawn_protect_bypass,
    {
        &self.settings.spawn_protect_bypass
    }

    /// Returns the maximum block volume of one region-edit command.
    pub fn max_region_fill_volume(&self) -> (r: u64)
        ensures
            r == self.model().max_region_fill_volume,
            r <= MAX_REGION_FILL_VOLUME,
    {
        proof {
            use_type_invariant(self);
        }
        self.settings.max_region_fill_volume
    }

    /// Returns the number of region undo entries retained per player.
    pub fn region_undo_history(&self) -> (r: usize)
        ensures
            r == self.model().region_undo_history,
            r <= MAX_REGION_UNDO_HISTORY,
    {
        proof {
            use_type_invariant(self);
        }
        self.settings.region_undo_history
    }

    /// Returns the clientbound keep-alive interval.
    pub fn keep_alive_interval(&self) -> (r: TimeSpan)
        ensures
            r == self.model().keep_alive_interval,
            Settings::span_within(
                r,
                MIN_KEEP_ALIVE_INTERVAL_MS as int,
                MAX_KEEP_ALIVE_INTERVAL_MS as int,
            ),
    {
        proof {
            use_type_invariant(self);
        }
        self.settings.keep_alive_interval
    }

    /// Returns the chunk-stream pump interval.
    pub fn chunk_stream_interval(&self) -> (r: TimeSpan)
        ensures
            r == self.model().chunk_stream_interval,
            Settings::span_within(
                r,
                MIN_CHUNK_STREAM_INTERVAL_MS as int,
                MAX_CHUNK_STREAM_INTERVAL_MS as int,
            ),
    {
        proof {
            use_type_invariant(self);
        }
        self.settings.chunk_stream_interval
    }

    /// Returns the configured operator names.
    pub fn ops(&self) -> (r: &Vec<String>)
        ensures
            *r == self.model().ops,
    {
        &self.settings.ops
    }

    /// Returns the default permission level for a non-operator player.
    pub fn default_permission_level(&self) -> (r: u8)
        ensures
            r == self.model().default_permission_level,
            r <= MAX_PERMISSION_LEVEL,
    {
        proof {
            use_type_invariant(self);
        }
        self.settings.default_permission_level
    }

    /// Returns the persistent world directory, if one is configured.
    pub fn world_dir(&self) -> (r: Option<&String>)
        ensures
            r is Some == self.model().world_dir is Some,
            r matches Some(dir) ==> *dir == self.model().world_dir->Some_0,
    {
        self.settings.world_dir.as_ref()
    }

    /// Returns whether the read-only dashboard is enabled.
    pub fn dashboard_enabled(&self) -> (r: bool)
        ensures
            r == self.model().dashboard_enabled,
    {
        self.settings.dashboard_enabled
    }

    /// Returns the socket address used by the read-only dashboard.
    pub fn dashboard_bind(&self) -> (r: SocketAddress)
        ensures
            r == self.model().dashboard_bind,
    {
        self.settings.dashboard_bind
    }

    /// Returns the access-control configuration.
    pub fn access(&self) -> (r: &AccessConfig)
        ensures
            *r == self.model().access,
            r.per_ip_connection_limit <= self.model().max_connections,
    {
        proof {
            use_type_invariant(self);
        }
        &self.settings.access
    }

    /// Returns the per-connection packet budget.
    pub fn budget(&self) -> (r: PacketBudgetConfig)
        ensures
            r == self.model().budget,
            r.sound(),
    {
        proof {
            use_type_invariant(self);
        }
        self.settings.budget
    }

    /// Returns the initial-world-content configuration.
    pub fn world(&self) -> (r: &WorldConfig)
        ensures
            *r == self.model().world,
    {
        &self.settings.world
    }
}

/// The values after the command-line overrides and the shipping default.
pub open spec fn runtime_settings(
    settings: Settings,
    bind: Option<SocketAddress>,
    port: Option<u16>,
    default_world_dir: String,
) -> Settings {
    let address = match bind {
        Some(address) => address,
        None => settings.bind,
    };
    Settings {
        bind: match port {
            Some(port) => SocketAddress { ip: address.ip, port },
            None => address,
        },
        world_dir: match settings.world_dir {
            Some(dir) => Some(dir),
            None => Some(default_world_dir),
        },
        ..settings
    }
}

impl Default for AppConfig {
    fn default() -> (r: AppConfig)
        ensures
            r.model().is_default(),
    {
        let settings = Settings::default();
        proof {
            defaults_are_valid(settings);
        }
        AppConfig { settings }
    }
}

/// The settings a configuration document may give, each of them optional.
#[derive(Debug)]
pub struct RawConfig {
    /// The listen address.
    pub bind: Option<AddressText>,
    /// The connection ceiling.
    pub max_connections: Option<usize>,
    /// The socket timeout, in whole seconds.
    pub io_timeout_secs: Option<u64>,
    /// The compression threshold; negative to disable compression.
    pub compression_threshold: Option<i32>,
    /// The view distance.
    pub view_distance: Option<i32>,
    /// The simulation distance.
    pub simulation_distance: Option<i32>,
    /// The spawn position.
    pub spawn: Option<Vec3>,
    /// The resident spawn radius.
    pub spawn_chunk_radius: Option<u8>,
    /// The tick rate.
    pub ticks_per_second: Option<u32>,
    /// The plugin directory.
    pub plugins_dir: Option<String>,
    /// Whether the built-in plugins are registered.
    pub builtin_plugins: Option<bool>,
    /// The spawn-protection radius; not positive to disable protection.
    pub spawn_protect_radius: Option<i32>,
    /// The names that bypass spawn protection.
    pub spawn_protect_bypass: Option<Vec<String>>,
    /// The region volume.
    pub max_region_fill_volume: Option<u64>,
    /// The undo history.
    pub region_undo_history: Option<usize>,
    /// The keep-alive interval, in milliseconds.
    pub keep_alive_interval_ms: Option<u64>,
    /// The chunk-stream interval, in milliseconds.
    pub chunk_stream_interval_ms: Option<u64>,
    /// The operator names.
    pub ops: Option<Vec<String>>,
    /// The permission level of an ordinary player.
    pub default_permission_level: Option<u8>,
    /// The world directory.
    pub world_dir: Option<String>,
    /// Whether the dashboard starts.
    pub dashboard_enabled: Option<bool>,
    /// The dashboard address.
    pub dashboard_bind: Option<AddressText>,
    /// The access table.
    pub access: AccessConfig,
    /// The budget table.
    pub budget: PacketBudgetConfig,
    /// The world table.
    pub world: WorldConfig,
}

impl RawConfig {
    /// Whether nothing is set.
    pub open spec fn is_empty(self) -> bool {
        &&& self.bind is None
        &&& self.max_connections is None
        &&& self.io_timeout_secs is None
        &&& self.compression_threshold is None
        &&& self.view_distance is None
        &&& self.simulation_distance is None
        &&& self.spawn is None
        &&& self.spawn_chunk_radius is None
        &&& self.ticks_per_second is None
        &&& self.plugins_dir is None
        &&& self.builtin_plugins is None
        &&& self.spawn_protect_radius is None
        &&& self.spawn_protect_bypass is None
        &&& self.max_region_fill_volume is None
        &&& self.region_undo_history is None
        &&& self.keep_alive_interval_ms is None
        &&& self.chunk_stream_interval_ms is None
        &&& self.ops is None
        &&& self.default_permission_level is None
        &&& self.world_dir is None
        &&& self.dashboard_enabled is None
        &&& self.dashboard_bind is None
        &&& self.access.is_default()
        &&& self.budget.is_default()
        &&& self.world.anvil_import_dir is None
    }

    /// The error of the first address that does not parse.
    pub open spec fn address_fault(self) -> Option<ConfigError> {
        if self.bind matches Some(a) && a.parsed is Err {
            let a = self.bind->Some_0;
            Some(ConfigError::InvalidBind { text: a.text, reason: a.parsed->Err_0 })
        } else if self.dashboard_bind matches Some(a) && a.parsed is Err {
            let a = self.dashboard_bind->Some_0;
            Some(ConfigError::InvalidDashboardBind { text: a.text, reason: a.parsed->Err_0 })
        } else {
            None
        }
    }

    /// Whether `settings` are these settings laid over the defaults.
    ///
    /// A negative compression threshold disables compression, and a spawn-protection
    /// radius that is not positive disables protection.
    pub open spec fn merges_into(self, settings: Settings) -> bool {
        &&& self.address_fault() is None
        &&& match self.bind {
            Some(a) => settings.bind == a.parsed->Ok_0,
            None => settings.bind.ip == crate::config::IpAddress::V4(0x7f00_0001)
                && settings.bind.port == 25_565,
        }
        &&& settings.max_connections == override_or(self.max_connections, 256)
        &&& match self.io_timeout_secs {
            Some(secs) => settings.io_timeout == (TimeSpan { secs, nanos: 0 }),
            None => settings.io_timeout == (TimeSpan { secs: 30, nanos: 0 }),
        }
        &&& settings.compression_threshold == match self.compression_threshold {
            Some(t) => if t < 0 {
                None
            } else {
                Some(t)
            },
            None => None,
        }
        &&& settings.view_distance == override_or(self.view_distance, 10)
        &&& settings.simulation_distance == override_or(self.simulation_distance, 10)
        &&& settings.spawn == override_or(self.spawn, crate::config::default_spawn())
        &&& settings.spawn_chunk_radius == override_or(self.spawn_chunk_radius, 2)
        &&& settings.ticks_per_second == override_or(self.ticks_per_second, 20)
        &&& settings.plugins_dir == self.plugins_dir
        &&& settings.builtin_plugins == override_or(self.builtin_plugins, true)
        &&& settings.spawn_protect_radius == match self.spawn_protect_radius {
            Some(n) => if n < 0 {
                0
            } else {
                n
            },
            None => 0,
        }
        &&& match self.spawn_protect_bypass {
            Some(names) => settings.spawn_protect_bypass == names,
            None => settings.spawn_protect_bypass@ == Seq::<String>::empty(),
        }
        &&& settings.max_region_fill_volume == override_or(self.max_region_fill_volume, 32_768)
        &&& settings.region_undo_history == override_or(self.region_undo_history, 16)
        &&& settings.keep_alive_interval.as_nanos() == override_or(
            self.keep_alive_interval_ms,
            10_000,
        ) * 1_000_000
        &&& settings.chunk_stream_interval.as_nanos() == override_or(
            self.chunk_stream_interval_ms,
            50,
        ) * 1_000_000
        &&& match self.ops {
            Some(names) => settings.ops == names,
            None => settings.ops@ == Seq::<String>::empty(),
        }
        &&& settings.default_permission_level == override_or(self.default_permission_level, 0)
        &&& settings.world_dir == self.world_dir
        &&& settings.dashboard_enabled == override_or(self.dashboard_enabled, true)
        &&& match self.dashboard_bind {
            Some(a) => settings.dashboard_bind == a.parsed->Ok_0,
            None => settings.dashboard_bind.ip == crate::config::IpAddress::V4(0x7f00_0001)
                && settings.dashboard_bind.port == 9_090,
        }
        &&& settings.access == self.access
        &&& settings.budget == self.budget
        &&& settings.world == self.world
    }

    /// Lays these settings over the defaults and checks the result.
    pub fn into_config(self) -> (r: Result<AppConfig, ConfigError>)
        ensures
            match r {
                Ok(config) => self.merges_into(config.model()) && config.model().valid(),
                Err(error) => match self.address_fault() {
                    Some(fault) => error == fault,
                    None => exists|settings: Settings| #[trigger]
                        self.merges_into(settings) && settings.first_fault() == Some(error),
                },
            },
            self.address_fault() is Some ==> r is Err,
            forall|settings: Settings| #[trigger]
                self.merges_into(settings) ==> r is Ok == settings.valid(),
    {
        let defaults = Settings::default();
        let ghost raw = self;
        let bind = match self.bind {
            Some(address) => match address.parsed {
                Ok(parsed) => parsed,
                Err(reason) => {
                    return Err(ConfigError::InvalidBind { text: address.text, reason });
                },
            },
            None => defaults.bind,
        };
        let dashboard_bind = match self.dashboard_bind {
            Some(address) => match address.parsed {
                Ok(parsed) => parsed,
                Err(reason) => {
                    return Err(ConfigError::InvalidDashboardBind { text: address.text, reason });
                },
            },
            None => defaults.dashboard_bind,
        };
        let compression_threshold: Option<i32> = match self.compression_threshold {
            Some(threshold) => if threshold < 0 {
                None
            } else {
                Some(threshold)
            },
            None => defaults.compression_threshold,
        };
        let radius: i32 = self.spawn_protect_radius.unwrap_or(defaults.spawn_protect_radius);
        let candidate = Settings {
            bind,
            max_connections: self.max_connections.unwrap_or(defaults.max_connections),
            io_timeout: match self.io_timeout_secs {
                Some(secs) => TimeSpan::from_secs(secs),
                None => defaults.io_timeout,
            },
            compression_threshold,
            view_distance: self.view_distance.unwrap_or(defaults.view_distance),
            simulation_distance: self.simulation_distance.unwrap_or(defaults.simulation_distance),
            spawn: self.spawn.unwrap_or(defaults.spawn),
            spawn_chunk_radius: self.spawn_chunk_radius.unwrap_or(defaults.spawn_chunk_radius),
            ticks_per_second: self.ticks_per_second.unwrap_or(defaults.ticks_per_second),
            plugins_dir: self.plugins_dir,
            builtin_plugins: self.builtin_plugins.unwrap_or(defaults.builtin_plugins),
            spawn_protect_radius: if radius < 0 {
                0
            } else {
                radius
            },
            spawn_protect_bypass: self.spawn_protect_bypass.unwrap_or(
                defaults.spawn_protect_bypass,
            ),
            max_region_fill_volume: self.max_region_fill_volume.unwrap_or(
                defaults.max_region_fill_volume,
            ),
            region_undo_history: self.region_undo_history.unwrap_or(defaults.region_undo_history),
            keep_alive_interval: match self.keep_alive_interval_ms {
                Some(millis) => TimeSpan::from_millis(millis),
                None => defaults.keep_alive_interval,
            },
            chunk_stream_interval: match self.chunk_stream_interval_ms {
                Some(millis) => TimeSpan::from_millis(millis),
                None => defaults.chunk_stream_interval,
            },
            ops: self.ops.unwrap_or(defaults.ops),
            default_permission_level: self.default_permission_level.unwrap_or(
                defaults.default_permission_level,
            ),
            world_dir: self.world_dir,
            dashboard_enabled: self.dashboard_enabled.unwrap_or(defaults.dashboard_enabled),
            dashboard_bind,
            access: self.access,
            budget: self.budget,
            world: self.world,
        };
        assert(raw.merges_into(candidate));
        AppConfig::new(candidate)
    }
}

/// A given value, or the default where none is given.
pub open spec fn override_or<T>(given: Option<T>, default: T) -> T {
    match given {
        Some(value) => value,
        None => default,
    }
}

/// A document that sets nothing gives the defaults, which satisfy every limit.
pub proof fn empty_document_means_defaults(raw: RawConfig, settings: Settings)
    requires
        raw.is_empty(),
        raw.merges_into(settings),
    ensures
        settings.is_default(),
        settings.valid(),
{
    defaults_are_valid(settings);
}

/// An explicit port always wins, whatever address it refines; an explicit address
/// replaces the configured one; and the server always has a world directory.
pub proof fn command_line_wins(
    settings: Settings,
    bind: Option<SocketAddress>,
    port: Option<u16>,
    default_world_dir: String,
)
    ensures
        ({
            let applied = runtime_settings(settings, bind, port, default_world_dir);
            &&& port matches Some(p) ==> applied.bind.port == p
            &&& bind matches Some(address) ==> applied.bind.ip == address.ip && (port is None
                ==> applied.bind.port == address.port)
            &&& bind is None && port is None ==> applied.bind == settings.bind
            &&& applied.world_dir is Some
            &&& settings.valid() ==> applied.valid()
        }),
{
}

/// A document decides exactly what it names: every value that it gives becomes the setting of
/// that name, and every other setting is the default's. A negative threshold means no
/// compression, and a negative radius no protection.
pub proof fn documents_decide_what_they_name(raw: RawConfig, settings: Settings, default: Settings)
    requires
        raw.merges_into(settings),
        default.is_default(),
    ensures
        raw.bind matches Some(a) ==> a.parsed == Ok::<SocketAddress, String>(settings.bind),
        raw.bind is None ==> settings.bind == default.bind,
        raw.dashboard_bind matches Some(a) ==> a.parsed == Ok::<SocketAddress, String>(
            settings.dashboard_bind,
        ),
        raw.dashboard_bind is None ==> settings.dashboard_bind == default.dashboard_bind,
        raw.max_connections is Some ==> raw.max_connections == Some(settings.max_connections),
        raw.max_connections is None ==> settings.max_connections == default.max_connections,
        raw.io_timeout_secs matches Some(secs) ==> settings.io_timeout.as_nanos() == secs
            * 1_000_000_000,
        raw.io_timeout_secs is None ==> settings.io_timeout == default.io_timeout,
        raw.compression_threshold matches Some(t) ==> settings.compression_threshold == if t >= 0 {
            Some(t)
        } else {
            None
        },
        raw.compression_threshold is None ==> settings.compression_threshold is None,
        raw.view_distance is Some ==> raw.view_distance == Some(settings.view_distance),
        raw.view_distance is None ==> settings.view_distance == default.view_distance,
        raw.simulation_distance is Some ==> raw.simulation_distance == Some(
            settings.simulation_distance,
        ),
        raw.simulation_distance is None ==> settings.simulation_distance
            == default.simulation_distance,
        raw.spawn is Some ==> raw.spawn == Some(settings.spawn),
        raw.spawn is None ==> settings.spawn == default.spawn,
        raw.spawn_chunk_radius is Some ==> raw.spawn_chunk_radius == Some(
            settings.spawn_chunk_radius,
        ),
        raw.spawn_chunk_radius is None ==> settings.spawn_chunk_radius
            == default.spawn_chunk_radius,
        raw.ticks_per_second is Some ==> raw.ticks_per_second == Some(settings.ticks_per_second),
        raw.ticks_per_second is None ==> settings.ticks_per_second == default.ticks_per_second,
        raw.plugins_dir == settings.plugins_dir,
        raw.builtin_plugins is Some ==> raw.builtin_plugins == Some(settings.builtin_plugins),
        raw.builtin_plugins is None ==> settings.builtin_plugins == default.builtin_plugins,
        raw.spawn_protect_radius matches Some(n) ==> settings.spawn_protect_radius == if n > 0 {
            n as int
        } else {
            0
        },
        raw.spawn_protect_radius is None ==> settings.spawn_protect_radius == 0,
        raw.spawn_protect_bypass is Some ==> raw.spawn_protect_bypass == Some(
            settings.spawn_protect_bypass,
        ),
        raw.spawn_protect_bypass is None ==> settings.spawn_protect_bypass@.len() == 0,
        raw.max_region_fill_volume is Some ==> raw.max_region_fill_volume == Some(
            settings.max_region_fill_volume,
        ),
        raw.max_region_fill_volume is None ==> settings.max_region_fill_volume
            == default.max_region_fill_volume,
        raw.region_undo_history is Some ==> raw.region_undo_history == Some(
            settings.region_undo_history,
        ),
        raw.region_undo_history is None ==> settings.region_undo_history
            == default.region_undo_history,
        raw.keep_alive_interval_ms matches Some(ms) ==> settings.keep_alive_interval.as_nanos()
            == ms * 1_000_000,
        raw.keep_alive_interval_ms is None ==> settings.keep_alive_interval.as_nanos()
            == default.keep_alive_interval.as_nanos(),
        raw.chunk_stream_interval_ms matches Some(ms) ==> settings.chunk_stream_interval.as_nanos()
            == ms * 1_000_000,
        raw.chunk_stream_interval_ms is None ==> settings.chunk_stream_interval.as_nanos()
            == default.chunk_stream_interval.as_nanos(),
        raw.ops is Some ==> raw.ops == Some(settings.ops),
        raw.ops is None ==> settings.ops@.len() == 0,
        raw.default_permission_level is Some ==> raw.default_permission_level == Some(
            settings.default_permission_level,
        ),
        raw.default_permission_level is None ==> settings.default_permission_level
            == default.default_permission_level,
        raw.world_dir == settings.world_dir,
        raw.dashboard_enabled is Some ==> raw.dashboard_enabled == Some(settings.dashboard_enabled),
        raw.dashboard_enabled is None ==> settings.dashboard_enabled == default.dashboard_enabled,
        raw.access == settings.access,
        raw.budget == settings.budget,
        raw.world == settings.world,
{
}

/// An address that does not parse is refused with its own text and reason, the listen address
/// before the dashboard's; where both parse, none is.
pub proof fn bad_addresses_are_named(raw: RawConfig)
    ensures
        match raw.address_fault() {
            Some(ConfigError::InvalidBind { text, reason }) => raw.bind matches Some(a) && a.text
                == text && a.parsed == Err::<SocketAddress, String>(reason),
            Some(ConfigError::InvalidDashboardBind { text, reason }) => {
                &&& raw.dashboard_bind matches Some(a)
                &&& a.text == text && a.parsed == Err::<SocketAddress, String>(reason)
                &&& raw.bind matches Some(b) ==> b.parsed is Ok
            },
            Some(_) => false,
            None => {
                &&& raw.bind matches Some(a) ==> a.parsed is Ok
                &&& raw.dashboard_bind matches Some(a) ==> a.parsed is Ok
            },
        },
{
}

/// The command line changes the listen address and nothing else but a missing world
/// directory: a directory that is configured stays, and every other setting is kept.
pub proof fn command_line_keeps_the_rest(
    settings: Settings,
    bind: Option<SocketAddress>,
    port: Option<u16>,
    default_world_dir: String,
)
    ensures
        ({
            let applied = runtime_settings(settings, bind, port, default_world_dir);
            &&& settings.world_dir is Some ==> applied.world_dir == settings.world_dir
            &&& settings.world_dir is None ==> applied.world_dir == Some(default_world_dir)
            &&& bind is None ==> applied.bind.ip == settings.bind.ip
            &&& (Settings { bind: settings.bind, world_dir: settings.world_dir, ..applied })
                == settings
        }),
{
}

} // verus!
