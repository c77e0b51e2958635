//! The server configuration: its values, their defaults, the ranges they must lie
//! in, and the merge of optional settings over the defaults.
//!
//! [`Settings`] is any assignment of values. [`AppConfig`] is an assignment that
//! satisfies every limit: it can only be had through the functions here, so a
//! holder of one knows the limits hold.

use crate::ieee754::{double_unit, integer_pattern, Double};
use crate::math::Vec3;
use crate::text::{append_decimal, append_signed, decimal, signed_decimal};
use crate::time_span::TimeSpan;
use vstd::arithmetic::power2::{
    lemma2_to64, lemma2_to64_rest, lemma_pow2_adds, lemma_pow2_pos, lemma_pow2_strictly_increases, pow2,
};
use vstd::prelude::*;
use vstd::string::StringExecFns;

verus! {

/// Largest supported concurrent-connection ceiling.
pub const MAX_CONNECTIONS: usize = 1_024;

/// Longest per-operation socket timeout accepted at startup, in seconds.
pub const MAX_IO_TIMEOUT_SECS: u64 = 300;

/// Largest compression threshold accepted by the largest configured frame cap.
pub const MAX_COMPRESSION_THRESHOLD: i32 = 2_097_152;

/// Largest advertised view or simulation distance supported by the streamer.
pub const MAX_PLAY_DISTANCE: i32 = 32;

/// Horizontal world-coordinate boundary used by movement and routing.
pub const MAX_HORIZONTAL_COORDINATE: i32 = 30_000_000;

/// Lowest valid overworld spawn Y.
pub const MIN_SPAWN_Y: i32 = -64;

/// Highest valid overworld spawn Y.
pub const MAX_SPAWN_Y: i32 = 319;

/// Largest resident spawn radius.
pub const MAX_SPAWN_CHUNK_RADIUS: u8 = 8;

/// The most chunks that the resident spawn square may hold.
pub const MAX_SPAWN_CHUNKS: u64 = 289;

/// Fastest supported simulation rate.
pub const MAX_TICKS_PER_SECOND: u32 = 1_000;

/// Largest meaningful spawn-protection radius.
pub const MAX_SPAWN_PROTECT_RADIUS: i32 = 30_000_000;

/// Largest single region edit an operator may retain for undo.
pub const MAX_REGION_FILL_VOLUME: u64 = 1_000_000;

/// Largest number of region undo entries retained per player.
pub const MAX_REGION_UNDO_HISTORY: usize = 64;

/// Combined prior-state ceiling retained by region undo history per player.
pub const MAX_RETAINED_REGION_CELLS: u64 = 1_048_576;

/// Shortest accepted keep-alive cadence, in milliseconds.
pub const MIN_KEEP_ALIVE_INTERVAL_MS: u64 = 100;

/// Longest accepted keep-alive cadence, in milliseconds.
pub const MAX_KEEP_ALIVE_INTERVAL_MS: u64 = 15_000;

/// Shortest accepted chunk-stream pump cadence, in milliseconds.
pub const MIN_CHUNK_STREAM_INTERVAL_MS: u64 = 10;

/// Longest accepted chunk-stream pump cadence, in milliseconds.
pub const MAX_CHUNK_STREAM_INTERVAL_MS: u64 = 60_000;

/// Highest permission tier.
pub const MAX_PERMISSION_LEVEL: u8 = 4;

/// Smallest packet rate and burst that still admit one complete frame.
pub const MIN_PACKET_BUDGET: i32 = 1;

/// Largest sustained packet rate, in frames per second.
pub const MAX_PACKET_RATE: i32 = 10_000;

/// Largest packet burst, in frames.
pub const MAX_PACKET_BURST: i32 = 20_000;

/// Server-wide sustained packet-work ceiling, in frames per second.
pub const MAX_GLOBAL_PACKET_RATE: u32 = 100_000;

/// Server-wide immediate packet-work ceiling, in frames.
pub const MAX_GLOBAL_PACKET_BURST: u32 = 200_000;

/// Maximum potential per-player view slots across the configured connection cap.
pub const MAX_TOTAL_VIEW_SLOTS: u64 = 1_100_000;

/// Maximum full-view scans the stream pump may request each second.
pub const MAX_VIEW_SCAN_UNITS_PER_SECOND: u64 = 3_000_000;

/// An IP address.
#[derive(Clone, Copy, Debug, PartialEq, Eq, Structural)]
pub enum IpAddress {
    /// A version 4 address, its first byte the most significant.
    V4(u32),
    /// A version 6 address with its flow label and scope.
    V6 {
        /// The address, its first byte the most significant.
        address: u128,
        /// The flow information.
        flow_info: u32,
        /// The scope identifier.
        scope_id: u32,
    },
}

/// An IP address and a port.
#[derive(Clone, Copy, Debug, PartialEq, Eq, Structural)]
pub struct SocketAddress {
    /// The address.
    pub ip: IpAddress,
    /// The port.
    pub port: u16,
}

/// A socket address as written, and what it reads as.
#[derive(Debug)]
pub struct AddressText {
    /// The text as written.
    pub text: String,
    /// The address the text denotes, or why it denotes none.
    pub parsed: Result<SocketAddress, String>,
}

/// Access control for a public-facing server.
#[derive(Debug, PartialEq, Eq)]
pub struct AccessConfig {
    /// Most simultaneous connections from one address; zero for no limit.
    pub per_ip_connection_limit: usize,
    /// Whether only listed players may join.
    pub whitelist_enabled: bool,
    /// The players who may join a whitelisted server.
    pub whitelist: Vec<String>,
    /// Banned player names and addresses.
    pub bans: Vec<String>,
}

impl AccessConfig {
    /// Whether this is the open default: three connections per address, no
    /// whitelist, no bans.
    pub open spec fn is_default(self) -> bool {
        &&& self.per_ip_connection_limit == 3
        &&& !self.whitelist_enabled
        &&& self.whitelist@ == Seq::<String>::empty()
        &&& self.bans@ == Seq::<String>::empty()
    }
}

impl Default for AccessConfig {
    fn default() -> (r: AccessConfig)
        ensures
            r.is_default(),
    {
        AccessConfig {
            per_ip_connection_limit: 3,
            whitelist_enabled: false,
            whitelist: Vec::new(),
            bans: Vec::new(),
        }
    }
}

/// Per-connection serverbound packet budget.
#[derive(Clone, Copy, Debug, PartialEq, Eq, Structural)]
pub struct PacketBudgetConfig {
    /// Frames per second that a connection may keep up.
    pub sustained_rate: Double,
    /// Frames that a connection may send at once.
    pub burst: Double,
}

impl PacketBudgetConfig {
    /// Whether this is the default of three hundred frames a second over a burst of
    /// six hundred.
    pub open spec fn is_default(self) -> bool {
        self.sustained_rate.bits == 0x4072_c000_0000_0000 && self.burst.bits
            == 0x4082_c000_0000_0000
    }
}

impl Default for PacketBudgetConfig {
    fn default() -> (r: PacketBudgetConfig)
        ensures
            r.is_default(),
    {
        PacketBudgetConfig {
            sustained_rate: Double { bits: 0x4072_c000_0000_0000 },
            burst: Double { bits: 0x4082_c000_0000_0000 },
        }
    }
}

/// The source of the world's initial terrain.
#[derive(Debug, PartialEq, Eq)]
pub struct WorldConfig {
    /// A directory of Anvil region files to take over at startup.
    pub anvil_import_dir: Option<String>,
}

impl Default for WorldConfig {
    fn default() -> (r: WorldConfig)
        ensures
            r.anvil_import_dir is None,
    {
        WorldConfig { anvil_import_dir: None }
    }
}

/// An axis of a point.
#[derive(Clone, Copy, Debug, PartialEq, Eq, Structural)]
pub enum Axis {
    /// East.
    X,
    /// Up.
    Y,
    /// South.
    Z,
}

/// An assignment of values to the configuration, within its limits or not.
#[derive(Debug, PartialEq)]
pub struct Settings {
    /// The socket address the TCP listener binds to.
    pub bind: SocketAddress,
    /// The ceiling on simultaneously accepted connections.
    pub max_connections: usize,
    /// The deadline applied to each socket read and write.
    pub io_timeout: TimeSpan,
    /// The packet-compression threshold in bytes, or `None` to leave compression
    /// disabled.
    pub compression_threshold: Option<i32>,
    /// The play view distance advertised to clients, in chunks.
    pub view_distance: i32,
    /// The play simulation distance advertised to clients, in chunks.
    pub simulation_distance: i32,
    /// The world-spawn position players join at.
    pub spawn: Vec3,
    /// The radius, in chunks, of the spawn area kept resident.
    pub spawn_chunk_radius: u8,
    /// The simulation tick rate, in ticks per second.
    pub ticks_per_second: u32,
    /// Directory containing plugin bundles, or `None` to load none.
    pub plugins_dir: Option<String>,
    /// Whether the built-in plugin set is registered.
    pub builtin_plugins: bool,
    /// Spawn-protection radius, in blocks; zero disables spawn protection.
    pub spawn_protect_radius: i32,
    /// Names of players granted the spawn-protection bypass.
    pub spawn_protect_bypass: Vec<String>,
    /// Maximum number of blocks a single region edit may affect.
    pub max_region_fill_volume: u64,
    /// Number of undoable region edits retained per player.
    pub region_undo_history: usize,
    /// Interval between clientbound keep-alive pings.
    pub keep_alive_interval: TimeSpan,
    /// How often a player's view is pumped toward the full view distance.
    pub chunk_stream_interval: TimeSpan,
    /// Names of players granted operator status.
    pub ops: Vec<String>,
    /// Permission level granted to a player who is not an operator.
    pub default_permission_level: u8,
    /// Where the persistent world lives, or `None` to keep it in memory.
    pub world_dir: Option<String>,
    /// Whether the read-only dashboard starts alongside the server.
    pub dashboard_enabled: bool,
    /// The socket address the read-only dashboard binds to.
    pub dashboard_bind: SocketAddress,
    /// Access control.
    pub access: AccessConfig,
    /// Per-connection serverbound packet budget.
    pub budget: PacketBudgetConfig,
    /// The source of the world's initial terrain.
    pub world: WorldConfig,
}

/// Why a configuration is refused.
#[derive(Debug)]
pub enum ConfigError {
    /// The listen address does not parse.
    InvalidBind {
        /// The text as written.
        text: String,
        /// Why it denotes no address.
        reason: String,
    },
    /// The dashboard address does not parse.
    InvalidDashboardBind {
        /// The text as written.
        text: String,
        /// Why it denotes no address.
        reason: String,
    },
    /// The connection ceiling is out of range.
    MaxConnections(usize),
    /// The socket timeout is out of range.
    IoTimeout(TimeSpan),
    /// The compression threshold is out of range.
    CompressionThreshold(i32),
    /// The view distance is out of range.
    ViewDistance(i32),
    /// The simulation distance is out of range.
    SimulationDistance(i32),
    /// A spawn coordinate is not finite or out of range.
    Spawn(Axis, Double),
    /// The resident spawn radius is out of range.
    SpawnChunkRadius(u8),
    /// The tick rate is out of range.
    TicksPerSecond(u32),
    /// The tick rate leaves no representable, non-zero tick.
    TickPeriod(u32),
    /// The spawn-protection radius is out of range.
    SpawnProtectRadius(i32),
    /// The region volume is out of range.
    MaxRegionFillVolume(u64),
    /// The undo history is out of range.
    RegionUndoHistory(usize),
    /// The undo history retains too many cells.
    RetainedRegionCells(u64),
    /// The keep-alive interval is out of range.
    KeepAliveInterval(TimeSpan),
    /// The chunk-stream interval is out of range.
    ChunkStreamInterval(TimeSpan),
    /// The default permission level is out of range.
    DefaultPermissionLevel(u8),
    /// The connection limit of one address exceeds that of the server.
    PerIpConnectionLimit {
        /// The connection ceiling.
        max_connections: usize,
        /// The limit of one address.
        limit: usize,
    },
    /// The sustained packet rate is not a positive number.
    UnusableRate(Double),
    /// The packet burst is not a number or below the sustained rate.
    UnusableBurst(Double),
    /// The sustained packet rate is out of range.
    SustainedRate(Double),
    /// The packet burst is out of range.
    Burst(Double),
    /// All connections together, counted first, may send too many frames per second.
    GlobalPacketRate(usize, Double),
    /// All connections together, counted first, may send too many frames at once.
    GlobalPacketBurst(usize, Double),
    /// All connections together may hold too many view slots.
    ViewSlots {
        /// The connection ceiling.
        max_connections: usize,
        /// The slots of one view.
        view_area: u64,
        /// The slots of all views.
        view_slots: u64,
    },
    /// All connections together may scan too many view slots per second.
    ViewScans(u64),
}

/// The chunks in a square that reaches `radius` chunks from its centre.
pub open spec fn square_area(radius: int) -> int {
    (2 * radius + 1) * (2 * radius + 1)
}

/// The smallest integer not below a quotient of natural numbers.
pub open spec fn ceiling_quotient(numerator: int, denominator: int) -> int {
    (numerator + denominator - 1) / denominator
}

impl PacketBudgetConfig {
    /// Whether the rate is a positive number and the burst a number not below it.
    pub open spec fn sound(self) -> bool {
        &&& self.sustained_rate.finite()
        &&& self.sustained_rate.numerator() > 0
        &&& self.burst.finite()
        &&& self.burst.numerator() >= self.sustained_rate.numerator()
    }
}

/// Checks one spawn coordinate against its range.
fn validate_spawn_axis(axis: Axis, value: Double, low: i32, high: i32) -> (r: Result<
    (),
    ConfigError,
>)
    ensures
        r == if value.within(low as int, high as int) {
            Ok::<(), ConfigError>(())
        } else {
            Err(ConfigError::Spawn(axis, value))
        },
{
    if value.is_within(low, high) {
        Ok(())
    } else {
        Err(ConfigError::Spawn(axis, value))
    }
}

impl Settings {
    /// The slots of one player's view.
    pub open spec fn view_area(self) -> int {
        square_area(self.view_distance as int)
    }

    /// The view slots of all players together.
    pub open spec fn view_slots(self) -> int {
        self.max_connections * self.view_area()
    }

    /// The view slots scanned per second for all players together.
    pub open spec fn view_scans(self) -> int {
        ceiling_quotient(self.view_slots() * 1_000, self.chunk_stream_interval.millis())
    }

    /// Whether a length of time lies in a range of milliseconds.
    pub open spec fn span_within(span: TimeSpan, low_ms: int, high_ms: int) -> bool {
        low_ms * 1_000_000 <= span.as_nanos() <= high_ms * 1_000_000
    }

    /// Whether each limit of the configuration holds.
    pub open spec fn valid(self) -> bool {
        &&& 1 <= self.max_connections <= MAX_CONNECTIONS
        &&& Self::span_within(self.io_timeout, 1_000, MAX_IO_TIMEOUT_SECS * 1_000)
        &&& self.compression_threshold matches Some(t) ==> 0 <= t <= MAX_COMPRESSION_THRESHOLD
        &&& 0 <= self.view_distance <= MAX_PLAY_DISTANCE
        &&& 0 <= self.simulation_distance <= MAX_PLAY_DISTANCE
        &&& self.spawn.x.within(-MAX_HORIZONTAL_COORDINATE as int, MAX_HORIZONTAL_COORDINATE as int)
        &&& self.spawn.y.within(MIN_SPAWN_Y as int, MAX_SPAWN_Y as int)
        &&& self.spawn.z.within(-MAX_HORIZONTAL_COORDINATE as int, MAX_HORIZONTAL_COORDINATE as int)
        &&& self.spawn_chunk_radius <= MAX_SPAWN_CHUNK_RADIUS
        &&& 1 <= self.ticks_per_second <= MAX_TICKS_PER_SECOND
        &&& 0 <= self.spawn_protect_radius <= MAX_SPAWN_PROTECT_RADIUS
        &&& self.max_region_fill_volume <= MAX_REGION_FILL_VOLUME
        &&& self.region_undo_history <= MAX_REGION_UNDO_HISTORY
        &&& self.max_region_fill_volume * self.region_undo_history <= MAX_RETAINED_REGION_CELLS
        &&& Self::span_within(
            self.keep_alive_interval,
            MIN_KEEP_ALIVE_INTERVAL_MS as int,
            MAX_KEEP_ALIVE_INTERVAL_MS as int,
        )
        &&& Self::span_within(
            self.chunk_stream_interval,
            MIN_CHUNK_STREAM_INTERVAL_MS as int,
            MAX_CHUNK_STREAM_INTERVAL_MS as int,
        )
        &&& self.default_permission_level <= MAX_PERMISSION_LEVEL
        &&& self.access.per_ip_connection_limit <= self.max_connections
        &&& self.budget.sound()
        &&& self.budget.sustained_rate.within(MIN_PACKET_BUDGET as int, MAX_PACKET_RATE as int)
        &&& self.budget.burst.within(MIN_PACKET_BUDGET as int, MAX_PACKET_BURST as int)
        &&& self.budget.sustained_rate.rounded_product_within(
            self.max_connections as int,
            MAX_GLOBAL_PACKET_RATE as int,
            15,
        )
        &&& self.budget.burst.rounded_product_within(
            self.max_connections as int,
            MAX_GLOBAL_PACKET_BURST as int,
            16,
        )
        &&& self.view_slots() <= MAX_TOTAL_VIEW_SLOTS
        &&& self.view_scans() <= MAX_VIEW_SCAN_UNITS_PER_SECOND
    }

    /// The first limit that does not hold, in the order in which they are checked.
    pub open spec fn first_fault(self) -> Option<ConfigError> {
        if !(1 <= self.max_connections <= MAX_CONNECTIONS) {
            Some(ConfigError::MaxConnections(self.max_connections))
        } else if !Self::span_within(self.io_timeout, 1_000, MAX_IO_TIMEOUT_SECS * 1_000) {
            Some(ConfigError::IoTimeout(self.io_timeout))
        } else if self.compression_threshold matches Some(t) && !(0 <= t
            <= MAX_COMPRESSION_THRESHOLD) {
            Some(ConfigError::CompressionThreshold(self.compression_threshold->Some_0))
        } else if !(0 <= self.view_distance <= MAX_PLAY_DISTANCE) {
            Some(ConfigError::ViewDistance(self.view_distance))
        } else if !(0 <= self.simulation_distance <= MAX_PLAY_DISTANCE) {
            Some(ConfigError::SimulationDistance(self.simulation_distance))
        } else if !self.spawn.x.within(
            -MAX_HORIZONTAL_COORDINATE as int,
            MAX_HORIZONTAL_COORDINATE as int,
        ) {
            Some(ConfigError::Spawn(Axis::X, self.spawn.x))
        } else if !self.spawn.y.within(MIN_SPAWN_Y as int, MAX_SPAWN_Y as int) {
            Some(ConfigError::Spawn(Axis::Y, self.spawn.y))
        } else if !self.spawn.z.within(
            -MAX_HORIZONTAL_COORDINATE as int,
            MAX_HORIZONTAL_COORDINATE as int,
        ) {
            Some(ConfigError::Spawn(Axis::Z, self.spawn.z))
        } else if self.spawn_chunk_radius > MAX_SPAWN_CHUNK_RADIUS {
            Some(ConfigError::SpawnChunkRadius(self.spawn_chunk_radius))
        } else if !(1 <= self.ticks_per_second <= MAX_TICKS_PER_SECOND) {
            Some(ConfigError::TicksPerSecond(self.ticks_per_second))
        } else if !(0 <= self.spawn_protect_radius <= MAX_SPAWN_PROTECT_RADIUS) {
            Some(ConfigError::SpawnProtectRadius(self.spawn_protect_radius))
        } else if self.max_region_fill_volume > MAX_REGION_FILL_VOLUME {
            Some(ConfigError::MaxRegionFillVolume(self.max_region_fill_volume))
        } else if self.region_undo_history > MAX_REGION_UNDO_HISTORY {
            Some(ConfigError::RegionUndoHistory(self.region_undo_history))
        } else if self.max_region_fill_volume * self.region_undo_history
            > MAX_RETAINED_REGION_CELLS {
            Some(
                ConfigError::RetainedRegionCells(
                    (self.max_region_fill_volume * self.region_undo_history) as u64,
                ),
            )
        } else if !Self::span_within(
            self.keep_alive_interval,
            MIN_KEEP_ALIVE_INTERVAL_MS as int,
            MAX_KEEP_ALIVE_INTERVAL_MS as int,
        ) {
            Some(ConfigError::KeepAliveInterval(self.keep_alive_interval))
        } else if !Self::span_within(
            self.chunk_stream_interval,
            MIN_CHUNK_STREAM_INTERVAL_MS as int,
            MAX_CHUNK_STREAM_INTERVAL_MS as int,
        ) {
            Some(ConfigError::ChunkStreamInterval(self.chunk_stream_interval))
        } else if self.default_permission_level > MAX_PERMISSION_LEVEL {
            Some(ConfigError::DefaultPermissionLevel(self.default_permission_level))
        } else if self.access.per_ip_connection_limit > self.max_connections {
            Some(
                ConfigError::PerIpConnectionLimit {
                    max_connections: self.max_connections,
                    limit: self.access.per_ip_connection_limit,
                },
            )
        } else {
            self.budget_fault()
        }
    }

    /// The first limit on packet and view work that does not hold.
    pub open spec fn budget_fault(self) -> Option<ConfigError> {
        let rate = self.budget.sustained_rate;
        let burst = self.budget.burst;
        if !rate.finite() || rate.numerator() <= 0 {
            Some(ConfigError::UnusableRate(rate))
        } else if !burst.finite() || burst.numerator() < rate.numerator() {
            Some(ConfigError::UnusableBurst(burst))
        } else if !rate.within(MIN_PACKET_BUDGET as int, MAX_PACKET_RATE as int) {
            Some(ConfigError::SustainedRate(rate))
        } else if !burst.within(MIN_PACKET_BUDGET as int, MAX_PACKET_BURST as int) {
            Some(ConfigError::Burst(burst))
        } else if !rate.rounded_product_within(
            self.max_connections as int,
            MAX_GLOBAL_PACKET_RATE as int,
            15,
        ) {
            Some(ConfigError::GlobalPacketRate(self.max_connections, rate))
        } else if !burst.rounded_product_within(
            self.max_connections as int,
            MAX_GLOBAL_PACKET_BURST as int,
            16,
        ) {
            Some(ConfigError::GlobalPacketBurst(self.max_connections, burst))
        } else if self.view_slots() > MAX_TOTAL_VIEW_SLOTS {
            Some(
                ConfigError::ViewSlots {
                    max_connections: self.max_connections,
                    view_area: self.view_area() as u64,
                    view_slots: self.view_slots() as u64,
                },
            )
        } else if self.view_scans() > MAX_VIEW_SCAN_UNITS_PER_SECOND {
            Some(ConfigError::ViewScans(self.view_scans() as u64))
        } else {
            None
        }
    }

    /// Checks every limit, in order, and names the first that does not hold.
    pub fn validate(&self) -> (r: Result<(), ConfigError>)
        ensures
            r == match self.first_fault() {
                Some(fault) => Err(fault),
                None => Ok(()),
            },
            r is Ok == self.valid(),
    {
        if self.max_connections < 1 || self.max_connections > MAX_CONNECTIONS {
            return Err(ConfigError::MaxConnections(self.max_connections));
        }
        if !TimeSpan::from_secs(1).at_most(self.io_timeout) || !self.io_timeout.at_most(
            TimeSpan::from_secs(MAX_IO_TIMEOUT_SECS),
        ) {
            return Err(ConfigError::IoTimeout(self.io_timeout));
        }
        if let Some(threshold) = self.compression_threshold {
            if threshold < 0 || threshold > MAX_COMPRESSION_THRESHOLD {
                return Err(ConfigError::CompressionThreshold(threshold));
            }
        }
        if self.view_distance < 0 || self.view_distance > MAX_PLAY_DISTANCE {
            return Err(ConfigError::ViewDistance(self.view_distance));
        }
        if self.simulation_distance < 0 || self.simulation_distance > MAX_PLAY_DISTANCE {
            return Err(ConfigError::SimulationDistance(self.simulation_distance));
        }
        validate_spawn_axis(
            Axis::X,
            self.spawn.x,
            -MAX_HORIZONTAL_COORDINATE,
            MAX_HORIZONTAL_COORDINATE,
        )?;
        validate_spawn_axis(Axis::Y, self.spawn.y, MIN_SPAWN_Y, MAX_SPAWN_Y)?;
        validate_spawn_axis(
            Axis::Z,
            self.spawn.z,
            -MAX_HORIZONTAL_COORDINATE,
            MAX_HORIZONTAL_COORDINATE,
        )?;
        if self.spawn_chunk_radius > MAX_SPAWN_CHUNK_RADIUS {
            return Err(ConfigError::SpawnChunkRadius(self.spawn_chunk_radius));
        }
        if self.ticks_per_second < 1 || self.ticks_per_second > MAX_TICKS_PER_SECOND {
            return Err(ConfigError::TicksPerSecond(self.ticks_per_second));
        }
        if self.spawn_protect_radius < 0 || self.spawn_protect_radius > MAX_SPAWN_PROTECT_RADIUS {
            return Err(ConfigError::SpawnProtectRadius(self.spawn_protect_radius));
        }
        if self.max_region_fill_volume > MAX_REGION_FILL_VOLUME {
            return Err(ConfigError::MaxRegionFillVolume(self.max_region_fill_volume));
        }
        if self.region_undo_history > MAX_REGION_UNDO_HISTORY {
            return Err(ConfigError::RegionUndoHistory(self.region_undo_history));
        }
        proof {
            let volume = self.max_region_fill_volume as int;
            let history = self.region_undo_history as int;
            assert(0 <= volume * history <= 64_000_000) by (nonlinear_arith)
                requires
                    0 <= volume <= 1_000_000,
                    0 <= history <= 64,
            ;
        }
        let retained_cells: u64 = self.max_region_fill_volume * (self.region_undo_history as u64);
        if retained_cells > MAX_RETAINED_REGION_CELLS {
            return Err(ConfigError::RetainedRegionCells(retained_cells));
        }
        if !TimeSpan::from_millis(MIN_KEEP_ALIVE_INTERVAL_MS).at_most(self.keep_alive_interval)
            || !self.keep_alive_interval.at_most(TimeSpan::from_millis(MAX_KEEP_ALIVE_INTERVAL_MS)) {
            return Err(ConfigError::KeepAliveInterval(self.keep_alive_interval));
        }
        if !TimeSpan::from_millis(MIN_CHUNK_STREAM_INTERVAL_MS).at_most(self.chunk_stream_interval)
            || !self.chunk_stream_interval.at_most(
            TimeSpan::from_millis(MAX_CHUNK_STREAM_INTERVAL_MS),
        ) {
            return Err(ConfigError::ChunkStreamInterval(self.chunk_stream_interval));
        }
        if self.default_permission_level > MAX_PERMISSION_LEVEL {
            return Err(ConfigError::DefaultPermissionLevel(self.default_permission_level));
        }
        if self.access.per_ip_connection_limit > self.max_connections {
            return Err(
                ConfigError::PerIpConnectionLimit {
                    max_connections: self.max_connections,
                    limit: self.access.per_ip_connection_limit,
                },
            );
        }
        self.validate_budget()
    }

    fn validate_budget(&self) -> (r: Result<(), ConfigError>)
        requires
            1 <= self.max_connections <= MAX_CONNECTIONS,
            0 <= self.view_distance <= MAX_PLAY_DISTANCE,
            Self::span_within(
                self.chunk_stream_interval,
                MIN_CHUNK_STREAM_INTERVAL_MS as int,
                MAX_CHUNK_STREAM_INTERVAL_MS as int,
            ),
        ensures
            r == match self.budget_fault() {
                Some(fault) => Err(fault),
                None => Ok(()),
            },
    {
        let rate = self.budget.sustained_rate;
        let burst = self.budget.burst;
        proof {
            zero_is_zero();
        }
        let zero = Double { bits: 0 };
        if !rate.is_finite() || rate.at_most(zero) {
            return Err(ConfigError::UnusableRate(rate));
        }
        if !burst.is_finite() || !rate.at_most(burst) {
            return Err(ConfigError::UnusableBurst(burst));
        }
        if !rate.is_within(MIN_PACKET_BUDGET, MAX_PACKET_RATE) {
            return Err(ConfigError::SustainedRate(rate));
        }
        if !burst.is_within(MIN_PACKET_BUDGET, MAX_PACKET_BURST) {
            return Err(ConfigError::Burst(burst));
        }
        proof {
            lemma_pow2_pos(1074);
            let unit = double_unit() as int;
            assert(10_000 * unit <= 0x8000 * unit && 20_000 * unit <= 0x8000 * unit)
                by (nonlinear_arith)
                requires
                    unit > 0,
            ;
        }
        let connections: u32 = self.max_connections as u32;
        if !rate.is_rounded_product_within(connections, MAX_GLOBAL_PACKET_RATE, 15) {
            return Err(ConfigError::GlobalPacketRate(self.max_connections, rate));
        }
        if !burst.is_rounded_product_within(connections, MAX_GLOBAL_PACKET_BURST, 16) {
            return Err(ConfigError::GlobalPacketBurst(self.max_connections, burst));
        }
        let view_side: u64 = 2 * (self.view_distance as u64) + 1;
        proof {
            let side = view_side as int;
            let connections = self.max_connections as int;
            assert(0 < side * side <= 4_225) by (nonlinear_arith)
                requires
                    1 <= side <= 65,
            ;
            let area = side * side;
            assert(0 < connections * area <= 4_326_400) by (nonlinear_arith)
                requires
                    1 <= connections <= 1_024,
                    0 < area <= 4_225,
            ;
        }
        let view_area: u64 = view_side * view_side;
        let view_slots: u64 = (self.max_connections as u64) * view_area;
        if view_slots > MAX_TOTAL_VIEW_SLOTS {
            return Err(
                ConfigError::ViewSlots {
                    max_connections: self.max_connections,
                    view_area,
                    view_slots,
                },
            );
        }
        let interval_ms: u64 = self.chunk_stream_interval.as_millis() as u64;
        let scans_per_second: u64 = (view_slots * 1_000 + (interval_ms - 1)) / interval_ms;
        if scans_per_second > MAX_VIEW_SCAN_UNITS_PER_SECOND {
            return Err(ConfigError::ViewScans(scans_per_second));
        }
        Ok(())
    }
}

impl Settings {
    /// The duration of one tick; refused where the rate is zero or so high that the
    /// duration would be zero.
    pub fn checked_tick_period(&self) -> (r: Result<TimeSpan, ConfigError>)
        ensures
            match r {
                Ok(period) => {
                    &&& 1 <= self.ticks_per_second <= 1_000_000_000
                    &&& period.as_nanos() == 1_000_000_000int / self.ticks_per_second as int
                    &&& period.as_nanos() > 0
                },
                Err(error) => {
                    &&& self.ticks_per_second == 0 || self.ticks_per_second > 1_000_000_000
                    &&& error == ConfigError::TickPeriod(self.ticks_per_second)
                },
            },
    {
        if self.ticks_per_second == 0 {
            return Err(ConfigError::TickPeriod(0));
        }
        let period = TimeSpan::from_nanos(1_000_000_000u64 / (self.ticks_per_second as u64));
        proof {
            let rate = self.ticks_per_second as int;
            let q = 1_000_000_000int / rate;
            vstd::arithmetic::div_mod::lemma_fundamental_div_mod(1_000_000_000, rate);
            assert((q == 0) == (rate > 1_000_000_000)) by (nonlinear_arith)
                requires
                    1_000_000_000 == rate * q + 1_000_000_000int % rate,
                    0 <= 1_000_000_000int % rate < rate,
                    rate > 0,
            ;
        }
        if period.is_zero() {
            return Err(ConfigError::TickPeriod(self.ticks_per_second));
        }
        Ok(period)
    }

    /// Whether these are the documented defaults.
    pub open spec fn is_default(self) -> bool {
        &&& self.bind == (SocketAddress { ip: IpAddress::V4(0x7f00_0001), port: 25_565 })
        &&& self.max_connections == 256
        &&& self.io_timeout == (TimeSpan { secs: 30, nanos: 0 })
        &&& self.compression_threshold is None
        &&& self.view_distance == 10
        &&& self.simulation_distance == 10
        &&& self.spawn == default_spawn()
        &&& self.spawn_chunk_radius == 2
        &&& self.ticks_per_second == 20
        &&& self.plugins_dir is None
        &&& self.builtin_plugins
        &&& self.spawn_protect_radius == 0
        &&& self.spawn_protect_bypass@ == Seq::<String>::empty()
        &&& self.max_region_fill_volume == 32_768
        &&& self.region_undo_history == 16
        &&& self.keep_alive_interval.as_nanos() == 10_000_000_000
        &&& self.chunk_stream_interval.as_nanos() == 50_000_000
        &&& self.ops@ == Seq::<String>::empty()
        &&& self.default_permission_level == 0
        &&& self.world_dir is None
        &&& self.dashboard_enabled
        &&& self.dashboard_bind == (SocketAddress { ip: IpAddress::V4(0x7f00_0001), port: 9_090 })
        &&& self.access.is_default()
        &&& self.budget.is_default()
        &&& self.world.anvil_import_dir is None
    }
}

/// The default spawn: the middle of the first chunk, one block above the flat grass
/// surface, at `8, 64, 8`.
pub open spec fn default_spawn() -> Vec3 {
    Vec3 {
        x: Double { bits: 0x4020_0000_0000_0000 },
        y: Double { bits: 0x4050_0000_0000_0000 },
        z: Double { bits: 0x4020_0000_0000_0000 },
    }
}

impl Default for Settings {
    fn default() -> (r: Settings)
        ensures
            r.is_default(),
    {
        Settings {
            bind: SocketAddress { ip: IpAddress::V4(0x7f00_0001), port: 25_565 },
            max_connections: 256,
            io_timeout: TimeSpan::from_secs(30),
            compression_threshold: None,
            view_distance: 10,
            simulation_distance: 10,
            spawn: Vec3 {
                x: Double { bits: 0x4020_0000_0000_0000 },
                y: Double { bits: 0x4050_0000_0000_0000 },
                z: Double { bits: 0x4020_0000_0000_0000 },
            },
            spawn_chunk_radius: 2,
            ticks_per_second: 20,
            plugins_dir: None,
            builtin_plugins: true,
            spawn_protect_radius: 0,
            spawn_protect_bypass: Vec::new(),
            max_region_fill_volume: 32_768,
            region_undo_history: 16,
            keep_alive_interval: TimeSpan::from_millis(10_000),
            chunk_stream_interval: TimeSpan::from_millis(50),
            ops: Vec::new(),
            default_permission_level: 0,
            world_dir: None,
            dashboard_enabled: true,
            dashboard_bind: SocketAddress { ip: IpAddress::V4(0x7f00_0001), port: 9_090 },
            access: AccessConfig::default(),
            budget: PacketBudgetConfig::default(),
            world: WorldConfig::default(),
        }
    }
}

/// The documented defaults satisfy every limit.
pub proof fn defaults_are_valid(settings: Settings)
    requires
        settings.is_default(),
    ensures
        settings.valid(),
        settings.first_fault() is None,
{
    lemma2_to64();
    lemma2_to64_rest();
    lemma_pow2_pos(1074);
    lemma_pow2_pos(1037);
    lemma_pow2_pos(1038);
    let unit = double_unit() as int;
    integer_pattern(settings.spawn.x, 1026, 0x10_0000_0000_0000, 8);
    integer_pattern(settings.spawn.y, 1029, 0x10_0000_0000_0000, 64);
    integer_pattern(settings.budget.sustained_rate, 1031, 0x12_c000_0000_0000, 300);
    integer_pattern(settings.budget.burst, 1032, 0x12_c000_0000_0000, 600);
    assert(256 * (300 * unit) <= 100_000 * unit) by (nonlinear_arith)
        requires
            unit > 0,
    ;
    assert(256 * (600 * unit) <= 200_000 * unit) by (nonlinear_arith)
        requires
            unit > 0,
    ;
    assert(-30_000_000 * unit <= 8 * unit <= 30_000_000 * unit) by (nonlinear_arith)
        requires
            unit > 0,
    ;
    assert(-64 * unit <= 64 * unit <= 319 * unit) by (nonlinear_arith)
        requires
            unit > 0,
    ;
    assert(1 * unit <= 300 * unit <= 600 * unit) by (nonlinear_arith)
        requires
            unit > 0,
    ;
    assert(600 * unit <= 10_000 * unit <= 20_000 * unit) by (nonlinear_arith)
        requires
            unit > 0,
    ;
    let volume = settings.max_region_fill_volume as int;
    let history = settings.region_undo_history as int;
    assert(volume * history == 32_768 * 16);
    assert(square_area(10) == 441) by {
        assert((2 * 10 + 1) * (2 * 10 + 1) == 441int) by (nonlinear_arith);
    }
    assert(settings.view_area() == 441);
    let connections = settings.max_connections as int;
    assert(connections * settings.view_area() == 256 * 441);
    assert(settings.chunk_stream_interval.millis() == 50);
    assert(settings.view_slots() * 1_000 == 112_896_000);
    assert(ceiling_quotient(112_896_000, 50) == 2_257_920);
    assert(settings.view_scans() == 2_257_920);
    let rate = settings.budget.sustained_rate;
    let burst = settings.budget.burst;
    assert(connections * rate.numerator() == 256 * (300 * unit));
    assert(connections * burst.numerator() == 256 * (600 * unit));
}

/// Within the limits, the derived work is bounded: the resident spawn square, one
/// player's view, all views together and their scans, the undo history, and a tick
/// that takes time.
pub proof fn valid_settings_bound_derived_work(settings: Settings)
    requires
        settings.valid(),
    ensures
        square_area(settings.spawn_chunk_radius as int) <= MAX_SPAWN_CHUNKS,
        1 <= settings.view_area() <= 4_225,
        1 <= settings.view_slots() <= MAX_TOTAL_VIEW_SLOTS,
        settings.view_scans() <= MAX_VIEW_SCAN_UNITS_PER_SECOND,
        settings.max_region_fill_volume * settings.region_undo_history
            <= MAX_RETAINED_REGION_CELLS,
        1_000_000_000int / settings.ticks_per_second as int >= 1_000_000,
{
    let radius = settings.spawn_chunk_radius as int;
    assert((2 * radius + 1) * (2 * radius + 1) <= 289) by (nonlinear_arith)
        requires
            0 <= radius <= 8,
    ;
    let distance = settings.view_distance as int;
    assert(1 <= (2 * distance + 1) * (2 * distance + 1) <= 4_225) by (nonlinear_arith)
        requires
            0 <= distance <= 32,
    ;
    let area = settings.view_area();
    let connections = settings.max_connections as int;
    assert(connections * area >= 1) by (nonlinear_arith)
        requires
            connections >= 1,
            area >= 1,
    ;
    let rate = settings.ticks_per_second as int;
    let q = 1_000_000_000int / rate;
    vstd::arithmetic::div_mod::lemma_fundamental_div_mod(1_000_000_000, rate);
    assert(q >= 1_000_000) by (nonlinear_arith)
        requires
            1_000_000_000 == rate * q + 1_000_000_000int % rate,
            0 <= 1_000_000_000int % rate < rate,
            1 <= rate <= 1_000,
    ;
}

impl Axis {
    /// The letter of the axis.
    pub open spec fn letter(self) -> Seq<char> {
        match self {
            Axis::X => "x"@,
            Axis::Y => "y"@,
            Axis::Z => "z"@,
        }
    }
}

/// The digits of a fraction up to the last that is not zero, where `place` is the weight
/// of the first.
pub open spec fn fraction_digits(rest: nat, place: nat) -> Seq<char>
    decreases place,
{
    if rest == 0 || place == 0 {
        Seq::empty()
    } else {
        decimal(rest / place) + fraction_digits(rest % place, place / 10)
    }
}

/// A number of nanoseconds in a larger unit, with the digits of its fraction.
pub open spec fn in_units(nanos: nat, unit: nat) -> Seq<char> {
    if nanos % unit == 0 {
        decimal(nanos / unit)
    } else {
        decimal(nanos / unit) + "."@ + fraction_digits(nanos % unit, unit / 10)
    }
}

/// The exact text of a length of time, in the largest unit that it reaches.
pub open spec fn span_text(nanos: nat) -> Seq<char> {
    if nanos >= 1_000_000_000 {
        in_units(nanos, 1_000_000_000) + "s"@
    } else if nanos >= 1_000_000 {
        in_units(nanos, 1_000_000) + "ms"@
    } else if nanos >= 1_000 {
        in_units(nanos, 1_000) + "µs"@
    } else {
        decimal(nanos) + "ns"@
    }
}

fn append_in_units(text: &mut String, nanos: u128, unit: u128)
    requires
        unit > 0,
    ensures
        final(text)@ == old(text)@ + in_units(nanos as nat, unit as nat),
{
    append_decimal(text, nanos / unit);
    if nanos % unit == 0 {
        return;
    }
    text.append(".");
    let ghost digits = fraction_digits((nanos % unit) as nat, (unit / 10) as nat);
    let ghost whole = text@;
    let mut rest: u128 = nanos % unit;
    let mut place: u128 = unit / 10;
    assert(whole + digits =~= text@ + fraction_digits(rest as nat, place as nat));
    while rest != 0 && place != 0
        invariant
            whole + digits == text@ + fraction_digits(rest as nat, place as nat),
        decreases place,
    {
        let ghost before = text@;
        append_decimal(text, rest / place);
        proof {
            let more = fraction_digits((rest % place) as nat, (place / 10) as nat);
            assert(before + (decimal((rest / place) as nat) + more) =~= text@ + more);
        }
        rest = rest % place;
        place = place / 10;
    }
    assert(text@ + fraction_digits(rest as nat, place as nat) =~= text@);
    assert(text@ =~= old(text)@ + in_units(nanos as nat, unit as nat));
}

fn append_span(text: &mut String, span: TimeSpan)
    ensures
        final(text)@ == old(text)@ + span_text(span.as_nanos() as nat),
{
    let nanos: u128 = span.total_nanos();
    if nanos >= 1_000_000_000 {
        append_in_units(text, nanos, 1_000_000_000);
        text.append("s");
    } else if nanos >= 1_000_000 {
        append_in_units(text, nanos, 1_000_000);
        text.append("ms");
    } else if nanos >= 1_000 {
        append_in_units(text, nanos, 1_000);
        text.append("µs");
    } else {
        append_decimal(text, nanos);
        text.append("ns");
    }
    assert(text@ =~= old(text)@ + span_text(nanos as nat));
}

/// A text in quotation marks, with the escapes of Rust's `Debug` form of `str`.
pub uninterp spec fn quoted(text: Seq<char>) -> Seq<char>;

/// `format!` with `{:?}` gives the `Debug` form of a `str`: the text in quotation marks,
/// with what cannot be shown as it is escaped. Which characters those are is left to the
/// standard library's tables: the form is named here and not spelled out.
#[verifier::external_body]
fn quote(text: &str) -> (r: String)
    ensures
        r@ == quoted(text@),
{
    format!("{text:?}")
}

/// The message about an address: what it is for, the address in quotation marks, and
/// why it does not parse.
pub fn address_message(before: &str, address: &str, reason: &str) -> (r: String)
    ensures
        r@ == before@ + address@ + ": "@ + reason@,
{
    let mut m = before.to_owned();
    m.append(address);
    m.append(": ");
    m.append(reason);
    m
}

impl ConfigError {
    /// The message that tells an operator which setting to mend.
    ///
    /// `number` is the text of the double that the error carries, where it carries one;
    /// for a limit on all connections together, of the product of their count and it.
    pub open spec fn text(self, number: Seq<char>) -> Seq<char> {
        match self {
            ConfigError::InvalidBind { text, reason } => "invalid bind address "@ + quoted(text@)
                + ": "@ + reason@,
            ConfigError::InvalidDashboardBind { text, reason } =>
                "invalid dashboard_bind address "@ + quoted(text@) + ": "@ + reason@,
            ConfigError::MaxConnections(n) => "max_connections must be in 1..=1024, got "@
                + decimal(n as nat),
            ConfigError::IoTimeout(span) => "io_timeout_secs must be in 1..=300 seconds, got "@
                + span_text(span.as_nanos() as nat),
            ConfigError::CompressionThreshold(n) =>
                "compression_threshold must disable compression or be in 0..=2097152 bytes, got "@
                + signed_decimal(n as int),
            ConfigError::ViewDistance(n) => "view_distance must be in 0..=32 chunks, got "@
                + signed_decimal(n as int),
            ConfigError::SimulationDistance(n) =>
                "simulation_distance must be in 0..=32 chunks, got "@ + signed_decimal(n as int),
            ConfigError::Spawn(axis, _) => "spawn."@ + axis.letter()
                + " must be finite and in "@ + match axis {
                Axis::Y => "-64..=319"@,
                _ => "-30000000..=30000000"@,
            } + ", got "@ + number,
            ConfigError::SpawnChunkRadius(n) => "spawn_chunk_radius must be in 0..=8 chunks, got "@
                + decimal(n as nat),
            ConfigError::TicksPerSecond(n) => "ticks_per_second must be in 1..=1000, got "@
                + decimal(n as nat),
            ConfigError::TickPeriod(n) => if n == 0 {
                "ticks_per_second must produce a representable duration, got 0"@
            } else {
                "ticks_per_second "@ + decimal(n as nat) + " produces a zero-duration tick"@
            },
            ConfigError::SpawnProtectRadius(n) =>
                "spawn_protect_radius must be in 0..=30000000 blocks, got "@ + signed_decimal(
                n as int,
            ),
            ConfigError::MaxRegionFillVolume(n) =>
                "max_region_fill_volume must be in 0..=1000000 blocks, got "@ + decimal(n as nat),
            ConfigError::RegionUndoHistory(n) => "region_undo_history must be in 0..=64, got "@
                + decimal(n as nat),
            ConfigError::RetainedRegionCells(n) =>
                "max_region_fill_volume * region_undo_history retains up to "@ + decimal(n as nat)
                + " cells; ceiling is 1048576"@,
            ConfigError::KeepAliveInterval(span) =>
                "keep_alive_interval_ms must be in 100..=15000 milliseconds, got "@ + span_text(span.as_nanos() as nat),
            ConfigError::ChunkStreamInterval(span) =>
                "chunk_stream_interval_ms must be in 10..=60000 milliseconds, got "@ + span_text(span.as_nanos() as nat),
            ConfigError::DefaultPermissionLevel(n) =>
                "default_permission_level must be in 0..=4, got "@ + decimal(n as nat),
            ConfigError::PerIpConnectionLimit { max_connections, limit } =>
                "access.per_ip_connection_limit must be 0 or no greater than max_connections ("@
                + decimal(max_connections as nat) + "), got "@ + decimal(limit as nat),
            ConfigError::UnusableRate(_) => "budget.sustained_rate must be positive, got "@
                + number,
            ConfigError::UnusableBurst(_) =>
                "budget.burst must be finite and not below budget.sustained_rate, got "@ + number,
            ConfigError::SustainedRate(_) =>
                "budget.sustained_rate must be in 1..=10000 frames/second, got "@ + number,
            ConfigError::Burst(_) => "budget.burst must be in 1..=20000 frames, got "@ + number,
            ConfigError::GlobalPacketRate(_, _) =>
                "max_connections * budget.sustained_rate permits "@ + number
                + " serverbound frames/second; ceiling is 100000"@,
            ConfigError::GlobalPacketBurst(_, _) => "max_connections * budget.burst permits "@
                + number + " immediate serverbound frames; ceiling is 200000"@,
            ConfigError::ViewSlots { max_connections, view_area, view_slots } =>
                "max_connections ("@ + decimal(max_connections as nat)
                + ") * view_distance square ("@ + decimal(view_area as nat) + ") requests "@
                + decimal(view_slots as nat) + " view slots; ceiling is 1100000"@,
            ConfigError::ViewScans(n) =>
                "max_connections, view_distance, and chunk_stream_interval_ms request "@ + decimal(
                n as nat,
            ) + " view-scan units/second; ceiling is 3000000"@,
        }
    }

    /// The message that tells an operator which setting to mend, with the text of the
    /// double that the error carries.
    pub fn message(&self, number: &str) -> (r: String)
        ensures
            r@ == self.text(number@),
    {
        proof {
            reveal_strlit("");
        }
        match self {
            ConfigError::InvalidBind { text, reason } => address_message(
                "invalid bind address ",
                quote(text.as_str()).as_str(),
                reason.as_str(),
            ),
            ConfigError::InvalidDashboardBind { text, reason } => address_message(
                "invalid dashboard_bind address ",
                quote(text.as_str()).as_str(),
                reason.as_str(),
            ),
            ConfigError::MaxConnections(n) => with_number(
                "max_connections must be in 1..=1024, got ",
                *n as u64,
                "",
            ),
            ConfigError::IoTimeout(span) => with_span(
                "io_timeout_secs must be in 1..=300 seconds, got ",
                *span,
            ),
            ConfigError::CompressionThreshold(n) => with_signed(
                "compression_threshold must disable compression or be in 0..=2097152 bytes, got ",
                *n,
            ),
            ConfigError::ViewDistance(n) => with_signed(
                "view_distance must be in 0..=32 chunks, got ",
                *n,
            ),
            ConfigError::SimulationDistance(n) => with_signed(
                "simulation_distance must be in 0..=32 chunks, got ",
                *n,
            ),
            ConfigError::Spawn(axis, _) => {
                let mut m = "spawn.".to_owned();
                match axis {
                    Axis::X => m.append("x"),
                    Axis::Y => m.append("y"),
                    Axis::Z => m.append("z"),
                }
                m.append(" must be finite and in ");
                match axis {
                    Axis::Y => m.append("-64..=319"),
                    _ => m.append("-30000000..=30000000"),
                }
                m.append(", got ");
                m.append(number);
                m
            },
            ConfigError::SpawnChunkRadius(n) => with_number(
                "spawn_chunk_radius must be in 0..=8 chunks, got ",
                *n as u64,
                "",
            ),
            ConfigError::TicksPerSecond(n) => with_number(
                "ticks_per_second must be in 1..=1000, got ",
                *n as u64,
                "",
            ),
            ConfigError::TickPeriod(n) => {
                if *n == 0 {
                    "ticks_per_second must produce a representable duration, got 0".to_owned()
                } else {
                    with_number("ticks_per_second ", *n as u64, " produces a zero-duration tick")
                }
            },
            ConfigError::SpawnProtectRadius(n) => with_signed(
                "spawn_protect_radius must be in 0..=30000000 blocks, got ",
                *n,
            ),
            ConfigError::MaxRegionFillVolume(n) => with_number(
                "max_region_fill_volume must be in 0..=1000000 blocks, got ",
                *n,
                "",
            ),
            ConfigError::RegionUndoHistory(n) => with_number(
                "region_undo_history must be in 0..=64, got ",
                *n as u64,
                "",
            ),
            ConfigError::RetainedRegionCells(n) => with_number(
                "max_region_fill_volume * region_undo_history retains up to ",
                *n,
                " cells; ceiling is 1048576",
            ),
            ConfigError::KeepAliveInterval(span) => with_span(
                "keep_alive_interval_ms must be in 100..=15000 milliseconds, got ",
                *span,
            ),
            ConfigError::ChunkStreamInterval(span) => with_span(
                "chunk_stream_interval_ms must be in 10..=60000 milliseconds, got ",
                *span,
            ),
            ConfigError::DefaultPermissionLevel(n) => with_number(
                "default_permission_level must be in 0..=4, got ",
                *n as u64,
                "",
            ),
            ConfigError::PerIpConnectionLimit { max_connections, limit } => {
                let mut m = with_number(
                    "access.per_ip_connection_limit must be 0 or no greater than max_connections (",
                    *max_connections as u64,
                    "), got ",
                );
                append_decimal(&mut m, *limit as u128);
                m
            },
            ConfigError::UnusableRate(_) => with_text(
                "budget.sustained_rate must be positive, got ",
                number,
                "",
            ),
            ConfigError::UnusableBurst(_) => with_text(
                "budget.burst must be finite and not below budget.sustained_rate, got ",
                number,
                "",
            ),
            ConfigError::SustainedRate(_) => with_text(
                "budget.sustained_rate must be in 1..=10000 frames/second, got ",
                number,
                "",
            ),
            ConfigError::Burst(_) => with_text(
                "budget.burst must be in 1..=20000 frames, got ",
                number,
                "",
            ),
            ConfigError::GlobalPacketRate(_, _) => with_text(
                "max_connections * budget.sustained_rate permits ",
                number,
                " serverbound frames/second; ceiling is 100000",
            ),
            ConfigError::GlobalPacketBurst(_, _) => with_text(
                "max_connections * budget.burst permits ",
                number,
                " immediate serverbound frames; ceiling is 200000",
            ),
            ConfigError::ViewSlots { max_connections, view_area, view_slots } => {
                let mut m = with_number(
                    "max_connections (",
                    *max_connections as u64,
                    ") * view_distance square (",
                );
                append_decimal(&mut m, *view_area as u128);
                m.append(") requests ");
                append_decimal(&mut m, *view_slots as u128);
                m.append(" view slots; ceiling is 1100000");
                m
            },
            ConfigError::ViewScans(n) => with_number(
                "max_connections, view_distance, and chunk_stream_interval_ms request ",
                *n,
                " view-scan units/second; ceiling is 3000000",
            ),
        }
    }
}

fn with_number(before: &str, n: u64, after: &str) -> (r: String)
    ensures
        r@ == before@ + decimal(n as nat) + after@,
        after@.len() == 0 ==> r@ == before@ + decimal(n as nat),
{
    let mut m = before.to_owned();
    append_decimal(&mut m, n as u128);
    m.append(after);
    assert(after@.len() == 0 ==> m@ =~= before@ + decimal(n as nat));
    m
}

fn with_text(before: &str, text: &str, after: &str) -> (r: String)
    ensures
        r@ == before@ + text@ + after@,
        after@.len() == 0 ==> r@ == before@ + text@,
{
    let mut m = before.to_owned();
    m.append(text);
    m.append(after);
    assert(after@.len() == 0 ==> m@ =~= before@ + text@);
    m
}

fn with_signed(before: &str, n: i32) -> (r: String)
    ensures
        r@ == before@ + signed_decimal(n as int),
{
    let mut m = before.to_owned();
    append_signed(&mut m, n as i64);
    m
}

fn with_span(before: &str, span: TimeSpan) -> (r: String)
    ensures
        r@ == before@ + span_text(span.as_nanos() as nat),
{
    let mut m = before.to_owned();
    append_span(&mut m, span);
    m
}

proof fn zero_is_zero()
    ensures
        (Double { bits: 0 }).finite(),
        (Double { bits: 0 }).numerator() == 0,
{
    lemma2_to64();
    lemma2_to64_rest();
}

/// A setting is refused for what is wrong with it: every fault carries the value that was
/// given, and that value lies outside its limit. Where nothing is refused, every value lies
/// within its limit.
pub proof fn faults_are_real(settings: Settings)
    ensures
        settings.first_fault() is None == settings.valid(),
        match settings.first_fault() {
            Some(ConfigError::InvalidBind { .. }) => false,
            Some(ConfigError::InvalidDashboardBind { .. }) => false,
            Some(ConfigError::MaxConnections(n)) => n == settings.max_connections && (n == 0 || n
                > 1_024),
            Some(ConfigError::IoTimeout(span)) => span == settings.io_timeout && (span.as_nanos()
                < 1_000_000_000 || span.as_nanos() > 300_000_000_000),
            Some(ConfigError::CompressionThreshold(n)) => settings.compression_threshold == Some(n)
                && (n < 0 || n > 2_097_152),
            Some(ConfigError::ViewDistance(n)) => n == settings.view_distance && (n < 0 || n > 32),
            Some(ConfigError::SimulationDistance(n)) => n == settings.simulation_distance && (n < 0
                || n > 32),
            Some(ConfigError::Spawn(axis, value)) => match axis {
                Axis::X => value == settings.spawn.x && !value.within(-30_000_000, 30_000_000),
                Axis::Y => value == settings.spawn.y && !value.within(-64, 319),
                Axis::Z => value == settings.spawn.z && !value.within(-30_000_000, 30_000_000),
            },
            Some(ConfigError::SpawnChunkRadius(n)) => n == settings.spawn_chunk_radius && n > 8,
            Some(ConfigError::TicksPerSecond(n)) => n == settings.ticks_per_second && (n == 0 || n
                > 1_000),
            Some(ConfigError::TickPeriod(_)) => false,
            Some(ConfigError::SpawnProtectRadius(n)) => n == settings.spawn_protect_radius && (n < 0
                || n > 30_000_000),
            Some(ConfigError::MaxRegionFillVolume(n)) => n == settings.max_region_fill_volume && n
                > 1_000_000,
            Some(ConfigError::RegionUndoHistory(n)) => n == settings.region_undo_history && n > 64,
            Some(ConfigError::RetainedRegionCells(n)) => n == settings.max_region_fill_volume
                * settings.region_undo_history && n > 1_048_576,
            Some(ConfigError::KeepAliveInterval(span)) => span == settings.keep_alive_interval && (
            span.as_nanos() < 100_000_000 || span.as_nanos() > 15_000_000_000),
            Some(ConfigError::ChunkStreamInterval(span)) => span == settings.chunk_stream_interval
                && (span.as_nanos() < 10_000_000 || span.as_nanos() > 60_000_000_000),
            Some(ConfigError::DefaultPermissionLevel(n)) => n == settings.default_permission_level
                && n > 4,
            Some(ConfigError::PerIpConnectionLimit { max_connections, limit }) => {
                &&& max_connections == settings.max_connections
                &&& limit == settings.access.per_ip_connection_limit && limit > max_connections
            },
            Some(ConfigError::UnusableRate(value)) => value == settings.budget.sustained_rate && (
            !value.finite() || value.numerator() <= 0),
            Some(ConfigError::UnusableBurst(value)) => value == settings.budget.burst && (
            !value.finite() || value.numerator() < settings.budget.sustained_rate.numerator()),
            Some(ConfigError::SustainedRate(value)) => value == settings.budget.sustained_rate
                && !value.within(1, 10_000),
            Some(ConfigError::Burst(value)) => value == settings.budget.burst && !value.within(
                1,
                20_000,
            ),
            Some(ConfigError::GlobalPacketRate(count, value)) => count == settings.max_connections
                && value == settings.budget.sustained_rate && count * value.numerator() > 100_000
                * double_unit(),
            Some(ConfigError::GlobalPacketBurst(count, value)) => count == settings.max_connections
                && value == settings.budget.burst && count * value.numerator() > 200_000
                * double_unit(),
            Some(ConfigError::ViewSlots { max_connections, view_area, view_slots }) => {
                let side = 2 * settings.view_distance + 1;
                &&& max_connections == settings.max_connections && view_area == side * side
                &&& view_slots == max_connections * view_area && view_slots > 1_100_000
            },
            Some(ConfigError::ViewScans(n)) => n == settings.view_scans() && n > 3_000_000,
            None => {
                &&& 1 <= settings.max_connections <= 1_024
                &&& 1_000_000_000 <= settings.io_timeout.as_nanos() <= 300_000_000_000
                &&& settings.compression_threshold matches Some(t) ==> 0 <= t <= 2_097_152
                &&& 0 <= settings.view_distance <= 32 && 0 <= settings.simulation_distance <= 32
                &&& settings.spawn.x.within(-30_000_000, 30_000_000)
                &&& settings.spawn.y.within(-64, 319)
                &&& settings.spawn.z.within(-30_000_000, 30_000_000)
                &&& settings.spawn_chunk_radius <= 8
                &&& 1 <= settings.ticks_per_second <= 1_000
                &&& 0 <= settings.spawn_protect_radius <= 30_000_000
                &&& settings.max_region_fill_volume <= 1_000_000
                &&& settings.region_undo_history <= 64
                &&& settings.max_region_fill_volume * settings.region_undo_history <= 1_048_576
                &&& 100_000_000 <= settings.keep_alive_interval.as_nanos() <= 15_000_000_000
                &&& 10_000_000 <= settings.chunk_stream_interval.as_nanos() <= 60_000_000_000
                &&& settings.default_permission_level <= 4
                &&& settings.access.per_ip_connection_limit <= settings.max_connections
                &&& settings.budget.sustained_rate.within(1, 10_000)
                &&& settings.budget.burst.within(1, 20_000)
                &&& settings.budget.sustained_rate.numerator() <= settings.budget.burst.numerator()
                &&& settings.max_connections * settings.budget.sustained_rate.numerator() < 100_001
                    * double_unit()
                &&& settings.max_connections * settings.budget.burst.numerator() < 200_001
                    * double_unit()
                &&& settings.view_slots() <= 1_100_000 && settings.view_scans() <= 3_000_000
            },
        },
{
    lemma_pow2_pos(1037);
    lemma_pow2_pos(1038);
    lemma_pow2_strictly_increases(1037, 1074);
    lemma_pow2_strictly_increases(1038, 1074);
    if settings.max_region_fill_volume <= 1_000_000 && settings.region_undo_history <= 64 {
        let volume = settings.max_region_fill_volume as int;
        let history = settings.region_undo_history as int;
        assert(0 <= volume * history <= 64_000_000) by (nonlinear_arith)
            requires
                0 <= volume <= 1_000_000,
                0 <= history <= 64,
        ;
    }
    if 0 <= settings.view_distance <= 32 && 1 <= settings.max_connections <= 1_024 {
        let side = 2 * settings.view_distance + 1;
        let connections = settings.max_connections as int;
        assert(1 <= side * side <= 4_225) by (nonlinear_arith)
            requires
                1 <= side <= 65,
        ;
        let area = settings.view_area();
        assert(0 <= connections * area <= 1_024 * 4_225) by (nonlinear_arith)
            requires
                1 <= connections <= 1_024,
                1 <= area <= 4_225,
        ;
        let interval = settings.chunk_stream_interval.millis();
        if interval >= 10 {
            let numerator = settings.view_slots() * 1_000 + interval - 1;
            assert(0 <= numerator / interval <= numerator) by (nonlinear_arith)
                requires
                    interval >= 1,
                    numerator >= 0,
            ;
            if interval <= 60_000 {
                assert(numerator <= u64::MAX);
            }
        }
    }
}

/// The scans per second are the fewest that cover every view slot once per interval: that
/// many intervals' worth is enough, and one fewer is not.
pub proof fn scans_cover_every_slot(settings: Settings)
    requires
        settings.view_slots() >= 1,
        settings.chunk_stream_interval.millis() >= 1,
    ensures
        settings.view_scans() * settings.chunk_stream_interval.millis() >= settings.view_slots()
            * 1_000,
        (settings.view_scans() - 1) * settings.chunk_stream_interval.millis()
            < settings.view_slots() * 1_000,
{
    let interval = settings.chunk_stream_interval.millis();
    let work = settings.view_slots() * 1_000;
    let scans = settings.view_scans();
    vstd::arithmetic::div_mod::lemma_fundamental_div_mod(work + interval - 1, interval);
    assert(scans * interval >= work && (scans - 1) * interval < work) by (nonlinear_arith)
        requires
            work + interval - 1 == interval * scans + (work + interval - 1) % interval,
            0 <= (work + interval - 1) % interval < interval,
    ;
}

} // verus!
