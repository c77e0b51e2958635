//! The configuration: parsing results, defaults, limits and their messages.

use ferrumc_app::app_config::{AppConfig, RawConfig};
use ferrumc_app::cli::{
    load_or_init_config, path_source, Cli, ConfigFile, LoadError, PathSource,
};
use ferrumc_app::config::{
    address_message, AccessConfig, AddressText, ConfigError, IpAddress, PacketBudgetConfig, Settings, SocketAddress,
    WorldConfig, MAX_PLAY_DISTANCE, MAX_SPAWN_CHUNK_RADIUS, MAX_TICKS_PER_SECOND,
};
use ferrumc_app::ieee754::Double;
use ferrumc_app::math::Vec3;
use ferrumc_app::time_span::TimeSpan;

fn double(value: f64) -> Double {
    Double { bits: value.to_bits() }
}

/// The message of an error with the double that it carries, as it is displayed.
fn told(error: &ConfigError) -> String {
    let number = match error {
        ConfigError::Spawn(_, value)
        | ConfigError::UnusableRate(value)
        | ConfigError::UnusableBurst(value)
        | ConfigError::SustainedRate(value)
        | ConfigError::Burst(value) => f64::from_bits(value.bits).to_string(),
        ConfigError::GlobalPacketRate(count, value)
        | ConfigError::GlobalPacketBurst(count, value) => {
            (*count as f64 * f64::from_bits(value.bits)).to_string()
        }
        _ => String::new(),
    };
    error.message(&number)
}

fn vec3(x: f64, y: f64, z: f64) -> Vec3 {
    Vec3 { x: double(x), y: double(y), z: double(z) }
}

fn v4(a: u8, b: u8, c: u8, d: u8, port: u16) -> SocketAddress {
    SocketAddress { ip: IpAddress::V4(u32::from_be_bytes([a, b, c, d])), port }
}

/// Reads an IPv4 socket address.
fn address(text: &str) -> AddressText {
    let parsed = text.rsplit_once(':').and_then(|(ip, port)| {
        let parts: Vec<u8> = ip.split('.').filter_map(|part| part.parse().ok()).collect();
        let port: u16 = port.parse().ok()?;
        match parts.as_slice() {
            [a, b, c, d] => Some(v4(*a, *b, *c, *d, port)),
            _ => None,
        }
    });
    AddressText {
        text: text.to_string(),
        parsed: parsed.ok_or_else(|| "invalid socket address syntax".to_string()),
    }
}

fn number(value: &toml::Value) -> f64 {
    value.as_float().unwrap_or_else(|| value.as_integer().expect("a number") as f64)
}

fn strings(value: &toml::Value) -> Vec<String> {
    value
        .as_array()
        .expect("an array")
        .iter()
        .map(|entry| entry.as_str().expect("a string").to_string())
        .collect()
}

/// Reads a document into the optional settings.
fn raw(text: &str) -> RawConfig {
    let table: toml::Table = text.parse().expect("a TOML document");
    let integer = |key: &str| table.get(key).map(|value| value.as_integer().expect("an integer"));
    let text_of =
        |key: &str| table.get(key).map(|value| value.as_str().expect("a string").to_string());
    let flag = |key: &str| table.get(key).map(|value| value.as_bool().expect("a boolean"));
    let mut access = AccessConfig::default();
    if let Some(given) = table.get("access").and_then(toml::Value::as_table) {
        if let Some(limit) = given.get("per_ip_connection_limit") {
            access.per_ip_connection_limit = limit.as_integer().expect("an integer") as usize;
        }
        if let Some(enabled) = given.get("whitelist_enabled") {
            access.whitelist_enabled = enabled.as_bool().expect("a boolean");
        }
        if let Some(names) = given.get("whitelist") {
            access.whitelist = strings(names);
        }
        if let Some(names) = given.get("bans") {
            access.bans = strings(names);
        }
    }
    let mut budget = PacketBudgetConfig::default();
    if let Some(given) = table.get("budget").and_then(toml::Value::as_table) {
        if let Some(rate) = given.get("sustained_rate") {
            budget.sustained_rate = double(number(rate));
        }
        if let Some(burst) = given.get("burst") {
            budget.burst = double(number(burst));
        }
    }
    let mut world = WorldConfig::default();
    if let Some(given) = table.get("world").and_then(toml::Value::as_table) {
        if let Some(dir) = given.get("anvil_import_dir") {
            world.anvil_import_dir = Some(dir.as_str().expect("a string").to_string());
        }
    }
    RawConfig {
        bind: text_of("bind").map(|text| address(&text)),
        max_connections: integer("max_connections").map(|n| n as usize),
        io_timeout_secs: integer("io_timeout_secs").map(|n| n as u64),
        compression_threshold: integer("compression_threshold").map(|n| n as i32),
        view_distance: integer("view_distance").map(|n| n as i32),
        simulation_distance: integer("simulation_distance").map(|n| n as i32),
        spawn: table.get("spawn").map(|value| {
            let axes: Vec<f64> = value.as_array().expect("an array").iter().map(number).collect();
            vec3(axes[0], axes[1], axes[2])
        }),
        spawn_chunk_radius: integer("spawn_chunk_radius").map(|n| n as u8),
        ticks_per_second: integer("ticks_per_second").map(|n| n as u32),
        plugins_dir: text_of("plugins_dir"),
        builtin_plugins: flag("builtin_plugins"),
        spawn_protect_radius: integer("spawn_protect_radius").map(|n| n as i32),
        spawn_protect_bypass: table.get("spawn_protect_bypass").map(strings),
        max_region_fill_volume: integer("max_region_fill_volume").map(|n| n as u64),
        region_undo_history: integer("region_undo_history").map(|n| n as usize),
        keep_alive_interval_ms: integer("keep_alive_interval_ms").map(|n| n as u64),
        chunk_stream_interval_ms: integer("chunk_stream_interval_ms").map(|n| n as u64),
        ops: table.get("ops").map(strings),
        default_permission_level: integer("default_permission_level").map(|n| n as u8),
        world_dir: text_of("world_dir"),
        dashboard_enabled: flag("dashboard_enabled"),
        dashboard_bind: text_of("dashboard_bind").map(|text| address(&text)),
        access,
        budget,
        world,
    }
}

fn config_of(text: &str) -> Result<AppConfig, ConfigError> {
    raw(text).into_config()
}

#[test]
fn empty_toml_yields_defaults() {
    let parsed = config_of("").expect("empty config is valid");
    assert_eq!(parsed, AppConfig::default());
}

#[test]
fn overrides_are_applied() {
    let toml = r#"
            bind = "0.0.0.0:0"
            max_connections = 4
            io_timeout_secs = 5
            compression_threshold = 256
            view_distance = 6
            simulation_distance = 7
            spawn = [1.0, 65.0, 2.0]
            spawn_chunk_radius = 1
            ticks_per_second = 10
            plugins_dir = "/srv/plugins"
            builtin_plugins = false
            spawn_protect_radius = 12
            spawn_protect_bypass = ["Admin", "Mod"]
            max_region_fill_volume = 4096
            region_undo_history = 3
            keep_alive_interval_ms = 250
            chunk_stream_interval_ms = 33
            ops = ["Admin"]
            default_permission_level = 1
            world_dir = "/srv/world"
            dashboard_enabled = false
            dashboard_bind = "127.0.0.1:8181"
        "#;
    let parsed = config_of(toml).expect("valid config");
    assert_eq!(parsed.bind(), v4(0, 0, 0, 0, 0));
    assert_eq!(parsed.max_connections(), 4);
    assert_eq!(parsed.io_timeout(), TimeSpan::from_secs(5));
    assert_eq!(parsed.compression_threshold(), Some(256));
    assert_eq!(parsed.view_distance(), 6);
    assert_eq!(parsed.simulation_distance(), 7);
    assert_eq!(parsed.spawn(), vec3(1.0, 65.0, 2.0));
    assert_eq!(parsed.spawn_chunk_radius(), 1);
    assert_eq!(parsed.ticks_per_second(), 10);
    assert_eq!(parsed.plugins_dir().map(String::as_str), Some("/srv/plugins"));
    assert!(!parsed.builtin_plugins());
    assert_eq!(parsed.spawn_protect_radius(), 12);
    assert_eq!(parsed.spawn_protect_bypass(), &vec!["Admin".to_string(), "Mod".to_string()]);
    assert_eq!(parsed.max_region_fill_volume(), 4096);
    assert_eq!(parsed.region_undo_history(), 3);
    assert_eq!(parsed.keep_alive_interval(), TimeSpan::from_millis(250));
    assert_eq!(parsed.chunk_stream_interval(), TimeSpan::from_millis(33));
    assert_eq!(parsed.ops(), &vec!["Admin".to_string()]);
    assert_eq!(parsed.default_permission_level(), 1);
    assert_eq!(parsed.world_dir().map(String::as_str), Some("/srv/world"));
    assert!(!parsed.dashboard_enabled());
    assert_eq!(parsed.dashboard_bind(), v4(127, 0, 0, 1, 8181));
}

#[test]
fn dashboard_defaults_to_enabled_on_loopback() {
    let parsed = config_of("").expect("empty config is valid");
    assert!(parsed.dashboard_enabled());
    assert_eq!(parsed.dashboard_bind(), v4(127, 0, 0, 1, 9090));
}

#[test]
fn chunk_stream_interval_defaults_to_one_tick() {
    let parsed = config_of("").expect("empty config is valid");
    // Defaults to 50 ms (one tick at 20 TPS), so a standing joiner's view is
    // pumped toward full view distance promptly.
    assert_eq!(parsed.chunk_stream_interval(), TimeSpan::from_millis(50));
}

#[test]
fn world_dir_defaults_to_in_memory() {
    let parsed = config_of("").expect("empty config is valid");
    assert_eq!(parsed.world_dir(), None);
}

#[test]
fn spawn_protection_defaults_to_disabled() {
    let parsed = config_of("").expect("empty config is valid");
    assert_eq!(parsed.spawn_protect_radius(), 0);
    assert!(parsed.spawn_protect_bypass().is_empty());
    assert_eq!(parsed.plugins_dir(), None);
}

#[test]
fn builtin_plugins_default_on_and_can_be_disabled() {
    assert!(AppConfig::default().builtin_plugins());
    let parsed = config_of("builtin_plugins = false").expect("valid plugin toggle");
    assert!(!parsed.builtin_plugins());
}

#[test]
fn region_edit_limits_default_to_a_32x32x32_cube_and_16_undos() {
    let parsed = config_of("").expect("empty config is valid");
    assert_eq!(parsed.max_region_fill_volume(), 32_768);
    assert_eq!(parsed.region_undo_history(), 16);
}

#[test]
fn operators_default_to_empty_with_player_level_zero() {
    let parsed = config_of("").expect("empty config is valid");
    assert!(parsed.ops().is_empty());
    assert_eq!(parsed.default_permission_level(), 0);
}

#[test]
fn access_defaults_to_open_with_per_ip_three() {
    let parsed = config_of("").expect("empty config is valid");
    assert_eq!(parsed.access(), &AccessConfig::default());
    assert_eq!(parsed.access().per_ip_connection_limit, 3);
    assert!(!parsed.access().whitelist_enabled);
    assert!(parsed.access().whitelist.is_empty());
    assert!(parsed.access().bans.is_empty());
}

#[test]
fn access_table_overrides_parse() {
    let toml = "\
            bind = \"127.0.0.1:0\"\n\
            [access]\n\
            per_ip_connection_limit = 5\n\
            whitelist_enabled = true\n\
            whitelist = [\"Saad\"]\n\
            bans = [\"Griefer\", \"10.0.0.5\"]\n\
        ";
    let parsed = config_of(toml).expect("valid access config");
    assert_eq!(parsed.access().per_ip_connection_limit, 5);
    assert!(parsed.access().whitelist_enabled);
    assert_eq!(parsed.access().whitelist, vec!["Saad"]);
    assert_eq!(parsed.access().bans, vec!["Griefer", "10.0.0.5"]);
}

#[test]
fn packet_budget_defaults_to_three_hundred_over_six_hundred() {
    let parsed = config_of("").expect("empty config is valid");
    assert_eq!(parsed.budget(), PacketBudgetConfig::default());
    assert_eq!(f64::from_bits(parsed.budget().sustained_rate.bits), 300.0);
    assert_eq!(f64::from_bits(parsed.budget().burst.bits), 600.0);
}

#[test]
fn budget_table_overrides_parse() {
    let toml = "\
            bind = \"127.0.0.1:0\"\n\
            [budget]\n\
            sustained_rate = 150.0\n\
            burst = 450.0\n\
        ";
    let parsed = config_of(toml).expect("valid budget config");
    assert_eq!(f64::from_bits(parsed.budget().sustained_rate.bits), 150.0);
    assert_eq!(f64::from_bits(parsed.budget().burst.bits), 450.0);
}

#[test]
fn a_degenerate_budget_is_rejected_at_startup() {
    let err = config_of("[budget]\nsustained_rate = 0.0")
        .expect_err("a zero sustained rate must be rejected");
    assert!(told(&err).contains("sustained_rate"));
}

#[test]
fn world_defaults_to_no_anvil_import() {
    let parsed = config_of("").expect("empty config is valid");
    assert_eq!(parsed.world(), &WorldConfig::default());
    assert_eq!(parsed.world().anvil_import_dir, None);
}

#[test]
fn world_table_overrides_parse() {
    let toml = "\
            bind = \"127.0.0.1:0\"\n\
            [world]\n\
            anvil_import_dir = \"/srv/maps/spawn/region\"\n\
        ";
    let parsed = config_of(toml).expect("valid world config");
    assert_eq!(parsed.world().anvil_import_dir.as_deref(), Some("/srv/maps/spawn/region"));
}

#[test]
fn zero_tick_rate_is_rejected() {
    let err = config_of("ticks_per_second = 0").expect_err("zero is invalid");
    assert!(told(&err).contains("ticks_per_second"));
}

#[test]
fn invalid_bind_is_rejected() {
    let err = config_of("bind = \"not-an-address\"").expect_err("bad address");
    assert!(told(&err).contains("invalid bind address"));
}

#[test]
fn tick_period_tracks_rate() {
    let config = config_of("ticks_per_second = 20").expect("valid config");
    assert_eq!(config.tick_period(), TimeSpan::from_millis(50));
}

#[test]
fn every_numeric_config_field_rejects_unsafe_values_with_its_name() {
    let cases = [
        ("max_connections = 0", "max_connections"),
        ("max_connections = 1025", "max_connections"),
        ("io_timeout_secs = 0", "io_timeout"),
        ("io_timeout_secs = 301", "io_timeout"),
        ("compression_threshold = 2097153", "compression_threshold"),
        ("view_distance = -1", "view_distance"),
        ("view_distance = 33", "view_distance"),
        ("simulation_distance = -1", "simulation_distance"),
        ("simulation_distance = 33", "simulation_distance"),
        ("spawn = [nan, 64.0, 8.0]", "spawn"),
        ("spawn = [8.0, inf, 8.0]", "spawn"),
        ("spawn = [8.0, 64.0, -inf]", "spawn"),
        ("spawn = [30000001.0, 64.0, 8.0]", "spawn"),
        ("spawn = [-30000001.0, 64.0, 8.0]", "spawn"),
        ("spawn = [8.0, -65.0, 8.0]", "spawn"),
        ("spawn = [8.0, 320.0, 8.0]", "spawn"),
        ("spawn = [8.0, 64.0, 30000001.0]", "spawn"),
        ("spawn = [8.0, 64.0, -30000001.0]", "spawn"),
        ("spawn_chunk_radius = 9", "spawn_chunk_radius"),
        ("ticks_per_second = 0", "ticks_per_second"),
        ("ticks_per_second = 1001", "ticks_per_second"),
        ("spawn_protect_radius = 30000001", "spawn_protect_radius"),
        ("max_region_fill_volume = 1000001", "max_region_fill_volume"),
        ("region_undo_history = 65", "region_undo_history"),
        (
            "max_region_fill_volume = 32769\nregion_undo_history = 32",
            "max_region_fill_volume",
        ),
        ("keep_alive_interval_ms = 99", "keep_alive_interval"),
        ("keep_alive_interval_ms = 15001", "keep_alive_interval"),
        ("chunk_stream_interval_ms = 9", "chunk_stream_interval"),
        ("chunk_stream_interval_ms = 60001", "chunk_stream_interval"),
        ("default_permission_level = 5", "default_permission_level"),
        (
            "max_connections = 1\n[access]\nper_ip_connection_limit = 2",
            "per_ip_connection_limit",
        ),
        (
            "max_connections = 1024\nview_distance = 32\n\
                 [budget]\nsustained_rate = 1.0\nburst = 1.0",
            "max_connections",
        ),
        (
            "view_distance = 32\nchunk_stream_interval_ms = 10",
            "chunk_stream_interval_ms",
        ),
        (
            "[budget]\nsustained_rate = 0.5\nburst = 1.0",
            "sustained_rate",
        ),
        (
            "[budget]\nsustained_rate = nan\nburst = 1.0",
            "sustained_rate",
        ),
        ("[budget]\nsustained_rate = 1.0\nburst = 0.5", "burst"),
        ("[budget]\nsustained_rate = 1.0\nburst = inf", "burst"),
        ("[budget]\nsustained_rate = 2.0\nburst = 1.0", "burst"),
        (
            "[budget]\nsustained_rate = 10001.0\nburst = 10001.0",
            "sustained_rate",
        ),
        (
            "[budget]\nsustained_rate = 10000.0\nburst = 20001.0",
            "burst",
        ),
    ];

    for (toml, field) in cases {
        let Err(error) = config_of(toml) else {
            panic!("{field} case unexpectedly parsed: {toml:?}");
        };
        assert!(
            told(&error).contains(field),
            "{field} rejection was not actionable: {error:?}",
        );
    }
}

#[test]
fn declared_minimum_and_maximum_resource_boundaries_are_accepted() {
    let cases = [
        "max_connections = 1\n[access]\nper_ip_connection_limit = 0",
        "max_connections = 1024\nview_distance = 0\n\
             [budget]\nsustained_rate = 1.0\nburst = 1.0",
        "io_timeout_secs = 1",
        "io_timeout_secs = 300",
        "compression_threshold = 0",
        "compression_threshold = 2097152",
        "view_distance = 0",
        "max_connections = 1\nview_distance = 32\n\
             [access]\nper_ip_connection_limit = 0",
        "simulation_distance = 0",
        "simulation_distance = 32",
        "spawn = [-30000000.0, -64.0, -30000000.0]",
        "spawn = [30000000.0, 319.0, 30000000.0]",
        "spawn_chunk_radius = 0",
        "spawn_chunk_radius = 8",
        "ticks_per_second = 1",
        "ticks_per_second = 1000",
        "spawn_protect_radius = 0",
        "spawn_protect_radius = 30000000",
        "max_region_fill_volume = 0\nregion_undo_history = 64",
        "max_region_fill_volume = 1000000\nregion_undo_history = 1",
        "max_region_fill_volume = 16384\nregion_undo_history = 64",
        "keep_alive_interval_ms = 100",
        "keep_alive_interval_ms = 15000",
        "view_distance = 0\nchunk_stream_interval_ms = 10",
        "chunk_stream_interval_ms = 60000",
        "default_permission_level = 0",
        "default_permission_level = 4",
        "[access]\nper_ip_connection_limit = 0",
        "[access]\nper_ip_connection_limit = 256",
        "[budget]\nsustained_rate = 1.0\nburst = 1.0",
        "max_connections = 10\n\
             [budget]\nsustained_rate = 10000.0\nburst = 20000.0",
    ];

    for toml in cases {
        let config = config_of(toml)
            .unwrap_or_else(|error| panic!("declared boundary failed: {toml:?}: {error:?}"));
        assert!(!config.tick_period().is_zero());
    }

    let maximum_spawn =
        config_of("spawn_chunk_radius = 8").expect("maximum spawn radius is valid");
    assert_eq!(
        (2 * usize::from(maximum_spawn.spawn_chunk_radius()) + 1).pow(2),
        289,
        "accepted spawn configuration has a declared startup ceiling",
    );
    let maximum_view = config_of(
        "max_connections = 1\nview_distance = 32\n\
             [access]\nper_ip_connection_limit = 0",
    )
    .expect("maximum view is valid");
    assert_eq!(
        (2 * usize::try_from(maximum_view.view_distance()).unwrap() + 1).pow(2),
        4_225,
        "accepted per-player view has a declared residency ceiling",
    );
}

#[test]
fn negative_compression_threshold_preserves_disabled_meaning() {
    let config = config_of("compression_threshold = -7").expect("negative disables");
    assert_eq!(config.compression_threshold(), None);
}

#[test]
fn negative_spawn_protection_preserves_disabled_meaning() {
    let config =
        config_of("spawn_protect_radius = -7").expect("negative spawn protection disables");
    assert_eq!(config.spawn_protect_radius(), 0);
}

#[test]
fn accepted_discrete_ranges_keep_derived_work_nonzero_and_bounded() {
    for ticks_per_second in 1..=MAX_TICKS_PER_SECOND {
        let settings = Settings { ticks_per_second, ..Settings::default() };
        settings.validate().expect("accepted tick rate validates");
        let config = AppConfig::new(settings).expect("accepted tick rate validates");
        assert!(!config.tick_period().is_zero());
    }

    for radius in 0..=MAX_SPAWN_CHUNK_RADIUS {
        let side = 2 * u64::from(radius) + 1;
        assert!(side * side <= 289);
    }
    for distance in 0..=MAX_PLAY_DISTANCE {
        let side = 2 * u64::try_from(distance).unwrap() + 1;
        assert!(side * side <= 4_225);
    }
}

#[test]
fn multiplicative_resource_maxima_are_rejected_actionably() {
    let cases = [
        (
            "max_connections = 1024\nview_distance = 32\n\
                 [budget]\nsustained_rate = 1.0\nburst = 1.0",
            "view slots",
        ),
        (
            "view_distance = 32\nchunk_stream_interval_ms = 10",
            "view-scan units/second",
        ),
        (
            "max_region_fill_volume = 1000000\nregion_undo_history = 64",
            "retains up to",
        ),
        (
            "max_connections = 11\n\
                 [budget]\nsustained_rate = 10000.0\nburst = 20000.0",
            "serverbound frames/second",
        ),
        (
            "max_connections = 11\n\
                 [budget]\nsustained_rate = 1.0\nburst = 20000.0",
            "immediate serverbound frames",
        ),
    ];
    for (toml, diagnostic) in cases {
        let error = config_of(toml).expect_err("combined resource maxima must be rejected");
        assert!(
            told(&error).contains(diagnostic),
            "missing {diagnostic:?} in {error:?}",
        );
    }
}

#[test]
fn messages_tell_the_setting_and_the_value() {
    let message = |toml: &str| told(&config_of(toml).expect_err("refused"));
    assert_eq!(message("max_connections = 0"), "max_connections must be in 1..=1024, got 0");
    assert_eq!(message("io_timeout_secs = 301"), "io_timeout_secs must be in 1..=300 seconds, got 301s");
    assert_eq!(message("io_timeout_secs = 0"), "io_timeout_secs must be in 1..=300 seconds, got 0ns");
    assert_eq!(message("view_distance = -1"), "view_distance must be in 0..=32 chunks, got -1");
    assert_eq!(
        message("simulation_distance = 33"),
        "simulation_distance must be in 0..=32 chunks, got 33"
    );
    assert_eq!(
        message("compression_threshold = 2097153"),
        "compression_threshold must disable compression or be in 0..=2097152 bytes, got 2097153"
    );
    assert_eq!(
        message("spawn = [8.0, 320.0, 8.0]"),
        "spawn.y must be finite and in -64..=319, got 320"
    );
    assert_eq!(
        message("spawn = [8.0, 64.0, inf]"),
        "spawn.z must be finite and in -30000000..=30000000, got inf"
    );
    assert_eq!(
        message("spawn_chunk_radius = 9"),
        "spawn_chunk_radius must be in 0..=8 chunks, got 9"
    );
    assert_eq!(
        message("spawn_protect_radius = 30000001"),
        "spawn_protect_radius must be in 0..=30000000 blocks, got 30000001"
    );
    assert_eq!(
        message("max_region_fill_volume = 1000001"),
        "max_region_fill_volume must be in 0..=1000000 blocks, got 1000001"
    );
    assert_eq!(message("region_undo_history = 65"), "region_undo_history must be in 0..=64, got 65");
    assert_eq!(
        message("max_region_fill_volume = 1000000\nregion_undo_history = 64"),
        "max_region_fill_volume * region_undo_history retains up to 64000000 cells; ceiling is 1048576"
    );
    assert_eq!(
        message("keep_alive_interval_ms = 99"),
        "keep_alive_interval_ms must be in 100..=15000 milliseconds, got 99ms"
    );
    assert_eq!(
        message("keep_alive_interval_ms = 15001"),
        "keep_alive_interval_ms must be in 100..=15000 milliseconds, got 15.001s"
    );
    assert_eq!(
        message("chunk_stream_interval_ms = 60500"),
        "chunk_stream_interval_ms must be in 10..=60000 milliseconds, got 60.5s"
    );
    assert_eq!(
        message("chunk_stream_interval_ms = 61020"),
        "chunk_stream_interval_ms must be in 10..=60000 milliseconds, got 61.02s"
    );
    assert_eq!(
        message("default_permission_level = 5"),
        "default_permission_level must be in 0..=4, got 5"
    );
    assert_eq!(
        message("max_connections = 1\n[access]\nper_ip_connection_limit = 2"),
        "access.per_ip_connection_limit must be 0 or no greater than max_connections (1), got 2"
    );
    assert_eq!(
        message("view_distance = 32"),
        "max_connections, view_distance, and chunk_stream_interval_ms request 21632000 view-scan \
         units/second; ceiling is 3000000"
    );
    assert_eq!(
        message(
            "max_connections = 1024\nview_distance = 32\n[budget]\nsustained_rate = 1.0\nburst = 1.0"
        ),
        "max_connections (1024) * view_distance square (4225) requests 4326400 view slots; \
         ceiling is 1100000"
    );
    assert_eq!(
        message("bind = \"nowhere\""),
        "invalid bind address \"nowhere\": invalid socket address syntax"
    );
    assert_eq!(
        message("bind = 'no\"where\\'"),
        "invalid bind address \"no\\\"where\\\\\": invalid socket address syntax"
    );
    assert_eq!(
        message("bind = \"a\\u0001\\tb\""),
        "invalid bind address \"a\\u{1}\\tb\": invalid socket address syntax"
    );
    assert_eq!(address_message("at ", "\"x\"", "why"), "at \"x\": why");
    assert_eq!(
        message("[budget]\nsustained_rate = 0.5\nburst = 2.0"),
        "budget.sustained_rate must be in 1..=10000 frames/second, got 0.5"
    );
    assert_eq!(
        message("[budget]\nsustained_rate = 10000.0\nburst = 20001.0"),
        "budget.burst must be in 1..=20000 frames, got 20001"
    );
    assert_eq!(
        message("[budget]\nsustained_rate = -1.0"),
        "budget.sustained_rate must be positive, got -1"
    );
    assert_eq!(
        message("[budget]\nsustained_rate = 300.0\nburst = 299.5"),
        "budget.burst must be finite and not below budget.sustained_rate, got 299.5"
    );
    assert_eq!(
        message("max_connections = 11\n[budget]\nsustained_rate = 10000.0\nburst = 20000.0"),
        "max_connections * budget.sustained_rate permits 110000 serverbound frames/second; \
         ceiling is 100000"
    );
    assert_eq!(
        message("max_connections = 11\n[budget]\nsustained_rate = 1.0\nburst = 20000.0"),
        "max_connections * budget.burst permits 220000 immediate serverbound frames; \
         ceiling is 200000"
    );
    assert_eq!(
        message("dashboard_bind = \"nowhere\""),
        "invalid dashboard_bind address \"nowhere\": invalid socket address syntax"
    );
}

#[test]
fn lengths_of_time_are_told_exactly() {
    for nanos in [
        0u64, 1, 999, 1_000, 1_001, 1_500, 999_999, 1_000_000, 1_000_001, 1_020_000, 99_000_000,
        999_999_999, 1_000_000_000, 1_000_000_001, 15_001_000_000, 60_500_000_000,
        301_000_000_010, u64::MAX,
    ] {
        assert_eq!(
            told(&ConfigError::KeepAliveInterval(TimeSpan::from_nanos(nanos))),
            format!(
                "keep_alive_interval_ms must be in 100..=15000 milliseconds, got {:?}",
                std::time::Duration::from_nanos(nanos),
            ),
        );
    }
}

#[test]
fn the_first_fault_in_order_is_reported() {
    let error = config_of("max_connections = 0\nview_distance = 99").expect_err("refused");
    assert!(matches!(error, ConfigError::MaxConnections(0)));
    let error = config_of("bind = \"x\"\nmax_connections = 0").expect_err("refused");
    assert!(matches!(error, ConfigError::InvalidBind { .. }));
    let error = config_of("dashboard_bind = \"x\"\nmax_connections = 0").expect_err("refused");
    assert!(matches!(error, ConfigError::InvalidDashboardBind { .. }));
}

#[test]
fn products_are_rounded_like_doubles() {
    // Ten connections at ten thousand frames reach the ceiling exactly; a rate of one
    // third of that over thirty connections rounds to the ceiling.
    let third = 100_000.0_f64 / 30.0;
    assert!(30.0 * third <= 100_000.0);
    let at = |rate: f64, connections: usize| Settings {
        max_connections: connections,
        budget: PacketBudgetConfig { sustained_rate: double(rate), burst: double(rate) },
        ..Settings::default()
    };
    for connections in [7usize, 30, 49, 97, 251] {
        for steps in -3i64..=3 {
            let base = 100_000.0_f64 / connections as f64;
            let rate = f64::from_bits((base.to_bits() as i64 + steps) as u64);
            let allowed = connections as f64 * rate <= 100_000.0 && rate <= 10_000.0;
            let verdict = at(rate, connections).validate();
            if rate <= 10_000.0 {
                assert_eq!(
                    !matches!(verdict, Err(ConfigError::GlobalPacketRate(_, _))),
                    allowed,
                    "{connections} at {rate}",
                );
            }
        }
    }
}

#[test]
fn tick_periods_need_a_rate() {
    let period = |ticks_per_second: u32| {
        Settings { ticks_per_second, ..Settings::default() }.checked_tick_period()
    };
    assert!(matches!(period(0), Err(ConfigError::TickPeriod(0))));
    assert!(matches!(period(1_000_000_001), Err(ConfigError::TickPeriod(1_000_000_001))));
    assert_eq!(period(3).expect("a third of a second"), TimeSpan::from_nanos(333_333_333));
    assert_eq!(
        told(&period(0).expect_err("refused")),
        "ticks_per_second must produce a representable duration, got 0"
    );
    assert_eq!(
        told(&period(1_000_000_001).expect_err("refused")),
        "ticks_per_second 1000000001 produces a zero-duration tick"
    );
}

#[test]
fn copies_are_checked_again() {
    let config = AppConfig::default()
        .with_world_dir(Some("/srv/world".to_string()))
        .expect("a directory breaks no limit");
    assert_eq!(config.world_dir().map(String::as_str), Some("/srv/world"));
    let config = config
        .with_plugins_dir(Some("/srv/plugins".to_string()))
        .expect("a directory breaks no limit");
    assert_eq!(config.plugins_dir().map(String::as_str), Some("/srv/plugins"));
    let access = AccessConfig { per_ip_connection_limit: 256, ..AccessConfig::default() };
    let config = config.with_access(access).expect("as many as the server takes");
    let access = AccessConfig { per_ip_connection_limit: 257, ..AccessConfig::default() };
    assert!(matches!(
        config.with_access(access),
        Err(ConfigError::PerIpConnectionLimit { max_connections: 256, limit: 257 })
    ));
}

#[test]
fn the_flag_wins_over_the_environment_over_the_default() {
    let named = Cli { config: Some("a.toml".to_string()), port: None, bind: None };
    let unnamed = Cli { config: None, port: None, bind: None };
    let environment = "b.toml".to_string();
    assert_eq!(named.config_path(Some(&environment)), "a.toml");
    assert_eq!(unnamed.config_path(Some(&environment)), "b.toml");
    assert_eq!(unnamed.config_path(None), "config.toml");
    assert_eq!(path_source(true, true), PathSource::CommandLine);
    assert_eq!(path_source(false, true), PathSource::Environment);
    assert_eq!(path_source(false, false), PathSource::Default);
}

#[test]
fn a_first_start_takes_the_defaults_and_the_command_line() {
    let config = load_or_init_config(
        ConfigFile::TemplateWritten,
        Some(4242),
        Some(v4(10, 0, 0, 1, 25_565)),
    )
    .expect("a first start cannot fail");
    assert_eq!(config.bind(), v4(10, 0, 0, 1, 4242));
    assert_eq!(config.world_dir().map(String::as_str), Some("world"));
    let config = load_or_init_config(
        ConfigFile::Document(raw("world_dir = \"/srv/world\"")),
        None,
        None,
    )
    .expect("a valid document");
    assert_eq!(config.bind(), v4(127, 0, 0, 1, 25_565));
    assert_eq!(config.world_dir().map(String::as_str), Some("/srv/world"));
}

#[test]
fn every_way_to_have_no_configuration_is_told() {
    let load = |file: ConfigFile| load_or_init_config(file, None, None);
    assert!(matches!(
        load(ConfigFile::TemplateRefused("read-only".to_string())),
        Err(LoadError::Writing(reason)) if reason == "read-only"
    ));
    assert!(matches!(
        load(ConfigFile::Unreadable("denied".to_string())),
        Err(LoadError::Reading(reason)) if reason == "denied"
    ));
    assert!(matches!(
        load(ConfigFile::Malformed("line 1".to_string())),
        Err(LoadError::Parsing(reason)) if reason == "line 1"
    ));
    assert!(matches!(
        load(ConfigFile::Document(raw("max_connections = 0"))),
        Err(LoadError::Invalid(ConfigError::MaxConnections(0)))
    ));
}
