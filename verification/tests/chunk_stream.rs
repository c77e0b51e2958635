//! Chunk streaming: the desired square, bounded transitions, and the stream's state.

use ferrumc_app::chunk_set::ChunkSet;
use ferrumc_app::chunk_stream::{
    chebyshev_distance, desired_chunks, mirror_server_teleport, next_chunk_batch,
    next_chunk_transition, ChunkStream, PositionSync, MAX_CHUNK_LOADS_PER_UPDATE,
    MAX_CHUNK_UNLOADS_PER_UPDATE, STREAM_VIEW_DISTANCE_MAX,
};
use ferrumc_app::ieee754::{Double, Single};
use ferrumc_app::math::{block_of, chunk_of, BlockPos, ChunkPos, Rotation, Vec3};
use ferrumc_app::movement::MovementObservation;
use ferrumc_app::play_body::{mirror_look, mirror_movement};

const ORIGIN: ChunkPos = ChunkPos { x: 0, z: 0 };

fn double(value: f64) -> Double {
    Double { bits: value.to_bits() }
}

fn single(value: f32) -> Single {
    Single { bits: value.to_bits() }
}

fn vec3(x: f64, y: f64, z: f64) -> Vec3 {
    Vec3 { x: double(x), y: double(y), z: double(z) }
}

fn look(yaw: f32, pitch: f32) -> Rotation {
    Rotation { yaw: single(yaw), pitch: single(pitch) }
}

fn chunk(x: i32, z: i32) -> ChunkPos {
    ChunkPos { x, z }
}

fn block(x: i32, y: i32, z: i32) -> BlockPos {
    BlockPos { x, y, z }
}

#[test]
fn chunk_stream_chunk_pump_makes_center_out_progress_without_a_position_packet() {
    let center = chunk(0, 0);
    let view_distance = 10;
    // A fresh joiner holds only the spawn batch (radius-2 square, 25 columns)
    // before sending any movement packet.
    let mut loaded = desired_chunks(center, 2);

    // The first batch is the nearest ring (center-out): every column sits at the
    // closest missing Chebyshev distance — 3, just outside the spawn batch.
    let desired = desired_chunks(center, view_distance);
    let first = next_chunk_transition(
        center,
        &desired,
        &loaded,
        MAX_CHUNK_LOADS_PER_UPDATE,
        MAX_CHUNK_UNLOADS_PER_UPDATE,
    );
    assert_eq!(first.load.len(), MAX_CHUNK_LOADS_PER_UPDATE);
    assert!(first.unload.is_empty());
    assert!(first
        .load
        .iter()
        .all(|pos| chebyshev_distance(center, *pos) == 3));

    // Driving the pump repeatedly — with NO position packet ever — fills the
    // whole advertised view square. Each call simulates the driver loading the
    // returned batch.
    let mut iterations = 0;
    loop {
        let transition = next_chunk_transition(
            center,
            &desired,
            &loaded,
            MAX_CHUNK_LOADS_PER_UPDATE,
            MAX_CHUNK_UNLOADS_PER_UPDATE,
        );
        if transition.load.is_empty() {
            break;
        }
        assert!(transition.unload.is_empty());
        for pos in transition.load {
            loaded.insert(pos);
        }
        iterations += 1;
        assert!(iterations < 1000, "the pump must terminate");
    }
    assert!(
        desired.columns().iter().all(|pos| loaded.contains(*pos)),
        "the pump fills out to the full advertised view distance"
    );
    // 441 desired - 25 seeded = 416 columns, in bounded batches of 16 -> 26 pumps.
    assert_eq!(iterations, 26);
}

#[test]
fn connection_chunk_pump_makes_center_out_progress_without_a_position_packet() {
    let center = chunk(0, 0);
    let view_distance = 10;
    // A fresh joiner holds only the spawn batch (radius-2 square, 25 columns).
    let mut loaded = desired_chunks(center, 2);
    let first = next_chunk_batch(center, view_distance, &loaded, MAX_CHUNK_LOADS_PER_UPDATE);
    assert_eq!(first.len(), MAX_CHUNK_LOADS_PER_UPDATE);
    assert!(first
        .iter()
        .all(|pos| chebyshev_distance(center, *pos) == 3));
    let mut iterations = 0;
    loop {
        let batch = next_chunk_batch(center, view_distance, &loaded, MAX_CHUNK_LOADS_PER_UPDATE);
        if batch.is_empty() {
            break;
        }
        for pos in batch {
            loaded.insert(pos);
        }
        iterations += 1;
        assert!(iterations < 1000, "the pump must terminate");
    }
    assert_eq!(loaded, desired_chunks(center, view_distance));
    assert_eq!(iterations, 26);
}

#[test]
fn maximum_loaded_square_has_a_bounded_unload_batch() {
    let mut loaded = desired_chunks(ORIGIN, STREAM_VIEW_DISTANCE_MAX);
    let superseding_center = chunk(10_000, -10_000);
    let desired = desired_chunks(superseding_center, STREAM_VIEW_DISTANCE_MAX);

    assert_eq!(
        loaded.len(),
        65 * 65,
        "the fixture exercises the maximum streamed square"
    );
    let plan = |loaded: &ChunkSet| {
        next_chunk_transition(
            superseding_center,
            &desired,
            loaded,
            MAX_CHUNK_LOADS_PER_UPDATE,
            MAX_CHUNK_UNLOADS_PER_UPDATE,
        )
    };
    let first = plan(&loaded);
    assert_eq!(first.load.len(), MAX_CHUNK_LOADS_PER_UPDATE);
    assert_eq!(first.unload.len(), MAX_CHUNK_UNLOADS_PER_UPDATE);
    assert_eq!(
        first,
        plan(&loaded),
        "the same state always plans the same bounded transition"
    );

    let mut pumps = 0usize;
    while loaded != desired {
        let transition = plan(&loaded);
        assert!(transition.load.len() <= MAX_CHUNK_LOADS_PER_UPDATE);
        assert!(transition.unload.len() <= MAX_CHUNK_UNLOADS_PER_UPDATE);
        assert!(
            transition.load.len() + transition.unload.len()
                <= MAX_CHUNK_LOADS_PER_UPDATE + MAX_CHUNK_UNLOADS_PER_UPDATE
        );
        assert!(
            !transition.load.is_empty() || !transition.unload.is_empty(),
            "a non-converged stream must make progress"
        );
        for pos in transition.unload {
            assert!(loaded.remove(pos), "only held columns may be released");
        }
        for pos in transition.load {
            assert!(desired.contains(pos), "only desired columns may load");
            assert!(loaded.insert(pos), "a load cannot duplicate a held column");
        }
        assert!(
            loaded.len() <= 65 * 65,
            "equal load/unload caps prevent ticket-set growth"
        );
        pumps += 1;
        assert!(pumps <= 265, "the bounded transition must converge");
    }
    assert_eq!(pumps, 265, "4,225 disjoint columns drain in ceil(n/16)");
}

#[test]
fn superseding_center_discards_the_stale_transition() {
    let loaded = desired_chunks(ORIGIN, STREAM_VIEW_DISTANCE_MAX);
    let stale_center = chunk(10_000, 10_000);
    let stale_desired = desired_chunks(stale_center, STREAM_VIEW_DISTANCE_MAX);
    let stale = next_chunk_transition(
        stale_center,
        &stale_desired,
        &loaded,
        MAX_CHUNK_LOADS_PER_UPDATE,
        MAX_CHUNK_UNLOADS_PER_UPDATE,
    );
    assert!(!stale.load.is_empty() && !stale.unload.is_empty());

    // Before any stale plan is applied, a latest-wins observation returns to
    // the already-loaded origin. Recomputing has no old backlog to drain.
    let latest_desired = desired_chunks(ORIGIN, STREAM_VIEW_DISTANCE_MAX);
    let latest = next_chunk_transition(
        ORIGIN,
        &latest_desired,
        &loaded,
        MAX_CHUNK_LOADS_PER_UPDATE,
        MAX_CHUNK_UNLOADS_PER_UPDATE,
    );
    assert!(latest.load.is_empty());
    assert!(latest.unload.is_empty());
}

/// A stream that holds nothing.
fn bare_stream() -> ChunkStream {
    ChunkStream::new(ORIGIN, 0, &Vec::new())
}

#[test]
fn block_crossing_fires_only_on_a_new_block() {
    let mut stream = bare_stream();

    // The first reported position only seeds the baseline; there is no prior
    // block to report a crossing from.
    assert_eq!(stream.block_crossing(vec3(0.5, 64.0, 0.5)), None);

    // Sub-block jitter within the same block does not refire.
    assert_eq!(stream.block_crossing(vec3(0.9, 64.2, 0.1)), None);

    // Stepping into the next block fires exactly one crossing.
    assert_eq!(
        stream.block_crossing(vec3(1.1, 64.0, 0.5)),
        Some((block(0, 64, 0), block(1, 64, 0)))
    );
    // Staying put after the crossing does not refire.
    assert_eq!(stream.block_crossing(vec3(1.4, 64.0, 0.6)), None);

    // Negative coordinates floor toward -inf (vanilla block space).
    assert_eq!(
        stream.block_crossing(vec3(-0.1, 64.0, 0.5)),
        Some((block(1, 64, 0), block(-1, 64, 0)))
    );
}

#[test]
fn pending_stream_position_is_latest_wins() {
    let mut stream = bare_stream();
    let first = vec3(128.5, 64.0, 8.5);
    let second = vec3(-128.5, 64.0, 8.5);
    let latest = vec3(8.5, 64.0, 256.5);

    stream.observe(first);
    stream.observe(second);
    stream.observe(latest);

    assert_eq!(stream.pending_position, Some(latest));
    assert_eq!(stream.last_position(), Some(latest));
}

#[test]
fn authoritative_teleport_recenters_only_when_fully_safe() {
    let mut stream = bare_stream();
    let mut mirror = look(5.0, -5.0);
    let target = vec3(128.5, 70.0, -64.5);
    let safe = PositionSync { position: target, rotation: look(90.0, -30.0), flags: 0 };
    mirror_server_teleport(&mut stream, &mut mirror, safe);
    assert_eq!(stream.pending_position, Some(target));
    assert_eq!(stream.last_position(), Some(target));
    assert_eq!(mirror, look(90.0, -30.0));
    assert_eq!(
        stream.block_crossing(vec3(128.9, 70.1, -64.1)),
        None,
        "a client echo in the destination block is not a giant move event",
    );
    assert_eq!(
        stream.block_crossing(vec3(129.1, 70.1, -64.1)),
        Some((block(128, 70, -65), block(129, 70, -65))),
        "the next real block crossing starts at the teleport destination",
    );

    let invalid = [
        PositionSync {
            position: vec3(f64::NAN, 64.0, 8.0),
            rotation: look(10.0, 20.0),
            flags: 0,
        },
        PositionSync {
            position: vec3(8.0, 64.0, 8.0),
            rotation: look(f32::INFINITY, 20.0),
            flags: 0,
        },
        PositionSync { position: vec3(8.0, 64.0, 8.0), rotation: look(10.0, 20.0), flags: 1 },
    ];
    for sync in invalid {
        mirror_server_teleport(&mut stream, &mut mirror, sync);
        assert_eq!(stream.pending_position, Some(target));
        assert_eq!(stream.last_position(), Some(target));
        assert_eq!(mirror, look(90.0, -30.0));
    }
}

#[test]
fn a_stream_follows_its_player_and_converges() {
    let spawn = desired_chunks(ORIGIN, 2);
    let mut stream = ChunkStream::new(ORIGIN, 50, spawn.columns());
    assert_eq!(stream.view_distance, STREAM_VIEW_DISTANCE_MAX);
    assert_eq!(ChunkStream::new(ORIGIN, -3, &Vec::new()).view_distance, 0);
    let mut stream = ChunkStream { view_distance: 3, ..stream };
    assert_eq!(stream.apply_chunk_stream(), None, "nothing is pending");
    stream.observe(vec3(40.5, 64.0, -8.5));
    assert_eq!(stream.apply_chunk_stream(), Some(chunk(2, -1)));
    assert_eq!(stream.pending_position, None);
    assert!(!stream.recenter(chunk(2, -1), false), "a dropped centre ends the session");
    assert_eq!(stream.center, ORIGIN);
    assert!(stream.recenter(chunk(2, -1), true));
    let mut pumps = 0;
    while let Some(transition) = stream.pump_chunk_stream() {
        stream.record_all_streamed(&transition.load);
        pumps += 1;
        assert!(pumps < 10);
    }
    assert_eq!(stream.loaded, desired_chunks(chunk(2, -1), 3));
    // A column that did not come back is asked for again.
    stream.loaded.remove(chunk(2, -1));
    let again = stream.pump_chunk_stream().expect("one column is missing");
    assert_eq!(again.load, vec![chunk(2, -1)]);
    assert!(again.unload.is_empty());
    stream.record_streamed(chunk(2, -1));
    assert!(stream.pump_chunk_stream().is_none());
}

#[test]
fn squares_end_with_the_coordinate_range() {
    let corner = desired_chunks(chunk(i32::MAX, i32::MIN), 2);
    assert_eq!(corner.len(), 9);
    assert!(corner.contains(chunk(i32::MAX - 2, i32::MIN + 2)));
    assert_eq!(desired_chunks(ORIGIN, -1).len(), 0);
    assert_eq!(chebyshev_distance(chunk(i32::MIN, 0), chunk(i32::MAX, 3)), 4_294_967_295);
}

#[test]
fn sets_keep_coordinate_order() {
    let mut set = ChunkSet::from_columns(&vec![chunk(1, 5), chunk(-1, 9), chunk(1, -5), chunk(1, 5)]);
    assert_eq!(set.columns(), &vec![chunk(-1, 9), chunk(1, -5), chunk(1, 5)]);
    assert!(!set.insert(chunk(1, 5)));
    assert!(set.remove(chunk(-1, 9)));
    assert!(!set.remove(chunk(-1, 9)));
    assert_eq!(set.difference(&desired_chunks(chunk(1, 5), 0)), vec![chunk(1, -5)]);
}

#[test]
fn blocks_floor_and_saturate_like_a_cast() {
    for number in [
        0.0_f64, -0.0, 0.5, -0.5, 1.0, -1.0, 0.999999, 15.99, 16.0, -16.0, -16.01, 2147483646.5,
        2147483647.0, 2147483648.0, -2147483648.0, -2147483648.5, 1e18, -1e18, 1e300, -1e300,
        5e-324, -5e-324, f64::NAN, f64::INFINITY, f64::NEG_INFINITY, 9007199254740993.0, 4503599627370495.5, -4503599627370495.5,
    ] {
        assert_eq!(block_of(vec3(number, 0.0, 0.0)).x, number.floor() as i32, "{number}");
    }
    assert_eq!(chunk_of(vec3(-0.5, 64.0, 31.9)), chunk(-1, 1));
    assert_eq!(block(i32::MIN, 0, -17).chunk(), chunk(i32::MIN >> 4, -2));
}

#[test]
fn ranges_and_comparisons_agree_with_doubles() {
    let numbers = [
        0.0_f64, -0.0, 1.0, 1.5, 2.0, -64.0, 319.0, 319.0000001, -64.0000001, 30_000_000.0,
        30_000_000.1, -30_000_000.0, 1e-310, -1e-310, f64::MAX, f64::MIN, f64::INFINITY,
        f64::NEG_INFINITY, f64::NAN,
    ];
    for a in numbers {
        assert_eq!(double(a).is_finite(), a.is_finite());
        for (low, high) in [(-64, 319), (0, 0), (1, 1), (-30_000_000, 30_000_000)] {
            let expected = a.is_finite() && f64::from(low) <= a && a <= f64::from(high);
            assert_eq!(double(a).is_within(low, high), expected, "{a} in {low}..={high}");
        }
        for b in numbers {
            let expected = a.is_finite() && b.is_finite() && a <= b;
            assert_eq!(double(a).at_most(double(b)), expected, "{a} <= {b}");
        }
    }
    for f in [0.0_f32, -0.0, 0.5, 1.0, 1.0000001, -0.1, f32::NAN, f32::INFINITY] {
        assert_eq!(single(f).is_fraction_of_one(), (0.0..=1.0).contains(&f), "{f}");
        assert_eq!(single(f).is_finite(), f.is_finite());
    }
}

#[test]
fn only_admitted_movement_is_mirrored() {
    let mut stream = bare_stream();
    let mut mirror = look(1.0, 2.0);
    let step = MovementObservation {
        position: Some(vec3(17.0, 64.0, 0.0)),
        yaw: Some(single(3.0)),
        pitch: None,
    };
    assert_eq!(mirror_movement(&mut stream, step, false), None);
    assert_eq!(stream.last_position(), None);
    assert_eq!(mirror_movement(&mut stream, step, true), None);
    assert_eq!(stream.last_position(), step.position);
    assert_eq!(mirror, look(1.0, 2.0));
    mirror_look(&mut mirror, step);
    assert_eq!(mirror, look(3.0, 2.0));
    let next = MovementObservation { position: Some(vec3(18.0, 64.0, 0.0)), ..step };
    assert_eq!(
        mirror_movement(&mut stream, next, true),
        Some((block(17, 64, 0), block(18, 64, 0)))
    );
}
