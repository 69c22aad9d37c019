use meshcode_loader::channel::{BoundedChannel, RecvOutcome, SendOutcome};
use meshcode_loader::coordinator::{data_phase_ok, first_failure, should_run_metadata};
use meshcode_loader::errors::PipelineError;
use meshcode_loader::generate::{build_rows, pair_emission, plan_pairs};
use meshcode_loader::inserter::{BatchState, RowAction, drain_rows};
use meshcode_loader::level::Level;
use meshcode_loader::progress::{AggregatorState, ProgressMsg};
use meshcode_loader::row::{GridPoint, MeshcodeRow};
use meshcode_loader::store::MockStore;

fn point(lon_nanos: i64, lat_nanos: i64) -> GridPoint {
    GridPoint { lon_nanos, lat_nanos }
}

fn sample_row(code: u64) -> MeshcodeRow {
    MeshcodeRow {
        code,
        level: Level::Lv1,
        xmin: 139_000_000_000,
        ymin: 35_000_000_000,
        xmax: 140_000_000_000,
        ymax: 35_666_666_667,
    }
}

#[test]
fn rows_keep_valid_bounding_boxes() {
    let sw = point(139_000_000_000, 35_000_000_000);
    let ne = point(140_000_000_000, 35_666_666_667);
    let row = MeshcodeRow::new(5339, Level::Lv1, sw, ne).unwrap();
    assert!(row.xmin < row.xmax);
    assert!(row.ymin < row.ymax);
    // A box with no width is refused.
    assert!(MeshcodeRow::new(5339, Level::Lv1, sw, point(139_000_000_000, 36_000_000_000)).is_none());
    // A box outside the geographic range is refused.
    assert!(
        MeshcodeRow::new(5339, Level::Lv1, point(-181_000_000_000, 0), point(0, 1_000_000)).is_none()
    );
}

#[test]
fn column_values_narrow_or_fail() {
    let row = sample_row(5339);
    assert_eq!(row.column_values().unwrap(), (5339, 1));
    let big = sample_row(u64::MAX);
    match big.column_values() {
        Err(PipelineError::CodeOutOfRange(c)) => assert_eq!(c, u64::MAX),
        _ => panic!("expected a code-out-of-range error"),
    }
}

#[test]
fn build_rows_pairs_codes_with_corners() {
    let codes = vec![533900, 533901, 533910, 533911];
    let sw: Vec<GridPoint> = (0..4).map(|i| point(139_000_000_000 + i, 35_000_000_000)).collect();
    let ne: Vec<GridPoint> = (0..4)
        .map(|i| point(139_500_000_000 + i, 35_500_000_000))
        .collect();
    let rows = build_rows(5339, Level::Lv2, &codes, &sw, &ne).unwrap();
    assert_eq!(rows.len(), 4);
    for (i, row) in rows.iter().enumerate() {
        assert_eq!(row.code, codes[i]);
        assert_eq!(row.level, Level::Lv2);
        assert!(row.xmin < row.xmax && row.ymin < row.ymax);
    }
}

#[test]
fn build_rows_fails_the_pair_on_a_bad_box() {
    let codes = vec![533900];
    let sw = vec![point(139_000_000_000, 35_000_000_000)];
    let ne = vec![point(139_000_000_000, 36_000_000_000)];
    match build_rows(5339, Level::Lv2, &codes, &sw, &ne) {
        Err(PipelineError::Generation { root, level_tag, .. }) => {
            assert_eq!(root, 5339);
            assert_eq!(level_tag, 2);
        },
        _ => panic!("expected a generation error"),
    }
    // A corner list that does not match the code list is also fatal.
    assert!(build_rows(5339, Level::Lv2, &codes, &sw, &vec![]).is_err());
}

#[test]
fn pairs_walk_the_cross_product_in_order() {
    let roots = vec![5339, 5340];
    let levels = vec![Level::Lv1, Level::Lv2];
    let pairs = plan_pairs(&roots, &levels);
    assert_eq!(
        pairs,
        vec![
            (5339, Level::Lv1),
            (5339, Level::Lv2),
            (5340, Level::Lv1),
            (5340, Level::Lv2),
        ]
    );
}

#[test]
fn backpressure_blocks_the_extra_send_and_loses_nothing() {
    let capacity = 3;
    let mut chan = BoundedChannel::new(capacity);
    // Consumers paused: fill the queue to capacity.
    for i in 0..capacity as u64 {
        assert_eq!(chan.try_send(sample_row(i)), SendOutcome::Sent);
    }
    // The (C+1)-th send must block: the row comes back, nothing is dropped.
    let late = sample_row(99);
    match chan.try_send(late) {
        SendOutcome::Full(row) => assert_eq!(row.code, 99),
        _ => panic!("expected the send to block on a full queue"),
    }
    // Unblocking consumption lets the send complete.
    match chan.try_recv() {
        RecvOutcome::Received(row) => assert_eq!(row.code, 0),
        _ => panic!("expected the oldest row"),
    }
    assert_eq!(chan.try_send(late), SendOutcome::Sent);
    // Everything produced is still there, in FIFO order.
    chan.close();
    let mut seen = Vec::new();
    loop {
        match chan.try_recv() {
            RecvOutcome::Received(row) => seen.push(row.code),
            RecvOutcome::Disconnected => break,
            RecvOutcome::Empty => panic!("the queue cannot be empty and open here"),
        }
    }
    assert_eq!(seen, vec![1, 2, 99]);
}

#[test]
fn closed_channel_rejects_sends() {
    let mut chan = BoundedChannel::new(2);
    chan.close();
    match chan.try_send(sample_row(1)) {
        SendOutcome::Closed(row) => assert_eq!(row.code, 1),
        _ => panic!("expected the closed channel to hand the row back"),
    }
    assert_eq!(chan.try_recv(), RecvOutcome::Disconnected);
}

#[test]
fn batch_accounting_commits_ceil_of_rows_over_batch() {
    let rows: Vec<MeshcodeRow> = (0..12).map(sample_row).collect();
    let (state, remainder) = drain_rows(&rows, 5);
    assert_eq!(state.received, 12);
    assert_eq!(state.advanced, 12);
    assert_eq!(state.full_commits, 2);
    assert_eq!(remainder, 2);
    // ceil(12 / 5) == 3 commits held rows; Advance amounts 5 + 5 + 2 == 12.
    let exact: Vec<MeshcodeRow> = (0..10).map(sample_row).collect();
    let (state, remainder) = drain_rows(&exact, 5);
    assert_eq!((state.full_commits, remainder), (2, 0));
    let none: Vec<MeshcodeRow> = Vec::new();
    let (state, remainder) = drain_rows(&none, 5);
    assert_eq!((state.received, state.full_commits, remainder), (0, 0, 0));
}

#[test]
fn step_row_commits_exactly_when_the_batch_fills() {
    let mut state = BatchState::new(3);
    assert_eq!(state.step_row(), RowAction::Accumulate);
    assert_eq!(state.step_row(), RowAction::Accumulate);
    assert_eq!(state.step_row(), RowAction::CommitBatch(3));
    assert_eq!(state.batch_fill, 0);
    assert_eq!(state.step_row(), RowAction::Accumulate);
    let remainder = state.finish();
    assert_eq!(remainder, 1);
    assert_eq!(state.advanced, state.received);
}

#[test]
fn aggregator_tracks_both_sums() {
    let mut agg = AggregatorState::new();
    agg.apply(ProgressMsg::Count(4));
    agg.apply(ProgressMsg::Advance(3));
    agg.apply(ProgressMsg::Count(2));
    agg.apply(ProgressMsg::Advance(3));
    assert_eq!(agg.total, 6);
    assert_eq!(agg.completed, 6);
}

#[test]
fn fail_fast_surfaces_the_first_worker_error_and_stops_metadata() {
    let workers: Vec<Result<(), PipelineError>> = vec![
        Ok(()),
        Err(PipelineError::Persistence { detail: "forced".to_string() }),
        Err(PipelineError::Transport),
    ];
    assert_eq!(first_failure(&workers), Some(1));
    let generator = Ok(());
    let aggregator = Ok(());
    let ok = data_phase_ok(&generator, &workers, &aggregator);
    assert!(!ok);
    assert!(!should_run_metadata(ok, false));
    assert!(!should_run_metadata(ok, true));

    let healthy: Vec<Result<(), PipelineError>> = vec![Ok(()), Ok(())];
    assert_eq!(first_failure(&healthy), None);
    let ok = data_phase_ok(&generator, &healthy, &aggregator);
    assert!(ok);
    assert!(should_run_metadata(ok, false));
    assert!(!should_run_metadata(ok, true));
}

#[test]
fn upsert_is_idempotent() {
    let rows: Vec<MeshcodeRow> = (0..5).map(sample_row).collect();
    let mut store = MockStore::new();
    store.upsert_rows(&rows);
    let once = store.rows().clone();
    // Re-running the whole load changes nothing: same count, same boxes.
    store.upsert_rows(&rows);
    assert_eq!(store.rows(), &once);
    assert_eq!(store.len(), 5);
}

#[test]
fn conflicting_codes_keep_the_first_row() {
    let mut store = MockStore::new();
    let first = sample_row(7);
    let mut second = sample_row(7);
    second.xmin = 100_000_000_000;
    store.upsert(first);
    store.upsert(second);
    assert_eq!(store.len(), 1);
    assert_eq!(store.rows()[0].xmin, first.xmin);
}

#[test]
fn sequential_run_reports_exactly_what_it_announced() {
    let pair_rows = vec![
        (0..3).map(sample_row).collect::<Vec<MeshcodeRow>>(),
        (10..14).map(sample_row).collect::<Vec<MeshcodeRow>>(),
    ];
    let mut store = MockStore::new();
    let (agg, state) = meshcode_loader::pipeline::run_data_phase(&pair_rows, 5, &mut store);
    assert_eq!(agg.total, 7);
    assert_eq!(agg.completed, 7);
    assert_eq!(state.received, 7);
    assert_eq!(state.advanced, 7);
    assert_eq!(state.full_commits, 1);
    assert_eq!(store.len(), 7);
    // A second identical run is a no-op on the store.
    let (_, _) = meshcode_loader::pipeline::run_data_phase(&pair_rows, 5, &mut store);
    assert_eq!(store.len(), 7);
}

#[test]
fn pair_emission_announces_the_count_before_the_rows() {
    let codes = vec![533900, 533901];
    let sw = vec![point(139_000_000_000, 35_000_000_000), point(139_125_000_000, 35_000_000_000)];
    let ne = vec![point(139_125_000_000, 35_083_333_333), point(139_250_000_000, 35_083_333_333)];
    let (announcement, rows) = pair_emission(5339, Level::Lv2, &codes, &sw, &ne).unwrap();
    assert_eq!(announcement, ProgressMsg::Count(2));
    assert_eq!(rows.len(), 2);
    assert_eq!(rows[0].code, 533900);
    assert_eq!(rows[1].code, 533901);
}
