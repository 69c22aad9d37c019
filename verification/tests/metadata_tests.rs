use meshcode_loader::channel::{BoundedChannel, RecvOutcome, SendOutcome};
use meshcode_loader::errors::PipelineError;
use meshcode_loader::generate::{build_rows, expand_pair, plan_pairs};
use meshcode_loader::grid::default_root_meshes;
use meshcode_loader::inserter::BatchState;
use meshcode_loader::level::{Level, levels_from_raw};
use meshcode_loader::metadata::{build_table_doc, level_label, u64_to_decimal};
use meshcode_loader::progress::{AggregatorState, ProgressMsg};
use meshcode_loader::row::GridPoint;
use meshcode_loader::store::MockStore;

#[test]
fn decimal_writing_is_exact() {
    assert_eq!(u64_to_decimal(0), "0");
    assert_eq!(u64_to_decimal(7), "7");
    assert_eq!(u64_to_decimal(40000), "40000");
    assert_eq!(u64_to_decimal(12345), "12345");
}

#[test]
fn labels_carry_the_tag_and_the_japanese_description() {
    let label = level_label(&Level::Lv1);
    assert_eq!(label.value, "1");
    assert_eq!(label.desc, "1次 (80km四方)");
    let label = level_label(&Level::X40);
    assert_eq!(label.value, "40000");
    assert_eq!(label.desc, "40倍 (40km四方)");
}

#[test]
fn table_doc_documents_three_columns() {
    let doc = build_table_doc(&vec![Level::Lv1, Level::Lv3]);
    assert_eq!(doc.primary_key, "code");
    assert_eq!(doc.columns.len(), 3);
    assert_eq!(doc.columns[0].name, "code");
    assert_eq!(doc.columns[0].data_type, "bigint");
    assert!(doc.columns[0].enum_labels.is_none());
    assert_eq!(doc.columns[1].name, "level");
    let labels = doc.columns[1].enum_labels.as_ref().unwrap();
    assert_eq!(labels.len(), 2);
    assert_eq!(labels[0].value, "1");
    assert_eq!(labels[1].value, "3");
    assert_eq!(doc.columns[2].name, "geom");
    assert_eq!(doc.columns[2].data_type, "geometry(polygon, 4326)");
}

#[test]
fn stored_levels_convert_back_or_fail() {
    let ok = levels_from_raw(&vec![1, 3, 40000]).unwrap();
    assert_eq!(ok, vec![Level::Lv1, Level::Lv3, Level::X40]);
    match levels_from_raw(&vec![1, 7]) {
        Err(PipelineError::UnknownStoredLevel(v)) => assert_eq!(v, 7),
        _ => panic!("expected an unknown-stored-level error"),
    }
    match levels_from_raw(&vec![-2]) {
        Err(PipelineError::UnknownStoredLevel(v)) => assert_eq!(v, -2),
        _ => panic!("expected an unknown-stored-level error"),
    }
}

#[test]
fn expansion_uses_the_real_grid_algorithm() {
    // One first-tier cell holds an 8 x 8 grid of second-tier cells.
    let codes = expand_pair(5339, &Level::Lv2).unwrap();
    assert_eq!(codes.len(), 64);
    assert!(codes.contains(&533900));
    // Expanding to the cell's own tier reports the cell itself.
    let own = expand_pair(5339, &Level::Lv1).unwrap();
    assert_eq!(own, vec![5339]);
    let roots = default_root_meshes();
    assert_eq!(roots.len(), 176);
    assert!(roots.contains(&5339));
}

#[test]
fn one_pair_scenario_accounts_for_every_row() {
    // One fixed root, one fixed level; the algorithm reports 4 child codes
    // with known corners.
    let root = 5339;
    let level = Level::Lv2;
    let pairs = plan_pairs(&vec![root], &vec![level]);
    assert_eq!(pairs.len(), 1);

    let codes = vec![533900, 533901, 533910, 533911];
    let sw: Vec<GridPoint> = vec![
        GridPoint { lon_nanos: 139_000_000_000, lat_nanos: 35_333_333_333 },
        GridPoint { lon_nanos: 139_125_000_000, lat_nanos: 35_333_333_333 },
        GridPoint { lon_nanos: 139_000_000_000, lat_nanos: 35_416_666_666 },
        GridPoint { lon_nanos: 139_125_000_000, lat_nanos: 35_416_666_666 },
    ];
    let ne: Vec<GridPoint> = sw
        .iter()
        .map(|p| GridPoint {
            lon_nanos: p.lon_nanos + 125_000_000,
            lat_nanos: p.lat_nanos + 83_333_333,
        })
        .collect();
    let rows = build_rows(root, level, &codes, &sw, &ne).unwrap();

    // One Count event for the pair, emitted before its rows.
    let mut agg = AggregatorState::new();
    agg.apply(ProgressMsg::Count(rows.len() as u64));

    // The rows transit the bounded channel to a single worker.
    let mut chan = BoundedChannel::new(10);
    for row in &rows {
        assert_eq!(chan.try_send(*row), SendOutcome::Sent);
    }
    chan.close();
    let mut store = MockStore::new();
    let mut state = BatchState::new(5_000);
    loop {
        match chan.try_recv() {
            RecvOutcome::Received(row) => {
                store.upsert(row);
                state.step_row();
            },
            RecvOutcome::Disconnected => break,
            RecvOutcome::Empty => panic!("the producer is done; the queue cannot be open"),
        }
    }
    let remainder = state.finish();
    agg.apply(ProgressMsg::Advance(remainder));

    // Exactly 4 rows committed; Count(4); Advance amounts summing to 4.
    assert_eq!(store.len(), 4);
    assert_eq!(agg.total, 4);
    assert_eq!(agg.completed, 4);
    assert_eq!(state.commits_with_rows(remainder), 1);

    // The metadata phase registers exactly one enum label, the level's own.
    let doc = build_table_doc(&vec![level]);
    let labels = doc.columns[1].enum_labels.as_ref().unwrap();
    assert_eq!(labels.len(), 1);
    assert_eq!(labels[0].value, "2");
}
