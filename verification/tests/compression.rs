use crazyflie_commander::datalink::compression_adapter::{
    compressed_grid_stream, decompressed_grid_stream, equal_ln_ods, grid_to_changed_cells, ChangedCell,
    GridCompressor, GridDecompressor, GridMessage, GridUpdate, MeasuredCell,
};

fn grid(rows: &[&[i32]]) -> Vec<Vec<i32>> {
    rows.iter().map(|r| r.to_vec()).collect()
}

/// The measured cell for log-odds `ln_ods`: keyed by its bits (one key for both zeros, none for NaN), quantised to tenths.
fn cell_of(ln_ods: f32) -> MeasuredCell {
    let key = if ln_ods.is_nan() { None } else if ln_ods == 0.0 { Some(0) } else { Some(ln_ods.to_bits()) };
    MeasuredCell { ln_ods_key: key, quantized_odds: (ln_ods * 10.0).round() as i32 }
}

fn measured(rows: &[&[i32]]) -> Vec<Vec<MeasuredCell>> {
    rows.iter().map(|r| r.iter().map(|&q| cell_of(q as f32 / 10.0)).collect()).collect()
}

#[test]
fn changed_cells_lists_differences_row_major() {
    let old = measured(&[&[0, 1, 2], &[3, 4, 5]]);
    let next = measured(&[&[0, 9, 2], &[7, 4, 8]]);
    let cells = grid_to_changed_cells(&next, &old);
    assert_eq!(
        cells,
        vec![
            ChangedCell { quantized_odds: 9, i: 0, j: 1 },
            ChangedCell { quantized_odds: 7, i: 1, j: 0 },
            ChangedCell { quantized_odds: 8, i: 1, j: 2 },
        ]
    );
}

#[test]
fn changed_cells_compare_only_common_part() {
    let old = measured(&[&[1, 1], &[1, 1], &[1, 1]]);
    let next = measured(&[&[2, 1, 5], &[1, 1]]);
    let cells = grid_to_changed_cells(&next, &old);
    assert_eq!(cells, vec![ChangedCell { quantized_odds: 2, i: 0, j: 0 }]);
}

#[test]
fn equal_grids_have_no_changes() {
    let g = measured(&[&[1, -2], &[3, 4]]);
    assert!(grid_to_changed_cells(&g, &g).is_empty());
}

#[test]
fn a_changed_log_odds_is_reported_even_when_it_quantises_alike() {
    let old = vec![vec![cell_of(0.51), cell_of(0.0)]];
    let next = vec![vec![cell_of(0.54), cell_of(-0.0)]];
    assert_eq!(old[0][0].quantized_odds, next[0][0].quantized_odds);
    assert_eq!(grid_to_changed_cells(&next, &old), vec![ChangedCell { quantized_odds: 5, i: 0, j: 0 }]);
    let nan = vec![vec![cell_of(f32::NAN)]];
    assert!(!equal_ln_ods(&nan[0][0], &nan[0][0]));
    assert_eq!(grid_to_changed_cells(&nan, &nan).len(), 1);
}

#[test]
fn first_grid_is_a_keyframe_then_changes() {
    let mut c = GridCompressor::new();
    let a = measured(&[&[0, 0], &[0, 0]]);
    let b = measured(&[&[0, 3], &[0, 0]]);
    match c.compress(a) {
        GridUpdate::Keyframe(k) => assert_eq!(k, grid(&[&[0, 0], &[0, 0]])),
        other => panic!("expected a keyframe, got {other:?}"),
    }
    match c.compress(b) {
        GridUpdate::Changes(cells) => assert_eq!(cells, vec![ChangedCell { quantized_odds: 3, i: 0, j: 1 }]),
        other => panic!("expected changes, got {other:?}"),
    }
}

#[test]
fn every_tenth_grid_is_a_keyframe() {
    let grids: Vec<Vec<Vec<MeasuredCell>>> = (0..25).map(|n| measured(&[&[n, -n], &[n % 3, 7]])).collect();
    let msgs = compressed_grid_stream(&grids);
    assert_eq!(msgs.len(), 25);
    for (k, m) in msgs.iter().enumerate() {
        let is_key = matches!(m.msg, Some(GridUpdate::Keyframe(_)));
        assert_eq!(is_key, k % 10 == 0, "message {k}");
    }
}

#[test]
fn round_trip_gives_back_the_grids() {
    let rows = |n: i32| [vec![n % 5, (n * 7) % 11, -3], vec![0, n % 2, n], vec![-50, 50, (n * n) % 13]];
    let quantised: Vec<Vec<Vec<i32>>> = (0..23).map(|n| rows(n).to_vec()).collect();
    let grids: Vec<Vec<Vec<MeasuredCell>>> = (0..23)
        .map(|n| rows(n).iter().map(|r| r.iter().map(|&q| cell_of(q as f32 / 10.0)).collect()).collect())
        .collect();
    let msgs = compressed_grid_stream(&grids);
    let back = decompressed_grid_stream(&msgs);
    assert_eq!(back, quantised);
}

#[test]
fn changes_before_any_keyframe_are_dropped() {
    let msgs = vec![
        GridMessage { msg: Some(GridUpdate::Changes(vec![ChangedCell { quantized_odds: 1, i: 0, j: 0 }])) },
        GridMessage { msg: None },
        GridMessage { msg: Some(GridUpdate::Keyframe(grid(&[&[4, 5]]))) },
        GridMessage { msg: Some(GridUpdate::Changes(vec![ChangedCell { quantized_odds: 6, i: 0, j: 1 }])) },
    ];
    assert_eq!(decompressed_grid_stream(&msgs), vec![grid(&[&[4, 5]]), grid(&[&[4, 6]])]);
}

#[test]
fn decompressor_refuses_changes_outside_the_grid() {
    let mut d = GridDecompressor::new();
    let key = GridMessage { msg: Some(GridUpdate::Keyframe(grid(&[&[1, 2]]))) };
    assert!(d.accepts_message(&key));
    assert_eq!(d.decompress(&key), Some(grid(&[&[1, 2]])));
    let bad = GridMessage { msg: Some(GridUpdate::Changes(vec![ChangedCell { quantized_odds: 1, i: 0, j: 2 }])) };
    assert!(!d.accepts_message(&bad));
    let negative = GridMessage { msg: Some(GridUpdate::Changes(vec![ChangedCell { quantized_odds: 1, i: -1, j: 0 }])) };
    assert!(!d.accepts_message(&negative));
    let later_wins = GridMessage {
        msg: Some(GridUpdate::Changes(vec![
            ChangedCell { quantized_odds: 7, i: 0, j: 0 },
            ChangedCell { quantized_odds: 8, i: 0, j: 0 },
        ])),
    };
    assert!(d.accepts_message(&later_wins));
    assert_eq!(d.decompress(&later_wins), Some(grid(&[&[8, 2]])));
}
