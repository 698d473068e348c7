use pannotia::bittable::{bittable_positions, BittableError};

#[test]
fn test_bittable() {
    let rows: Vec<Vec<Option<usize>>> = vec![
        vec![Some(1), Some(3), Some(2), Some(0)],
        vec![Some(7), Some(5), Some(4), Some(6)],
        vec![Some(9), Some(11), Some(10), Some(8)],
        vec![None, Some(13), Some(12), Some(14)],
    ];
    let positions = bittable_positions(&rows).unwrap();
    assert_eq!(
        positions,
        vec![
            (3, 0), (0, 0), (2, 0), (1, 0),
            (2, 1), (1, 1), (3, 1), (0, 1),
            (3, 2), (0, 2), (2, 2), (1, 2),
            (2, 3), (1, 3), (3, 3),
        ]
    );
}

#[test]
fn bittable_duplicate_bit() {
    let rows: Vec<Vec<Option<usize>>> = vec![vec![Some(0), Some(1)], vec![None, Some(1)]];
    assert_eq!(
        bittable_positions(&rows),
        Err(BittableError::Duplicate { bit: 1, prev_x: 1, prev_y: 0 })
    );
}

#[test]
fn bittable_missing_bit() {
    let rows: Vec<Vec<Option<usize>>> = vec![vec![Some(0), Some(3)], vec![Some(1), None]];
    assert_eq!(bittable_positions(&rows), Err(BittableError::Missing { bit: 2 }));
}

#[test]
fn bittable_empty_table() {
    let rows: Vec<Vec<Option<usize>>> = vec![vec![None, None]];
    assert_eq!(bittable_positions(&rows), Ok(vec![]));
}
