use raytracer::render::{frame_from_columns, sample_grid};

#[test]
fn columns_land_in_place() {
    let columns = vec![
        vec![(1u8, 2u8, 3u8), (4, 5, 6), (7, 8, 9)],
        vec![(10u8, 11u8, 12u8), (13, 14, 15), (255, 0, 128)],
    ];
    let frame = frame_from_columns(2, 3, &columns);
    assert_eq!(frame.width(), 2);
    assert_eq!(frame.height(), 3);
    for x in 0..2u32 {
        for y in 0..3u32 {
            assert_eq!(frame.pixel(x, y), columns[x as usize][y as usize]);
        }
    }
}

#[test]
fn bytes_are_row_major() {
    let columns = vec![
        vec![(1u8, 2u8, 3u8), (4, 5, 6)],
        vec![(7u8, 8u8, 9u8), (10, 11, 12)],
    ];
    let frame = frame_from_columns(2, 2, &columns);
    assert_eq!(frame.to_bytes(), vec![1, 2, 3, 7, 8, 9, 4, 5, 6, 10, 11, 12]);
}

#[test]
fn empty_frame() {
    let columns: Vec<Vec<(u8, u8, u8)>> = Vec::new();
    let frame = frame_from_columns(0, 0, &columns);
    assert_eq!(frame.width(), 0);
    assert!(frame.to_bytes().is_empty());
}

#[test]
fn sample_rows_are_flipped() {
    let g = sample_grid(0, 0, 4, 3);
    assert_eq!((g.u_num, g.u_den, g.v_num, g.v_den), (0, 3, 3, 2));
    let g = sample_grid(3, 2, 4, 3);
    assert_eq!((g.u_num, g.u_den, g.v_num, g.v_den), (3, 3, 1, 2));
}
