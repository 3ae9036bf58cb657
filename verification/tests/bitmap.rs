use lightsync::bitmap::flatten_bitmap;
use lightsync::bitmap::BITMAP_BYTES_PER_KEY;
use lightsync::bitmap::BITMAP_HEIGHT;
use lightsync::bitmap::BITMAP_WIDTH;
use lightsync::BITMAP_SIZE;

#[test]
fn bitmap_constants_agree() {
    assert_eq!(BITMAP_WIDTH, 21);
    assert_eq!(BITMAP_HEIGHT, 6);
    assert_eq!(BITMAP_BYTES_PER_KEY, 4);
    assert_eq!(BITMAP_SIZE, 21 * 6 * 4);
}

#[test]
fn all_zero_grid_flattens_to_all_zero_payload() {
    let grid = [[[0u8; 4]; 21]; 6];
    let payload = flatten_bitmap(&grid);
    assert_eq!(payload.len(), (21 * 6 * 4) as usize);
    assert!(payload.iter().all(|b| *b == 0));
}

#[test]
fn cells_land_at_their_row_major_offsets() {
    let mut grid = [[[0u8; 4]; 21]; 6];
    grid[0][0] = [1, 2, 3, 255];
    grid[1][2] = [9, 8, 7, 255];
    grid[5][20] = [11, 22, 33, 44];
    let payload = flatten_bitmap(&grid);
    assert_eq!(&payload[0..4], &[1, 2, 3, 255]);
    let mid = 1 * 84 + 2 * 4;
    assert_eq!(&payload[mid..mid + 4], &[9, 8, 7, 255]);
    let last = 5 * 84 + 20 * 4;
    assert_eq!(&payload[last..last + 4], &[11, 22, 33, 44]);
    assert_eq!(last + 4, payload.len());
}

#[test]
fn untouched_cells_keep_zero_alpha() {
    let mut grid = [[[0u8; 4]; 21]; 6];
    grid[2][3] = [100, 100, 100, 255];
    let payload = flatten_bitmap(&grid);
    let lit = 2 * 84 + 3 * 4;
    for i in 0..payload.len() {
        if i >= lit && i < lit + 4 {
            continue;
        }
        assert_eq!(payload[i], 0);
    }
}
