use esp_temperature::color_temp::{kelvin_table, nearest_color};

#[test]
fn table_spans_the_kelvin_range() {
    let table = kelvin_table();
    assert_eq!(table.len(), 111);
    assert_eq!(table[0].color_temp, 1000);
    assert_eq!((table[0].r(), table[0].g(), table[0].b()), (255, 56, 0));
    assert_eq!(table[110].color_temp, 12000);
    assert_eq!(
        (table[110].r(), table[110].g(), table[110].b()),
        (195, 209, 255)
    );
}

#[test]
fn exact_temperatures_hit_their_row() {
    let row = nearest_color(1000);
    assert_eq!((row.r(), row.g(), row.b()), (255, 56, 0));
    let row = nearest_color(6500);
    assert_eq!((row.r(), row.g(), row.b()), (255, 249, 253));
    let row = nearest_color(12000);
    assert_eq!((row.r(), row.g(), row.b()), (195, 209, 255));
}

#[test]
fn out_of_range_clamps_to_nearest_end() {
    assert_eq!(nearest_color(0).color_temp, 1000);
    assert_eq!(nearest_color(700), nearest_color(1000));
    assert_eq!(nearest_color(65535).color_temp, 12000);
}

#[test]
fn midpoints_round_to_the_cooler_row() {
    // 1050 lies equally far from 1000 and 1100; the earlier row wins.
    assert_eq!(nearest_color(1050).color_temp, 1000);
    assert_eq!(nearest_color(1051).color_temp, 1100);
    assert_eq!(nearest_color(1049).color_temp, 1000);
}
