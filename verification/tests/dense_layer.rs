use tile_layers::chunk::layer::{DenseLayer, Layer};
use tile_layers::chunk::raw_tile::{RawTile, TileTrait};
use tile_layers::chunk::storage::COUNT_EVERY_WRITE;
use tile_layers::color::Color;
use tile_layers::dimension::Dimension3;

fn color(red: f32, green: f32, blue: f32, alpha: f32) -> Color {
    Color::rgba(red.to_bits(), green.to_bits(), blue.to_bits(), alpha.to_bits())
}

fn hidden_tile() -> RawTile {
    RawTile { index: 0, color: color(1.0, 1.0, 1.0, 0.0) }
}

fn red_tile() -> RawTile {
    RawTile { index: 7, color: color(1.0, 0.0, 0.0, 1.0) }
}

fn hidden_layer(length: usize) -> DenseLayer<RawTile> {
    DenseLayer::new(vec![hidden_tile(); length])
}

#[test]
fn dense_layer_of_hidden_tiles_lists_no_index() {
    for length in [0usize, 1, 4, 9] {
        let layer = hidden_layer(length);
        assert_eq!(layer.get_tile_indices(), Vec::<usize>::new());
    }
}

#[test]
fn dense_layer_lists_the_index_of_a_visible_write() {
    for index in 0..4usize {
        let mut layer = hidden_layer(4);
        assert!(layer.set_tile(index, red_tile()));
        assert_eq!(layer.get_tile_indices(), vec![index]);
    }
}

#[test]
fn dense_layer_starts_with_a_count_of_zero() {
    assert_eq!(hidden_layer(3).tile_count(), 0);
    assert_eq!(DenseLayer::new(vec![red_tile(); 3]).tile_count(), 0);
}

#[test]
fn dense_write_out_of_bounds_changes_nothing() {
    let mut layer = hidden_layer(4);
    layer.set_tile(1, red_tile());
    let before = layer.clone();
    assert!(!layer.set_tile(4, red_tile()));
    assert!(!layer.set_tile(5, red_tile()));
    assert!(!layer.set_tile(usize::MAX, red_tile()));
    assert_eq!(layer, before);
    assert_eq!(layer.tile_count(), 1);
    assert_eq!(layer.tiles_to_attributes(Dimension3::new(2, 2, 1)).0.len(), 16);
}

#[test]
fn dense_write_to_an_empty_layer_is_dropped() {
    let mut layer: DenseLayer<RawTile> = DenseLayer::new(Vec::new());
    assert!(!layer.set_tile(0, red_tile()));
    assert_eq!(layer.tile_count(), 0);
    assert_eq!(layer.get_tile(0), None);
}

#[test]
fn dense_write_overwrites_in_place() {
    let mut layer = hidden_layer(3);
    let green = RawTile { index: 2, color: color(0.0, 1.0, 0.0, 1.0) };
    assert!(layer.set_tile(1, red_tile()));
    assert_eq!(layer.get_tile(1), Some(&red_tile()));
    assert!(layer.set_tile(1, green));
    assert_eq!(layer.get_tile(1), Some(&green));
    assert_eq!(layer.get_tile(0), None);
    assert_eq!(layer.get_tile(2), None);
}

#[test]
fn dense_count_goes_up_with_every_write() {
    assert!(COUNT_EVERY_WRITE);
    let mut layer = hidden_layer(3);
    layer.set_tile(1, red_tile());
    assert_eq!(layer.tile_count(), 1);
    layer.set_tile(1, red_tile());
    assert_eq!(layer.tile_count(), 2);
    layer.set_tile(1, hidden_tile());
    assert_eq!(layer.tile_count(), 3);
    assert_eq!(layer.get_tile_indices(), Vec::<usize>::new());
}

#[test]
fn dense_count_goes_down_to_zero_and_stays() {
    let mut layer = hidden_layer(3);
    layer.set_tile(0, red_tile());
    layer.set_tile(1, red_tile());
    layer.remove_tile(0);
    assert_eq!(layer.tile_count(), 1);
    layer.remove_tile(0);
    assert_eq!(layer.tile_count(), 0);
    layer.remove_tile(1);
    assert_eq!(layer.tile_count(), 0);
    layer.remove_tile(2);
    assert_eq!(layer.tile_count(), 0);
}

#[test]
fn dense_remove_out_of_bounds_changes_nothing() {
    let mut layer = hidden_layer(2);
    layer.set_tile(0, red_tile());
    let before = layer.clone();
    layer.remove_tile(2);
    layer.remove_tile(usize::MAX);
    assert_eq!(layer, before);
    assert_eq!(layer.tile_count(), 1);
}

#[test]
fn dense_remove_hides_the_tile_and_keeps_the_cell() {
    let mut layer = hidden_layer(4);
    layer.set_tile(2, red_tile());
    layer.remove_tile(2);
    assert_eq!(layer.get_tile(2), None);
    assert_eq!(layer.get_tile_indices(), Vec::<usize>::new());
    let (indexes, colors) = layer.tiles_to_attributes(Dimension3::new(2, 2, 1));
    assert_eq!(indexes.len(), 16);
    assert_eq!(colors.len(), 16);
    for slot in 8..12 {
        assert_eq!(indexes[slot], 7);
        assert_eq!(colors[slot], color(1.0, 0.0, 0.0, 0.0));
        assert!(colors[slot].alpha_is_zero());
    }
}

#[test]
fn dense_remove_hides_a_tile_that_was_never_counted() {
    let mut layer = DenseLayer::new(vec![red_tile(); 2]);
    assert_eq!(layer.tile_count(), 0);
    assert_eq!(layer.get_tile(0), Some(&red_tile()));
    layer.remove_tile(0);
    assert_eq!(layer.tile_count(), 0);
    assert_eq!(layer.get_tile(0), None);
    assert_eq!(layer.get_tile(1), Some(&red_tile()));
}

#[test]
fn dense_read_does_not_show_a_hidden_tile() {
    let mut layer = hidden_layer(2);
    assert!(layer.set_tile(0, RawTile { index: 5, color: color(0.5, 0.5, 0.5, 0.0) }));
    assert_eq!(layer.get_tile(0), None);
    assert!(layer.get_tile_mut(0).is_none());
    assert!(layer.set_tile(1, RawTile { index: 5, color: color(0.5, 0.5, 0.5, -0.0) }));
    assert_eq!(layer.get_tile(1), None);
}

#[test]
fn dense_read_past_the_end_finds_nothing() {
    let mut layer = DenseLayer::new(vec![red_tile(); 2]);
    assert_eq!(layer.get_tile(2), None);
    assert_eq!(layer.get_tile(usize::MAX), None);
    assert!(layer.get_tile_mut(2).is_none());
}

#[test]
fn dense_mutable_read_changes_the_tile_in_the_layer() {
    let mut layer = hidden_layer(3);
    layer.set_tile(1, red_tile());
    match layer.get_tile_mut(1) {
        Some(tile) => {
            assert_eq!(*tile, red_tile());
            tile.index = 11;
        },
        None => panic!("the tile at 1 is visible"),
    }
    assert_eq!(layer.get_tile(1), Some(&RawTile { index: 11, color: color(1.0, 0.0, 0.0, 1.0) }));
    assert_eq!(layer.tile_count(), 1);
}

#[test]
fn dense_tile_hidden_through_a_mutable_read_is_not_shown() {
    let mut layer = hidden_layer(3);
    layer.set_tile(1, red_tile());
    if let Some(tile) = layer.get_tile_mut(1) {
        tile.hide_tile();
    }
    assert_eq!(layer.get_tile(1), None);
    assert_eq!(layer.tile_count(), 1);
}

#[test]
fn dense_indices_ascend_and_skip_hidden_tiles() {
    let mut layer = hidden_layer(6);
    layer.set_tile(5, red_tile());
    layer.set_tile(0, red_tile());
    layer.set_tile(3, red_tile());
    layer.set_tile(4, hidden_tile());
    assert_eq!(layer.get_tile_indices(), vec![0, 3, 5]);
    layer.remove_tile(3);
    assert_eq!(layer.get_tile_indices(), vec![0, 5]);
}

#[test]
fn dense_clear_leaves_no_cell_and_keeps_the_count() {
    let mut layer = hidden_layer(4);
    layer.set_tile(2, red_tile());
    layer.clear();
    assert_eq!(layer.tile_count(), 1);
    assert_eq!(layer.get_tile(2), None);
    assert_eq!(layer.get_tile_indices(), Vec::<usize>::new());
    assert!(!layer.set_tile(0, red_tile()));
    let (indexes, colors) = layer.tiles_to_attributes(Dimension3::new(2, 2, 1));
    assert!(indexes.is_empty());
    assert!(colors.is_empty());
}

#[test]
fn dense_attributes_of_one_red_tile_among_hidden_ones() {
    let mut layer = hidden_layer(4);
    layer.set_tile(2, red_tile());
    let (indexes, colors) = layer.tiles_to_attributes(Dimension3::new(2, 2, 1));
    assert_eq!(indexes.len(), 16);
    assert_eq!(colors.len(), 16);
    for slot in 0..16 {
        if (8..12).contains(&slot) {
            assert_eq!(indexes[slot], 7);
            assert_eq!(colors[slot], color(1.0, 0.0, 0.0, 1.0));
        } else {
            assert_eq!(indexes[slot], 0);
            assert_eq!(colors[slot], color(1.0, 1.0, 1.0, 0.0));
        }
    }
}

#[test]
fn dense_attributes_do_not_depend_on_the_dimension() {
    let mut layer = hidden_layer(3);
    layer.set_tile(0, red_tile());
    let small = layer.tiles_to_attributes(Dimension3::new(0, 0, 0));
    let large = layer.tiles_to_attributes(Dimension3::new(u32::MAX, u32::MAX, 1));
    assert_eq!(small, large);
    assert_eq!(small.0.len(), 12);
}
