use sc2_gamedata::pixel_map::{
    decode_visibility, to_binary, to_binary_bitwise, unpack_all, ByteMap, DecodeError, Pixel,
    PixelMap, Visibility, VisibilityMap,
};
use sc2_gamedata::wire::{ImageData, Size2DI};

fn image(bits_per_pixel: i32, x: i32, y: i32, data: Vec<u8>) -> ImageData {
    ImageData { bits_per_pixel, size: Size2DI { x, y }, data }
}

#[test]
fn pixel_predicates_and_codes() {
    assert!(Pixel::Empty.is_empty());
    assert!(!Pixel::Empty.is_set());
    assert!(Pixel::Filled.is_set());
    assert!(!Pixel::Filled.is_empty());
    assert_eq!(Pixel::from_u8(0), Some(Pixel::Filled));
    assert_eq!(Pixel::from_u8(1), Some(Pixel::Empty));
    assert_eq!(Pixel::from_u8(2), None);
    assert_eq!(Pixel::Filled.to_u8(), 0);
    assert_eq!(Pixel::Empty.to_u8(), 1);
    assert_eq!(Pixel::default(), Pixel::Empty);
    assert_eq!(Pixel::Empty.digit(), '0');
    assert_eq!(Pixel::Filled.digit(), '1');
}

#[test]
fn visibility_predicates_and_codes() {
    assert_eq!(Visibility::from_u8(0), Some(Visibility::Hidden));
    assert_eq!(Visibility::from_u8(1), Some(Visibility::Fogged));
    assert_eq!(Visibility::from_u8(2), Some(Visibility::Visible));
    assert_eq!(Visibility::from_u8(3), Some(Visibility::FullHidden));
    assert_eq!(Visibility::from_u8(4), None);
    assert_eq!(Visibility::from_u8(255), None);
    for n in 0..4u8 {
        assert_eq!(Visibility::from_u8(n).unwrap().to_u8(), n);
    }
    assert!(Visibility::Hidden.is_hidden());
    assert!(Visibility::Fogged.is_fogged());
    assert!(Visibility::Visible.is_visible());
    assert!(Visibility::FullHidden.is_full_hidden());
    assert!(!Visibility::Hidden.is_explored());
    assert!(Visibility::Fogged.is_explored());
    assert!(Visibility::Visible.is_explored());
    assert!(Visibility::FullHidden.is_explored());
    assert!(!Visibility::Visible.is_hidden());
    assert!(!Visibility::Hidden.is_visible());
    assert_eq!(Visibility::default(), Visibility::Hidden);
}

#[test]
fn to_binary_reads_the_most_significant_bit_first() {
    let e = Pixel::Empty;
    let f = Pixel::Filled;
    assert_eq!(to_binary(0b1000_0001), vec![e, f, f, f, f, f, f, e]);
    assert_eq!(to_binary(0b0100_0000), vec![f, e, f, f, f, f, f, f]);
    assert_eq!(to_binary(0b1010_0101), vec![e, f, e, f, f, e, f, e]);
    assert_eq!(to_binary(0), vec![f; 8]);
    assert_eq!(to_binary(255), vec![e; 8]);
}

#[test]
fn to_binary_short_cut_agrees_with_bitwise_for_every_byte() {
    for n in 0..=255u8 {
        let cells = to_binary(n);
        assert_eq!(cells, to_binary_bitwise(n));
        assert_eq!(cells.len(), 8);
        for i in 0..8 {
            let bit = (n >> (7 - i)) & 1;
            assert_eq!(cells[i], Pixel::from_u8(bit).unwrap());
        }
    }
}

#[test]
fn unpack_all_keeps_the_order_of_the_bytes() {
    let e = Pixel::Empty;
    let f = Pixel::Filled;
    assert_eq!(unpack_all(&vec![]), vec![]);
    assert_eq!(
        unpack_all(&vec![0xF0, 0x01]),
        vec![e, e, e, e, f, f, f, f, f, f, f, f, f, f, f, e]
    );
}

#[test]
fn pixel_map_of_zero_bytes_is_all_filled() {
    let m = PixelMap::from_proto(image(1, 8, 3, vec![0x00; 3])).unwrap();
    assert_eq!(m.dim(), (8, 3));
    for x in 0..8 {
        for y in 0..3 {
            assert_eq!(m.get(x, y), Some(Pixel::Filled));
        }
    }
}

#[test]
fn pixel_map_of_full_bytes_is_all_empty() {
    let m = PixelMap::from_proto(image(1, 8, 3, vec![0xFF; 3])).unwrap();
    assert_eq!(m.dim(), (8, 3));
    for x in 0..8 {
        for y in 0..3 {
            assert_eq!(m.get(x, y), Some(Pixel::Empty));
        }
    }
}

#[test]
fn pixel_map_is_indexed_by_column_then_row() {
    let m = PixelMap::from_proto(image(1, 4, 2, vec![0b1010_0111])).unwrap();
    assert_eq!(m.dim(), (4, 2));
    let e = Some(Pixel::Empty);
    let f = Some(Pixel::Filled);
    assert_eq!([m.get(0, 0), m.get(1, 0), m.get(2, 0), m.get(3, 0)], [e, f, e, f]);
    assert_eq!([m.get(0, 1), m.get(1, 1), m.get(2, 1), m.get(3, 1)], [f, e, e, e]);
    assert_eq!(m.get(4, 0), None);
    assert_eq!(m.get(0, 2), None);
    assert_eq!(m.get(1, 3), None);
}

#[test]
fn pixel_map_rows_may_cross_byte_borders() {
    let m = PixelMap::from_proto(image(1, 2, 8, vec![0b0110_0000, 0b0000_0010])).unwrap();
    assert_eq!(m.dim(), (2, 8));
    for y in 0..8 {
        for x in 0..2 {
            let k = y * 2 + x;
            let expected = if k == 1 || k == 2 || k == 14 { Pixel::Empty } else { Pixel::Filled };
            assert_eq!(m.get(x, y), Some(expected));
        }
    }
}

#[test]
fn pixel_map_with_the_wrong_cell_count_is_a_shape_error() {
    assert_eq!(PixelMap::from_proto(image(1, 3, 2, vec![0])).unwrap_err(), DecodeError::Shape);
    assert_eq!(PixelMap::from_proto(image(1, 8, 2, vec![0])).unwrap_err(), DecodeError::Shape);
    assert_eq!(PixelMap::from_proto(image(1, 8, 1, vec![0, 0])).unwrap_err(), DecodeError::Shape);
    assert_eq!(PixelMap::from_proto(image(1, 8, 1, vec![])).unwrap_err(), DecodeError::Shape);
}

#[test]
fn negative_sizes_are_shape_errors() {
    assert_eq!(PixelMap::from_proto(image(1, -1, 0, vec![])).unwrap_err(), DecodeError::Shape);
    assert_eq!(PixelMap::from_proto(image(1, -4, -2, vec![0])).unwrap_err(), DecodeError::Shape);
    assert_eq!(ByteMap::from_proto(image(8, 0, -1, vec![])).unwrap_err(), DecodeError::Shape);
    assert_eq!(ByteMap::from_proto(image(8, -2, -3, vec![0; 6])).unwrap_err(), DecodeError::Shape);
    assert_eq!(
        VisibilityMap::from_proto(image(8, -1, -1, vec![0])).unwrap_err(),
        DecodeError::Shape
    );
}

#[test]
fn empty_grids_are_valid() {
    assert_eq!(PixelMap::from_proto(image(1, 0, 0, vec![])).unwrap().dim(), (0, 0));
    let m = ByteMap::from_proto(image(8, 0, 5, vec![])).unwrap();
    assert_eq!(m.dim(), (0, 5));
    assert_eq!(m.get(0, 0), None);
    let m = VisibilityMap::from_proto(image(8, 7, 0, vec![])).unwrap();
    assert_eq!(m.dim(), (7, 0));
    assert_eq!(m.get(0, 0), None);
}

#[test]
fn byte_map_one_byte_short_is_a_shape_error() {
    let r = ByteMap::from_proto(image(8, 3, 2, vec![1, 2, 3, 4, 5]));
    assert_eq!(r.unwrap_err(), DecodeError::Shape);
}

#[test]
fn byte_map_one_byte_long_is_a_shape_error() {
    let r = ByteMap::from_proto(image(8, 3, 2, vec![1, 2, 3, 4, 5, 6, 7]));
    assert_eq!(r.unwrap_err(), DecodeError::Shape);
}

#[test]
fn byte_map_is_indexed_by_column_then_row() {
    let m = ByteMap::from_proto(image(8, 3, 2, vec![10, 11, 12, 20, 21, 22])).unwrap();
    assert_eq!(m.dim(), (3, 2));
    assert_eq!(m.get(0, 0), Some(10));
    assert_eq!(m.get(1, 0), Some(11));
    assert_eq!(m.get(2, 0), Some(12));
    assert_eq!(m.get(0, 1), Some(20));
    assert_eq!(m.get(1, 1), Some(21));
    assert_eq!(m.get(2, 1), Some(22));
    assert_eq!(m.get(3, 0), None);
    assert_eq!(m.get(0, 2), None);
    assert_eq!(m.get(2, 2), None);
}

#[test]
fn byte_map_passes_every_value_through() {
    let data: Vec<u8> = (0..=255).collect();
    let m = ByteMap::from_proto(image(8, 16, 16, data)).unwrap();
    for y in 0..16 {
        for x in 0..16 {
            assert_eq!(m.get(x, y), Some((y * 16 + x) as u8));
        }
    }
}

#[test]
fn visibility_map_decodes_the_four_states() {
    let m = VisibilityMap::from_proto(image(8, 4, 1, vec![0, 1, 2, 3])).unwrap();
    assert_eq!(m.dim(), (4, 1));
    assert_eq!(m.get(0, 0), Some(Visibility::Hidden));
    assert_eq!(m.get(1, 0), Some(Visibility::Fogged));
    assert_eq!(m.get(2, 0), Some(Visibility::Visible));
    assert_eq!(m.get(3, 0), Some(Visibility::FullHidden));
}

#[test]
fn visibility_map_is_indexed_by_column_then_row() {
    let m = VisibilityMap::from_proto(image(8, 2, 3, vec![0, 1, 2, 3, 1, 0])).unwrap();
    assert_eq!(m.dim(), (2, 3));
    assert_eq!(m.get(1, 0), Some(Visibility::Fogged));
    assert_eq!(m.get(0, 1), Some(Visibility::Visible));
    assert_eq!(m.get(1, 1), Some(Visibility::FullHidden));
    assert_eq!(m.get(0, 2), Some(Visibility::Fogged));
    assert_eq!(m.get(1, 2), Some(Visibility::Hidden));
    assert_eq!(m.get(2, 0), None);
}

#[test]
fn visibility_byte_four_is_a_decode_error() {
    let r = VisibilityMap::from_proto(image(8, 4, 1, vec![0, 1, 2, 4]));
    assert_eq!(r.unwrap_err(), DecodeError::Visibility(4));
}

#[test]
fn visibility_reports_the_first_bad_byte_before_the_shape() {
    let r = VisibilityMap::from_proto(image(8, 2, 2, vec![0, 9, 200, 1, 3]));
    assert_eq!(r.unwrap_err(), DecodeError::Visibility(9));
    let r = VisibilityMap::from_proto(image(8, 2, 2, vec![0, 1, 3]));
    assert_eq!(r.unwrap_err(), DecodeError::Shape);
    assert_eq!(decode_visibility(&vec![3, 3, 7, 8]), Err(DecodeError::Visibility(7)));
    assert_eq!(
        decode_visibility(&vec![2, 0]),
        Ok(vec![Visibility::Visible, Visibility::Hidden])
    );
}

#[test]
fn set_writes_one_cell_and_no_other() {
    let mut m = ByteMap::from_proto(image(8, 3, 2, vec![10, 11, 12, 20, 21, 22])).unwrap();
    assert!(m.set(2, 1, 99));
    assert_eq!(m.dim(), (3, 2));
    let mut seen = vec![];
    for y in 0..2 {
        for x in 0..3 {
            seen.push(m.get(x, y).unwrap());
        }
    }
    assert_eq!(seen, vec![10, 11, 12, 20, 21, 99]);
    assert!(!m.set(3, 0, 1));
    assert!(!m.set(0, 2, 1));
    assert_eq!(m.get(0, 0), Some(10));

    let mut p = PixelMap::from_proto(image(1, 4, 2, vec![0])).unwrap();
    assert!(p.set(3, 0, Pixel::Empty));
    assert_eq!(p.get(3, 0), Some(Pixel::Empty));
    assert_eq!(p.get(0, 1), Some(Pixel::Filled));
    assert!(!p.set(0, 2, Pixel::Empty));

    let mut v = VisibilityMap::from_proto(image(8, 1, 2, vec![0, 0])).unwrap();
    assert!(v.set(0, 1, Visibility::Visible));
    assert_eq!(v.get(0, 1), Some(Visibility::Visible));
    assert_eq!(v.get(0, 0), Some(Visibility::Hidden));
    assert!(!v.set(1, 0, Visibility::Visible));
}
