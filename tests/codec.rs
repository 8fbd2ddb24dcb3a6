use ptouch::{complement, pack_bits, unpack_bits};

#[test]
fn pack_round_trip_on_mixed_rows() {
    let rows: Vec<Vec<u8>> = vec![
        vec![7],
        vec![1, 2],
        vec![5, 5],
        vec![0, 0, 0, 0, 0, 0, 0, 0, 0, 0, 22, 22, 22, 23, 54, 99, 251, 32, 0, 0, 0, 0],
        (0..90).map(|i| (i * 7 % 13) as u8).collect(),
        (0..90).map(|i| if i % 3 == 0 { 9 } else { 4 }).collect(),
        vec![0xFF; 90],
    ];
    for row in rows {
        assert_eq!(unpack_bits(pack_bits(row.clone())), row);
    }
}

#[test]
fn pack_single_byte_is_one_literal() {
    assert_eq!(pack_bits(vec![42]), vec![0, 42]);
}

#[test]
fn pack_empty_row_is_empty() {
    assert_eq!(pack_bits(Vec::new()), Vec::<u8>::new());
}

#[test]
fn pack_splits_long_fill_runs() {
    let src = vec![3u8; 200];
    let packed = pack_bits(src.clone());
    assert_eq!(packed, vec![complement(127), 3, complement(71), 3]);
    assert_eq!(unpack_bits(packed), src);
}

#[test]
fn pack_splits_long_literal_runs() {
    let src: Vec<u8> = (0..200).map(|i| i as u8).collect();
    let packed = pack_bits(src.clone());
    assert_eq!(packed.len(), 202);
    assert_eq!(packed[0], 127);
    assert_eq!(packed[129], 71);
    assert_eq!(unpack_bits(packed), src);
}

#[test]
fn unpack_known_stream() {
    assert_eq!(unpack_bits(vec![complement(2), 9, 1, 4, 5, 128]), vec![9, 9, 9, 4, 5]);
}

#[test]
fn complement_negates() {
    assert_eq!(complement(0), 0);
    assert_eq!(complement(1), 255);
    assert_eq!(complement(127), 129);
}
