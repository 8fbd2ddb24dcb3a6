use ptouch::{complement, pack_bits, Config, Endless, Media};

#[test]
fn build_config_with_default() {
    let config = Config::default();
    let media = Media::Endless(Endless::Endless62);

    if let Ok(buf) = config.build(media) {
        assert_eq!(
            buf,
            [27, 105, 100, 35, 0, 27, 105, 77, 64, 27, 105, 65, 1, 27, 105, 75, 8]
        );
    };
}

#[test]
fn test_complement() {
    assert_eq!(complement(89), (89i8 * (-1i8)) as u8);
}

#[test]
fn pack_bits_all_zero() {
    let src: Vec<u8> = vec![0x00u8; 90];
    let dist = pack_bits(src);
    assert_eq!(dist, vec![complement(89), 0]);
}

#[test]
fn pack_bits_end_filled() {
    let src = vec![
        0, 0, 0, 0, 0, 0, 0, 0, 0, 0, 22, 22, 22, 23, 54, 99, 251, 32, 0, 0, 0, 0,
    ];
    let dist = pack_bits(src);
    assert_eq!(
        dist,
        vec![
            complement(9),
            0,
            complement(2),
            22,
            4,
            23,
            54,
            99,
            251,
            32,
            complement(3),
            0,
        ]
    );
}

#[test]
fn pack_bits_end_literal() {
    let src = vec![0, 0, 0, 0, 0, 0, 0, 0, 0, 0, 22, 22, 22, 23, 54, 99, 251, 32];
    let dist = pack_bits(src);
    assert_eq!(
        dist,
        vec![complement(9), 0, complement(2), 22, 4, 23, 54, 99, 251, 32]
    );
}

#[test]
fn pack_bits_start_literal() {
    let src = vec![
        1, 0, 0, 0, 0, 0, 0, 0, 0, 0, 0, 22, 22, 22, 23, 54, 99, 251, 32, 0, 0, 0, 0,
    ];
    let dist = pack_bits(src);
    assert_eq!(
        dist,
        vec![
            0,
            1,
            complement(9),
            0,
            complement(2),
            22,
            4,
            23,
            54,
            99,
            251,
            32,
            complement(3),
            0
        ]
    );
}

#[test]
fn pack_bits_all_different() {
    let src = (0..90).collect();
    let dist = pack_bits(src);
    assert_eq!(dist.len(), 91);
    assert_eq!(dist[0], 89);
    assert_eq!(dist[1..91], (0..90).collect::<Vec<u8>>());
}
