use ptouch::{DieCut, Endless, Error, Media, PRINTER_WIDTH};

#[test]
fn continuous_feed_bounds() {
    let media = Media::Endless(Endless::Endless62);
    assert!(matches!(media.check_feed_value(34), Err(Error::InvalidConfig(_))));
    assert_eq!(media.check_feed_value(35).unwrap(), 35);
    assert_eq!(media.check_feed_value(1500).unwrap(), 1500);
    assert!(matches!(media.check_feed_value(1501), Err(Error::InvalidConfig(_))));
    assert!(matches!(media.check_feed_value(0), Err(Error::InvalidConfig(_))));
}

#[test]
fn die_cut_feed_bounds() {
    let media = Media::DieCut(DieCut::DieCut62x29);
    assert_eq!(media.check_feed_value(0).unwrap(), 0);
    assert!(matches!(media.check_feed_value(1), Err(Error::InvalidConfig(_))));
    assert!(matches!(media.check_feed_value(35), Err(Error::InvalidConfig(_))));
}

#[test]
fn default_feeds() {
    assert_eq!(Media::Endless(Endless::Endless29).get_default_feed_dots(), 35);
    assert_eq!(Media::DieCut(DieCut::DieCut17x54).get_default_feed_dots(), 0);
}

#[test]
fn geometry_of_continuous_62() {
    let media = Media::Endless(Endless::Endless62);
    assert_eq!(media.effective(), 696);
    assert_eq!(media.offset(), 12);
    assert_eq!(media.scaled_length(348, 100), 200);
}

#[test]
fn die_cut_length_is_fixed() {
    let media = Media::DieCut(DieCut::DieCut62x100);
    assert_eq!(media.scaled_length(1, 5), 1109);
    assert_eq!(media.effective(), 696);
}

#[test]
fn media_command_bytes() {
    let mut buf = vec![0xAA];
    Media::Endless(Endless::Endless62).set_media(&mut buf, true);
    assert_eq!(buf, vec![0xAA, 0x86, 0x0A, 62, 0]);
    let mut buf = Vec::new();
    Media::DieCut(DieCut::DieCut29x90).set_media(&mut buf, false);
    assert_eq!(buf, vec![0x0E, 0x0B, 29, 90]);
}

#[test]
fn media_from_status_codes() {
    let mut buf = [0u8; 32];
    buf[10] = 62;
    buf[11] = 0x0A;
    assert_eq!(Media::from_buf(buf), Some(Media::Endless(Endless::Endless62)));
    buf[11] = 0x4A;
    assert_eq!(Media::from_buf(buf), Some(Media::Endless(Endless::Endless62)));
    buf[11] = 0x0B;
    buf[17] = 29;
    assert_eq!(Media::from_buf(buf), Some(Media::DieCut(DieCut::DieCut62x29)));
    buf[17] = 30;
    assert_eq!(Media::from_buf(buf), None);
    buf[11] = 0x00;
    assert_eq!(Media::from_buf(buf), None);
}

#[test]
fn printer_widths() {
    assert_eq!(PRINTER_WIDTH::NORMAL.to_int(), 720);
    assert_eq!(PRINTER_WIDTH::WIDE.to_int(), 1296);
}
