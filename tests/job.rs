use ptouch::{
    initialize, status_request, Action, Awaiting, DieCut, Endless, Error, Matrix, Media, Printer,
    Status,
};

/// A transport that records what is written and answers every status read
/// with the same reply.
struct Mock {
    reply: [u8; 32],
    writes: Vec<Vec<u8>>,
    reads: usize,
}

fn receiving_reply(width: u8, kind: u8) -> [u8; 32] {
    let mut buf = [0u8; 32];
    buf[4] = 0x38;
    buf[10] = width;
    buf[11] = kind;
    buf[19] = 0x00;
    buf
}

fn run(printer: &Printer, mock: &mut Mock, pages: Vec<Matrix>) -> Result<(), Error> {
    let mut pages = pages.into_iter();
    let mut job = printer.start_print();
    assert_eq!(job.awaiting(), Awaiting::Start);
    let mut action = job.start();
    loop {
        action = match action {
            Action::Write(bytes) => {
                assert_eq!(job.awaiting(), Awaiting::WriteResult);
                let n = bytes.len();
                mock.writes.push(bytes);
                job.on_written(Ok(n))
            }
            Action::ReadStatus => {
                assert_eq!(job.awaiting(), Awaiting::StatusReply);
                mock.reads += 1;
                job.on_status(Ok(Status::from_buf(mock.reply)))
            }
            Action::NextPage => {
                assert_eq!(job.awaiting(), Awaiting::Page);
                job.on_page(pages.next())
            }
            Action::Finish(result) => {
                assert_eq!(job.awaiting(), Awaiting::Nothing);
                return result;
            }
        }
    }
}

fn preamble_62() -> Vec<u8> {
    let mut bytes = initialize();
    bytes.extend_from_slice(&[0x1B, 0x69, 0x61, 0x01, 0x1B, 0x69, 0x21, 0x00, 0x4D, 0x00]);
    bytes.extend_from_slice(&[27, 105, 100, 35, 0, 27, 105, 77, 64, 27, 105, 65, 1, 27, 105, 75, 8]);
    bytes
}

fn page_head(lines: u8, marker: u8) -> Vec<u8> {
    vec![0x1B, 0x69, 0x7A, 0x86, 0x0A, 62, 0, lines, 0, 0, 0, marker, 0x00]
}

#[test]
fn two_pages_on_continuous_62() {
    let media = Media::Endless(Endless::Endless62);
    let printer = Printer::new(media);
    let mut mock = Mock { reply: receiving_reply(62, 0x0A), writes: Vec::new(), reads: 0 };
    let matrix_a: Matrix = vec![vec![0xAA; 90], vec![0x55; 90]];
    let matrix_b: Matrix = vec![vec![0x0F; 90]];

    run(&printer, &mut mock, vec![matrix_a, matrix_b]).unwrap();

    assert_eq!(mock.writes.len(), 3);
    assert_eq!(mock.writes[0], status_request());
    assert_eq!(mock.reads, 2);

    let mut first = preamble_62();
    first.extend(page_head(2, 0x00));
    first.extend([0x67, 0x00, 90]);
    first.extend(vec![0xAA; 90]);
    first.extend([0x67, 0x00, 90]);
    first.extend(vec![0x55; 90]);
    first.push(0x0C);
    assert_eq!(mock.writes[1], first);

    let mut second = page_head(1, 0x01);
    second.extend([0x67, 0x00, 90]);
    second.extend(vec![0x0F; 90]);
    second.push(0x1A);
    assert_eq!(mock.writes[2], second);
}

#[test]
fn single_page_is_ejected_without_extra_read() {
    let printer = Printer::new(Media::Endless(Endless::Endless62));
    let mut mock = Mock { reply: receiving_reply(62, 0x0A), writes: Vec::new(), reads: 0 };
    run(&printer, &mut mock, vec![vec![vec![0x01; 90]]]).unwrap();
    assert_eq!(mock.writes.len(), 2);
    assert_eq!(mock.reads, 1);
    assert_eq!(*mock.writes[1].last().unwrap(), 0x1A);
    assert!(mock.writes[1].starts_with(&preamble_62()));
}

#[test]
fn media_mismatch_stops_before_any_frame() {
    let printer = Printer::new(Media::Endless(Endless::Endless29));
    let mut mock = Mock { reply: receiving_reply(62, 0x0A), writes: Vec::new(), reads: 0 };
    let result = run(&printer, &mut mock, vec![vec![vec![0x01; 90]]]);
    assert!(matches!(result, Err(Error::InvalidMedia(Media::Endless(Endless::Endless29)))));
    assert_eq!(mock.writes.len(), 1);
    assert_eq!(mock.writes[0], status_request());
}

#[test]
fn bad_feed_stops_before_any_frame() {
    let printer = Printer::new(Media::DieCut(DieCut::DieCut62x29)).set_feed_in_dots(35);
    let mut mock = Mock { reply: receiving_reply(62, 0x0B), writes: Vec::new(), reads: 0 };
    mock.reply[17] = 29;
    let result = run(&printer, &mut mock, vec![vec![vec![0x01; 90]]]);
    assert!(matches!(result, Err(Error::InvalidConfig(_))));
    assert_eq!(mock.writes.len(), 1);
}

#[test]
fn empty_job_writes_only_the_request() {
    let printer = Printer::new(Media::Endless(Endless::Endless62));
    let mut mock = Mock { reply: receiving_reply(62, 0x0A), writes: Vec::new(), reads: 0 };
    run(&printer, &mut mock, Vec::new()).unwrap();
    assert_eq!(mock.writes.len(), 1);
    assert_eq!(mock.reads, 1);
}

#[test]
fn write_error_ends_the_job() {
    let printer = Printer::new(Media::Endless(Endless::Endless62));
    let mut job = printer.start_print();
    let _ = job.start();
    match job.on_written(Err(Error::InvalidResponse(3))) {
        Action::Finish(Err(Error::InvalidResponse(3))) => {}
        other => panic!("unexpected action {:?}", other),
    }
    assert_eq!(job.awaiting(), Awaiting::Nothing);
}

#[test]
fn status_error_between_pages_ends_the_job() {
    let printer = Printer::new(Media::Endless(Endless::Endless62));
    let mut job = printer.start_print();
    let _ = job.start();
    let _ = job.on_written(Ok(403));
    let _ = job.on_status(Ok(Status::from_buf(receiving_reply(62, 0x0A))));
    let _ = job.on_page(Some(vec![vec![0; 90]]));
    let _ = job.on_page(Some(vec![vec![0; 90]]));
    let _ = job.on_written(Ok(1));
    match job.on_status(Err(Error::ReadStatusTimeout)) {
        Action::Finish(Err(Error::ReadStatusTimeout)) => {}
        other => panic!("unexpected action {:?}", other),
    }
}

#[test]
fn two_color_rows_alternate_headers() {
    let printer = Printer::new(Media::Endless(Endless::Endless62)).two_colors(true);
    let mut mock = Mock { reply: receiving_reply(62, 0x0A), writes: Vec::new(), reads: 0 };
    run(&printer, &mut mock, vec![vec![vec![1; 2], vec![2; 2], vec![3; 2], vec![4; 2]]]).unwrap();
    let frame = &mock.writes[1];
    let head_at = frame.len() - (4 * 5 + 1) - 13;
    assert_eq!(frame[head_at + 7], 2);
    let rows = &frame[frame.len() - 21..frame.len() - 1];
    assert_eq!(
        rows,
        &[0x77, 0x02, 2, 1, 1, 0x77, 0x01, 2, 2, 2, 0x77, 0x02, 2, 3, 3, 0x77, 0x01, 2, 4, 4]
    );
    assert_eq!(frame[frame.len() - 1], 0x1A);
}

#[test]
fn builders_set_options() {
    let printer = Printer::new(Media::Endless(Endless::Endless62))
        .disable_auto_cut()
        .cut_at_end(false)
        .high_resolution(true)
        .set_feed_in_dots(100);
    let bytes = printer.config.build(printer.media).unwrap();
    assert_eq!(bytes, vec![27, 105, 100, 100, 0, 27, 105, 77, 0, 27, 105, 65, 1, 27, 105, 75, 0x40]);
    let printer = printer.enable_auto_cut(3);
    let bytes = printer.config.build(printer.media).unwrap();
    assert_eq!(bytes[8], 0x40);
    assert_eq!(bytes[12], 3);
}
