use vstd::prelude::*;

use crate::error::Error;
use crate::media::Media;
use crate::Matrix;

pub mod job;
pub mod packbits;
pub mod printer_profile;

pub use self::job::{Action, Awaiting, JobState, PrintJob};
pub use self::packbits::{complement, pack_bits, unpack_bits};

pub use self::printer_profile::{
    check_written, find_endpoint, is_candidate, locate_endpoints, serial_matches, Direction,
    Endpoint, EndpointInfo, Notification, Phase, PollStep, Status, StatusPoll, StatusType, TransferType,
    STATUS_LEN, STATUS_READ_ATTEMPTS, VENDOR_ID,
};

verus! {

/// Bytes of the reset sequence that every command stream opens with.
pub const RESET_ZEROS: usize = 400;

/// The reset sequence: 400 zero bytes, then `ESC @`. It clears whatever the
/// printer holds from an earlier command.
pub open spec fn reset_bytes() -> Seq<u8> {
    Seq::new(RESET_ZEROS as nat, |i: int| 0u8) + seq![0x1Bu8, 0x40u8]
}

/// The status request: the reset sequence, then `ESC i S`.
pub open spec fn status_request_bytes() -> Seq<u8> {
    reset_bytes() + seq![0x1Bu8, 0x69u8, 0x53u8]
}

/// Appends all of `bytes` to `buf`.
fn push_all(buf: &mut Vec<u8>, bytes: &Vec<u8>)
    ensures
        final(buf)@ == old(buf)@ + bytes@,
{
    let mut i: usize = 0;
    while i < bytes.len()
        invariant
            i <= bytes@.len(),
            buf@ == old(buf)@ + bytes@.subrange(0, i as int),
        decreases bytes@.len() - i,
    {
        buf.push(bytes[i]);
        proof {
            assert(bytes@.subrange(0, i + 1) =~= bytes@.subrange(0, i as int).push(bytes@[i as int]));
        }
        i = i + 1;
    }
    proof {
        assert(bytes@.subrange(0, bytes@.len() as int) =~= bytes@);
    }
}

/// The reset sequence, which on its own cancels a job.
pub fn initialize() -> (buf: Vec<u8>)
    ensures
        buf@ == reset_bytes(),
{
    let mut buf: Vec<u8> = Vec::new();
    let mut i: usize = 0;
    while i < RESET_ZEROS
        invariant
            i <= RESET_ZEROS,
            buf@ == Seq::new(i as nat, |j: int| 0u8),
        decreases RESET_ZEROS - i,
    {
        buf.push(0x00);
        proof {
            assert(Seq::new((i + 1) as nat, |j: int| 0u8) =~= Seq::new(i as nat, |j: int| 0u8).push(0u8));
        }
        i = i + 1;
    }
    buf.push(0x1B);
    buf.push(0x40);
    proof {
        assert(buf@ =~= reset_bytes());
    }
    buf
}

/// The frame that asks the printer for its status.
pub fn status_request() -> (buf: Vec<u8>)
    ensures
        buf@ == status_request_bytes(),
{
    let mut buf = initialize();
    buf.push(0x1B);
    buf.push(0x69);
    buf.push(0x53);
    proof {
        assert(buf@ =~= status_request_bytes());
    }
    buf
}

/// Auto-cut policy.
#[derive(Debug, Clone, Copy, PartialEq, Eq, Structural)]
pub enum AutoCut {
    /// Cut after every so many labels.
    Enabled(u8),
    Disabled,
}

/// Printing options of a job.
#[derive(Debug, Clone, Copy, PartialEq, Eq, Structural)]
pub struct Config {
    pub auto_cut: AutoCut,
    /// Black and red printing on two-color tape: rows come in pairs.
    pub two_colors: bool,
    /// Cut after the last label.
    pub cut_at_end: bool,
    /// 600 dpi along the tape.
    pub high_resolution: bool,
    /// Feed margin in dots; the media's default where absent.
    pub feed: Option<u16>,
}

/// Bit of the various-mode byte that turns auto-cut on.
pub const VARIOUS_AUTO_CUT: u8 = 0x40;

/// Bits of the expanded-mode byte.
pub const EXPANDED_TWO_COLORS: u8 = 0x01;
pub const EXPANDED_CUT_AT_END: u8 = 0x08;
pub const EXPANDED_HIGH_RESOLUTION: u8 = 0x40;

impl Config {
    /// Auto-cut after every label, one color, cut at the end, 300 dpi,
    /// the media's own feed.
    pub open spec fn spec_default() -> Config {
        Config {
            auto_cut: AutoCut::Enabled(1),
            two_colors: false,
            cut_at_end: true,
            high_resolution: false,
            feed: None,
        }
    }

    /// The feed margin sent for `media`.
    pub open spec fn spec_feed(self, media: Media) -> u16 {
        match self.feed {
            Some(feed) => feed,
            None => media.spec_default_feed(),
        }
    }

    pub open spec fn spec_various_mode(self) -> u8 {
        if self.auto_cut is Enabled {
            VARIOUS_AUTO_CUT
        } else {
            0
        }
    }

    pub open spec fn spec_auto_cut_count(self) -> u8 {
        match self.auto_cut {
            AutoCut::Enabled(n) => n,
            AutoCut::Disabled => 1,
        }
    }

    pub open spec fn spec_expanded_mode(self) -> u8 {
        (if self.two_colors { EXPANDED_TWO_COLORS } else { 0u8 }) | (if self.cut_at_end {
            EXPANDED_CUT_AT_END
        } else {
            0u8
        }) | (if self.high_resolution { EXPANDED_HIGH_RESOLUTION } else { 0u8 })
    }

    /// True when the configuration suits `media`.
    pub open spec fn valid_for(self, media: Media) -> bool {
        media.feed_in_range(self.spec_feed(media))
    }

    /// The configuration block: `ESC i d` with the feed in little-endian
    /// dots, `ESC i M` with the various mode, `ESC i A` with the auto-cut
    /// count, `ESC i K` with the expanded mode.
    pub open spec fn spec_bytes(self, media: Media) -> Seq<u8> {
        let feed = self.spec_feed(media);
        seq![0x1Bu8, 0x69u8, 0x64u8, (feed & 0xFF) as u8, (feed >> 8u16) as u8]
            + seq![0x1Bu8, 0x69u8, 0x4Du8, self.spec_various_mode()]
            + seq![0x1Bu8, 0x69u8, 0x41u8, self.spec_auto_cut_count()]
            + seq![0x1Bu8, 0x69u8, 0x4Bu8, self.spec_expanded_mode()]
    }

    /// The feed margin to send, once checked against `media`.
    pub fn validate_against(&self, media: Media) -> (r: Result<u16, Error>)
        ensures
            r is Ok <==> self.valid_for(media),
            r is Ok ==> r == Ok::<u16, Error>(self.spec_feed(media)),
            r is Err ==> r->Err_0 is InvalidConfig,
    {
        let feed = match self.feed {
            Some(feed) => feed,
            None => media.get_default_feed_dots(),
        };
        media.check_feed_value(feed)
    }

    /// Serializes the configuration for `media`, or fails with
    /// `InvalidConfig` when the feed is out of the media's bounds.
    pub fn build(self, media: Media) -> (r: Result<Vec<u8>, Error>)
        ensures
            r is Ok <==> self.valid_for(media),
            r is Ok ==> r->Ok_0@ == self.spec_bytes(media),
            r is Err ==> r->Err_0 is InvalidConfig,
    {
        let feed = match self.validate_against(media) {
            Ok(feed) => feed,
            Err(err) => return Err(err),
        };
        let mut buf: Vec<u8> = Vec::new();
        buf.push(0x1B);
        buf.push(0x69);
        buf.push(0x64);
        buf.push((feed & 0xFF) as u8);
        buf.push((feed >> 8u16) as u8);

        let mut various_mode: u8 = 0;
        let mut auto_cut_num: u8 = 1;
        if let AutoCut::Enabled(n) = self.auto_cut {
            various_mode = various_mode | VARIOUS_AUTO_CUT;
            auto_cut_num = n;
        }
        buf.push(0x1B);
        buf.push(0x69);
        buf.push(0x4D);
        buf.push(various_mode);
        buf.push(0x1B);
        buf.push(0x69);
        buf.push(0x41);
        buf.push(auto_cut_num);

        let mut expanded_mode: u8 = 0;
        if self.two_colors {
            expanded_mode = expanded_mode | EXPANDED_TWO_COLORS;
        }
        if self.cut_at_end {
            expanded_mode = expanded_mode | EXPANDED_CUT_AT_END;
        }
        if self.high_resolution {
            expanded_mode = expanded_mode | EXPANDED_HIGH_RESOLUTION;
        }
        buf.push(0x1B);
        buf.push(0x69);
        buf.push(0x4B);
        buf.push(expanded_mode);
        proof {
            assert(various_mode == self.spec_various_mode()) by {
                assert(0u8 | VARIOUS_AUTO_CUT == VARIOUS_AUTO_CUT) by (bit_vector);
            }
            assert(expanded_mode == self.spec_expanded_mode()) by {
                assert(forall|x: u8| #![auto] x | 0u8 == x && 0u8 | x == x) by (bit_vector);
            }
            assert(buf@ =~= self.spec_bytes(media));
        }
        Ok(buf)
    }
}

impl Default for Config {
    fn default() -> (r: Self)
        ensures
            r == Config::spec_default(),
    {
        Config {
            auto_cut: AutoCut::Enabled(1),
            two_colors: false,
            cut_at_end: true,
            high_resolution: false,
            feed: None,
        }
    }
}


/// Raster mode (`ESC i a 1`), status notification on (`ESC i ! 0`) and no
/// compression (`M 0`), which follow the reset sequence in a print job.
pub open spec fn mode_bytes() -> Seq<u8> {
    seq![0x1Bu8, 0x69u8, 0x61u8, 0x01u8] + seq![0x1Bu8, 0x69u8, 0x21u8, 0x00u8] + seq![0x4Du8, 0x00u8]
}

/// What a job sends once, before its first page.
pub open spec fn preamble_bytes(media: Media, config: Config) -> Seq<u8> {
    reset_bytes() + mode_bytes() + config.spec_bytes(media)
}

/// Header of a raster row of `len` bytes: `g 0 len` in one color; `w 1 len`
/// or `w 2 len` by turns in two colors.
pub open spec fn row_header(two_colors: bool, color: bool, len: nat) -> Seq<u8> {
    if two_colors {
        seq![0x77u8, if color { 0x01u8 } else { 0x02u8 }, len as u8]
    } else {
        seq![0x67u8, 0x00u8, len as u8]
    }
}

/// The raster rows of a page, each behind its header; `color` tells which
/// header of a two-color pair comes first.
pub open spec fn rows_bytes(rows: Seq<Vec<u8>>, two_colors: bool, color: bool) -> Seq<u8>
    decreases rows.len(),
{
    if rows.len() == 0 {
        seq![]
    } else {
        row_header(two_colors, color, rows[0]@.len()) + rows[0]@ + rows_bytes(
            rows.drop_first(),
            two_colors,
            if two_colors { !color } else { color },
        )
    }
}

/// Which two-color header comes next after `n` rows.
pub open spec fn color_after(n: nat, two_colors: bool, color: bool) -> bool {
    if two_colors && n % 2 == 1 {
        !color
    } else {
        color
    }
}

/// A page whose row count fits the 32-bit raster count and whose rows fit
/// the one-byte length of a row header.
pub open spec fn page_fits(rows: Seq<Vec<u8>>) -> bool {
    rows.len() <= u32::MAX && forall|i: int| 0 <= i < rows.len() ==> #[trigger] rows[i]@.len() <= 255
}

/// A 32-bit count, least significant byte first.
pub open spec fn le32(n: u32) -> Seq<u8> {
    seq![(n & 0xFF) as u8, ((n >> 8u32) & 0xFF) as u8, ((n >> 16u32) & 0xFF) as u8, (n >> 24u32) as u8]
}

/// Raster lines of a page: two-color pages send rows in pairs.
pub open spec fn raster_count(rows: nat, two_colors: bool) -> u32 {
    (if two_colors { rows / 2 } else { rows }) as u32
}

/// The bytes sent for one page: the preamble before the first page, the
/// media command `ESC i z` with the raster count and the page marker
/// (`0 0` on the first page, `1 0` after), the rows, and `0x1A` (print and
/// eject) after the last page or `0x0C` (print) before another.
pub open spec fn spec_page_frame(
    media: Media,
    config: Config,
    preamble: Seq<u8>,
    rows: Seq<Vec<u8>>,
    first: bool,
    last: bool,
    color: bool,
) -> Seq<u8> {
    (if first { preamble } else { seq![] }) + seq![0x1Bu8, 0x69u8, 0x7Au8] + media.spec_descriptor(true)
        + le32(raster_count(rows.len(), config.two_colors)) + (if first {
        seq![0x00u8, 0x00u8]
    } else {
        seq![0x01u8, 0x00u8]
    }) + rows_bytes(rows, config.two_colors, color) + seq![if last { 0x1Au8 } else { 0x0Cu8 }]
}

/// The preamble of a job: reset, modes, configuration.
pub fn preamble(media: Media, config: Config) -> (r: Result<Vec<u8>, Error>)
    ensures
        r is Ok <==> config.valid_for(media),
        r is Ok ==> r->Ok_0@ == preamble_bytes(media, config),
        r is Err ==> r->Err_0 is InvalidConfig,
{
    let mut buf = initialize();
    buf.push(0x1B);
    buf.push(0x69);
    buf.push(0x61);
    buf.push(0x01);
    buf.push(0x1B);
    buf.push(0x69);
    buf.push(0x21);
    buf.push(0x00);
    buf.push(0x4D);
    buf.push(0x00);
    let config_bytes = match config.build(media) {
        Ok(bytes) => bytes,
        Err(err) => return Err(err),
    };
    push_all(&mut buf, &config_bytes);
    proof {
        assert(buf@ =~= preamble_bytes(media, config));
    }
    Ok(buf)
}

/// Appends the rows of a page behind their headers and says which
/// two-color header comes next.
fn append_rows(buf: &mut Vec<u8>, rows: &Vec<Vec<u8>>, two_colors: bool, color: bool) -> (next: bool)
    requires
        page_fits(rows@),
    ensures
        final(buf)@ == old(buf)@ + rows_bytes(rows@, two_colors, color),
        next == color_after(rows@.len(), two_colors, color),
{
    let mut c = color;
    let mut i: usize = 0;
    assert(rows@.skip(0) =~= rows@);
    while i < rows.len()
        invariant
            i <= rows@.len(),
            page_fits(rows@),
            old(buf)@ + rows_bytes(rows@, two_colors, color) == buf@ + rows_bytes(
                rows@.skip(i as int),
                two_colors,
                c,
            ),
            c == color_after(i as nat, two_colors, color),
        decreases rows@.len() - i,
    {
        let ghost before = buf@;
        let row = &rows[i];
        assert(rows@[i as int]@.len() <= 255);
        let len = row.len() as u8;
        let ghost c0 = c;
        if two_colors {
            buf.push(0x77);
            buf.push(if c { 0x01 } else { 0x02 });
            buf.push(len);
            c = !c;
        } else {
            buf.push(0x67);
            buf.push(0x00);
            buf.push(len);
        }
        push_all(buf, row);
        proof {
            let rest = rows@.skip(i as int);
            assert(rest[0] == *row);
            assert(rest.drop_first() =~= rows@.skip(i + 1));
            assert(buf@ =~= before + row_header(two_colors, c0, row@.len()) + row@);
            assert(before + rows_bytes(rest, two_colors, c0) =~= buf@ + rows_bytes(
                rows@.skip(i + 1),
                two_colors,
                c,
            ));
        }
        i = i + 1;
    }
    proof {
        assert(rows@.skip(i as int) =~= Seq::<Vec<u8>>::empty());
        assert(buf@ =~= buf@ + rows_bytes(rows@.skip(i as int), two_colors, c));
    }
    c
}

/// Builds the bytes of one page, and says which two-color header comes
/// next.
pub fn page_frame(
    media: Media,
    config: Config,
    preamble: &Vec<u8>,
    rows: &Vec<Vec<u8>>,
    first: bool,
    last: bool,
    color: bool,
) -> (r: (Vec<u8>, bool))
    requires
        page_fits(rows@),
    ensures
        r.0@ == spec_page_frame(media, config, preamble@, rows@, first, last, color),
        r.1 == color_after(rows@.len(), config.two_colors, color),
{
    let mut buf: Vec<u8> = Vec::new();
    if first {
        push_all(&mut buf, preamble);
    }
    let ghost head = buf@;
    assert(head =~= (if first { preamble@ } else { seq![] }));
    buf.push(0x1B);
    buf.push(0x69);
    buf.push(0x7A);
    let ghost s1 = buf@;
    media.set_media(&mut buf, true);
    let ghost s2 = buf@;
    let n = rows.len();
    let count: u32 = if config.two_colors { (n / 2) as u32 } else { n as u32 };
    buf.push((count & 0xFF) as u8);
    buf.push(((count >> 8u32) & 0xFF) as u8);
    buf.push(((count >> 16u32) & 0xFF) as u8);
    buf.push((count >> 24u32) as u8);
    let ghost s3 = buf@;
    assert(s3 =~= s2 + le32(count));
    if first {
        buf.push(0x00);
        buf.push(0x00);
    } else {
        buf.push(0x01);
        buf.push(0x00);
    }
    let ghost mid = buf@;
    assert(mid =~= s3 + (if first { seq![0x00u8, 0x00u8] } else { seq![0x01u8, 0x00u8] }));
    let next = append_rows(&mut buf, rows, config.two_colors, color);
    buf.push(if last { 0x1A } else { 0x0C });
    proof {
        assert(s1 =~= head + seq![0x1Bu8, 0x69u8, 0x7Au8]);
        assert(count == raster_count(rows@.len(), config.two_colors));
        assert(buf@ =~= mid + rows_bytes(rows@, config.two_colors, color) + seq![if last { 0x1Au8 } else { 0x0Cu8 }]);
    }
    (buf, next)
}


/// A printer set up for one media, with its printing options.
#[derive(Debug, Clone, Copy, PartialEq, Eq, Structural)]
pub struct Printer {
    /// The media the printer is expected to hold.
    pub media: Media,
    pub config: Config,
}

impl Printer {
    /// A printer for `media` with the default options.
    pub fn new(media: Media) -> (r: Self)
        ensures
            r.media == media,
            r.config == Config::spec_default(),
    {
        Printer { media, config: Config::default() }
    }

    /// Auto-cut after every `size` labels.
    pub fn enable_auto_cut(self, size: u8) -> (r: Self)
        ensures
            r.media == self.media,
            r.config == (Config { auto_cut: AutoCut::Enabled(size), ..self.config }),
    {
        Printer { config: Config { auto_cut: AutoCut::Enabled(size), ..self.config }, ..self }
    }

    /// No auto-cut.
    pub fn disable_auto_cut(self) -> (r: Self)
        ensures
            r.media == self.media,
            r.config == (Config { auto_cut: AutoCut::Disabled, ..self.config }),
    {
        Printer { config: Config { auto_cut: AutoCut::Disabled, ..self.config }, ..self }
    }

    /// Cut, or not, after the last label.
    pub fn cut_at_end(self, flag: bool) -> (r: Self)
        ensures
            r.media == self.media,
            r.config == (Config { cut_at_end: flag, ..self.config }),
    {
        Printer { config: Config { cut_at_end: flag, ..self.config }, ..self }
    }

    /// Print at 600 dpi along the tape, or at 300.
    pub fn high_resolution(self, high_resolution: bool) -> (r: Self)
        ensures
            r.media == self.media,
            r.config == (Config { high_resolution, ..self.config }),
    {
        Printer { config: Config { high_resolution, ..self.config }, ..self }
    }

    /// Feed margin in dots, checked against the media when a job starts.
    pub fn set_feed_in_dots(self, feed: u16) -> (r: Self)
        ensures
            r.media == self.media,
            r.config == (Config { feed: Some(feed), ..self.config }),
    {
        Printer { config: Config { feed: Some(feed), ..self.config }, ..self }
    }

    /// Print in black and red on two-color tape, or in black only.
    pub fn two_colors(self, two_colors: bool) -> (r: Self)
        ensures
            r.media == self.media,
            r.config == (Config { two_colors, ..self.config }),
    {
        Printer { config: Config { two_colors, ..self.config }, ..self }
    }

    /// A print job for this printer, not started yet.
    pub fn start_print(&self) -> (job: PrintJob)
        ensures
            job.wf(),
            job.state() == JobState::Idle,
            job.media() == self.media,
            job.config() == self.config,
    {
        PrintJob::new(self.media, self.config)
    }
}

} // verus!
