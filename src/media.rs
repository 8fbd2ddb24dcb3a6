//! The media catalogue: continuous tapes and die-cut labels, with their
//! geometry on the print head and their codes in the raster protocol.

use vstd::prelude::*;
use vstd::string::*;

use crate::error::Error;

verus! {

/// Continuous tapes, by width in millimetres.
#[derive(Debug, Clone, Copy, PartialEq, Eq, Structural)]
pub enum Endless {
    Endless12,
    Endless29,
    Endless38,
    Endless50,
    Endless54,
    Endless62,
    Endless102,
}

/// Die-cut labels, by width and length in millimetres (`Dia`: round labels).
#[derive(Debug, Clone, Copy, PartialEq, Eq, Structural)]
pub enum DieCut {
    DieCut17x54,
    DieCut17x87,
    DieCut23x23,
    DieCut29x42,
    DieCut29x90,
    DieCut38x90,
    DieCut39x48,
    DieCut52x29,
    DieCut62x29,
    DieCut62x100,
    DieCut102x51,
    /// Reported and sent with a length code of 153 mm.
    DieCut102x152,
    DieCut12Dia,
    DieCut24Dia,
    DieCut58Dia,
}

/// A roll loaded in the printer.
#[derive(Debug, Clone, Copy, PartialEq, Eq, Structural)]
pub enum Media {
    Endless(Endless),
    DieCut(DieCut),
}

/// Physical size and placement of a media on the print head.
#[derive(Debug, Clone, Copy, PartialEq, Eq, Structural)]
pub struct Geometry {
    /// Width in millimetres, as the protocol codes it.
    pub width_mm: u8,
    /// Label length in millimetres, as the protocol codes it; 0 for continuous tape.
    pub length_mm: u8,
    /// Printable width in dots.
    pub width_dots: u32,
    /// Printable label length in dots; 0 for continuous tape.
    pub length_dots: u32,
    /// Pins left of the printable area, in the orientation of the source image.
    pub offset: u32,
}

/// Media type code of continuous tape in commands and status replies.
pub const MEDIA_CONTINUOUS: u8 = 0x0A;

/// Media type code of die-cut labels in commands and status replies.
pub const MEDIA_DIE_CUT: u8 = 0x0B;

/// Media type code of continuous tape as the 800 series reports it.
pub const MEDIA_CONTINUOUS_ALT: u8 = 0x4A;

/// Media type code of die-cut labels as the 800 series reports it.
pub const MEDIA_DIE_CUT_ALT: u8 = 0x4B;

/// Feed margin that continuous tape takes by default, in dots (3 mm).
pub const DEFAULT_CONTINUOUS_FEED: u16 = 35;

/// Smallest feed margin accepted for continuous tape, in dots.
pub const MIN_CONTINUOUS_FEED: u16 = 35;

/// Largest feed margin accepted for continuous tape, in dots (127 mm).
pub const MAX_CONTINUOUS_FEED: u16 = 1500;

/// Valid-field flags of the media command: media type and width.
pub const VALID_KIND_AND_WIDTH: u8 = 0x06;

/// Valid-field flag of the media command: label length.
pub const VALID_LENGTH: u8 = 0x08;

/// Flag of the media command that keeps printer recovery always on.
pub const RECOVERY_ALWAYS_ON: u8 = 0x80;

/// The media a status reply names by its type, width and length codes.
pub open spec fn spec_media_from_codes(kind: u8, width: u8, length: u8) -> Option<Media> {
    let kind = if kind == MEDIA_CONTINUOUS_ALT {
        MEDIA_CONTINUOUS
    } else if kind == MEDIA_DIE_CUT_ALT {
        MEDIA_DIE_CUT
    } else {
        kind
    };
    match (kind, width, length) {
        (0x0A, 12, _) => Some(Media::Endless(Endless::Endless12)),
        (0x0A, 29, _) => Some(Media::Endless(Endless::Endless29)),
        (0x0A, 38, _) => Some(Media::Endless(Endless::Endless38)),
        (0x0A, 50, _) => Some(Media::Endless(Endless::Endless50)),
        (0x0A, 54, _) => Some(Media::Endless(Endless::Endless54)),
        (0x0A, 62, _) => Some(Media::Endless(Endless::Endless62)),
        (0x0A, 102, _) => Some(Media::Endless(Endless::Endless102)),
        (0x0B, 17, 54) => Some(Media::DieCut(DieCut::DieCut17x54)),
        (0x0B, 17, 87) => Some(Media::DieCut(DieCut::DieCut17x87)),
        (0x0B, 23, 23) => Some(Media::DieCut(DieCut::DieCut23x23)),
        (0x0B, 29, 42) => Some(Media::DieCut(DieCut::DieCut29x42)),
        (0x0B, 29, 90) => Some(Media::DieCut(DieCut::DieCut29x90)),
        (0x0B, 38, 90) => Some(Media::DieCut(DieCut::DieCut38x90)),
        (0x0B, 39, 48) => Some(Media::DieCut(DieCut::DieCut39x48)),
        (0x0B, 52, 29) => Some(Media::DieCut(DieCut::DieCut52x29)),
        (0x0B, 62, 29) => Some(Media::DieCut(DieCut::DieCut62x29)),
        (0x0B, 62, 100) => Some(Media::DieCut(DieCut::DieCut62x100)),
        (0x0B, 102, 51) => Some(Media::DieCut(DieCut::DieCut102x51)),
        (0x0B, 102, 153) => Some(Media::DieCut(DieCut::DieCut102x152)),
        (0x0B, 12, 12) => Some(Media::DieCut(DieCut::DieCut12Dia)),
        (0x0B, 24, 24) => Some(Media::DieCut(DieCut::DieCut24Dia)),
        (0x0B, 58, 58) => Some(Media::DieCut(DieCut::DieCut58Dia)),
        _ => None,
    }
}

impl Media {
    pub open spec fn spec_geometry(self) -> Geometry {
        match self {
            Media::Endless(Endless::Endless12) => Geometry { width_mm: 12, length_mm: 0, width_dots: 106, length_dots: 0, offset: 585 },
            Media::Endless(Endless::Endless29) => Geometry { width_mm: 29, length_mm: 0, width_dots: 306, length_dots: 0, offset: 408 },
            Media::Endless(Endless::Endless38) => Geometry { width_mm: 38, length_mm: 0, width_dots: 413, length_dots: 0, offset: 295 },
            Media::Endless(Endless::Endless50) => Geometry { width_mm: 50, length_mm: 0, width_dots: 554, length_dots: 0, offset: 154 },
            Media::Endless(Endless::Endless54) => Geometry { width_mm: 54, length_mm: 0, width_dots: 590, length_dots: 0, offset: 130 },
            Media::Endless(Endless::Endless62) => Geometry { width_mm: 62, length_mm: 0, width_dots: 696, length_dots: 0, offset: 12 },
            Media::Endless(Endless::Endless102) => Geometry { width_mm: 102, length_mm: 0, width_dots: 1164, length_dots: 0, offset: 120 },
            Media::DieCut(DieCut::DieCut17x54) => Geometry { width_mm: 17, length_mm: 54, width_dots: 165, length_dots: 566, offset: 555 },
            Media::DieCut(DieCut::DieCut17x87) => Geometry { width_mm: 17, length_mm: 87, width_dots: 165, length_dots: 956, offset: 555 },
            Media::DieCut(DieCut::DieCut23x23) => Geometry { width_mm: 23, length_mm: 23, width_dots: 202, length_dots: 202, offset: 476 },
            Media::DieCut(DieCut::DieCut29x42) => Geometry { width_mm: 29, length_mm: 42, width_dots: 306, length_dots: 425, offset: 408 },
            Media::DieCut(DieCut::DieCut29x90) => Geometry { width_mm: 29, length_mm: 90, width_dots: 306, length_dots: 991, offset: 408 },
            Media::DieCut(DieCut::DieCut38x90) => Geometry { width_mm: 38, length_mm: 90, width_dots: 413, length_dots: 991, offset: 295 },
            Media::DieCut(DieCut::DieCut39x48) => Geometry { width_mm: 39, length_mm: 48, width_dots: 425, length_dots: 495, offset: 289 },
            Media::DieCut(DieCut::DieCut52x29) => Geometry { width_mm: 52, length_mm: 29, width_dots: 578, length_dots: 271, offset: 142 },
            Media::DieCut(DieCut::DieCut62x29) => Geometry { width_mm: 62, length_mm: 29, width_dots: 696, length_dots: 271, offset: 12 },
            Media::DieCut(DieCut::DieCut62x100) => Geometry { width_mm: 62, length_mm: 100, width_dots: 696, length_dots: 1109, offset: 12 },
            Media::DieCut(DieCut::DieCut102x51) => Geometry { width_mm: 102, length_mm: 51, width_dots: 1164, length_dots: 526, offset: 120 },
            Media::DieCut(DieCut::DieCut102x152) => Geometry { width_mm: 102, length_mm: 153, width_dots: 1164, length_dots: 1660, offset: 120 },
            Media::DieCut(DieCut::DieCut12Dia) => Geometry { width_mm: 12, length_mm: 12, width_dots: 94, length_dots: 94, offset: 513 },
            Media::DieCut(DieCut::DieCut24Dia) => Geometry { width_mm: 24, length_mm: 24, width_dots: 236, length_dots: 236, offset: 442 },
            Media::DieCut(DieCut::DieCut58Dia) => Geometry { width_mm: 58, length_mm: 58, width_dots: 618, length_dots: 618, offset: 51 },
        }
    }

    pub open spec fn is_endless(self) -> bool {
        self is Endless
    }

    /// The type code that the protocol gives the media.
    pub open spec fn spec_kind_code(self) -> u8 {
        if self.is_endless() {
            MEDIA_CONTINUOUS
        } else {
            MEDIA_DIE_CUT
        }
    }

    pub open spec fn spec_default_feed(self) -> u16 {
        if self.is_endless() {
            DEFAULT_CONTINUOUS_FEED
        } else {
            0
        }
    }

    /// Feed margins the protocol accepts: 35 to 1500 dots on continuous
    /// tape, none on die-cut labels.
    pub open spec fn feed_in_range(self, dots: u16) -> bool {
        if self.is_endless() {
            MIN_CONTINUOUS_FEED <= dots <= MAX_CONTINUOUS_FEED
        } else {
            dots == 0
        }
    }

    /// Length in dots of a print of an image `w` by `h` pixels: continuous
    /// tape keeps the image's aspect ratio at the printable width, a die-cut
    /// label has its own length.
    pub open spec fn spec_scaled_length(self, w: u32, h: u32) -> int {
        if self.is_endless() {
            (h as int * self.spec_geometry().width_dots as int) / (w as int)
        } else {
            self.spec_geometry().length_dots as int
        }
    }

    /// The four bytes of the media command that follow `ESC i z`: valid-field
    /// flags, type, width and length.
    pub open spec fn spec_descriptor(self, extended: bool) -> Seq<u8> {
        let g = self.spec_geometry();
        let flags = if self.is_endless() {
            VALID_KIND_AND_WIDTH
        } else {
            VALID_KIND_AND_WIDTH | VALID_LENGTH
        };
        let flags = if extended {
            flags | RECOVERY_ALWAYS_ON
        } else {
            flags
        };
        seq![flags, self.spec_kind_code(), g.width_mm, g.length_mm]
    }

    /// Geometry of the media.
    pub fn geometry(&self) -> (g: Geometry)
        ensures
            g == self.spec_geometry(),
    {
        match self {
            Media::Endless(Endless::Endless12) => Geometry { width_mm: 12, length_mm: 0, width_dots: 106, length_dots: 0, offset: 585 },
            Media::Endless(Endless::Endless29) => Geometry { width_mm: 29, length_mm: 0, width_dots: 306, length_dots: 0, offset: 408 },
            Media::Endless(Endless::Endless38) => Geometry { width_mm: 38, length_mm: 0, width_dots: 413, length_dots: 0, offset: 295 },
            Media::Endless(Endless::Endless50) => Geometry { width_mm: 50, length_mm: 0, width_dots: 554, length_dots: 0, offset: 154 },
            Media::Endless(Endless::Endless54) => Geometry { width_mm: 54, length_mm: 0, width_dots: 590, length_dots: 0, offset: 130 },
            Media::Endless(Endless::Endless62) => Geometry { width_mm: 62, length_mm: 0, width_dots: 696, length_dots: 0, offset: 12 },
            Media::Endless(Endless::Endless102) => Geometry { width_mm: 102, length_mm: 0, width_dots: 1164, length_dots: 0, offset: 120 },
            Media::DieCut(DieCut::DieCut17x54) => Geometry { width_mm: 17, length_mm: 54, width_dots: 165, length_dots: 566, offset: 555 },
            Media::DieCut(DieCut::DieCut17x87) => Geometry { width_mm: 17, length_mm: 87, width_dots: 165, length_dots: 956, offset: 555 },
            Media::DieCut(DieCut::DieCut23x23) => Geometry { width_mm: 23, length_mm: 23, width_dots: 202, length_dots: 202, offset: 476 },
            Media::DieCut(DieCut::DieCut29x42) => Geometry { width_mm: 29, length_mm: 42, width_dots: 306, length_dots: 425, offset: 408 },
            Media::DieCut(DieCut::DieCut29x90) => Geometry { width_mm: 29, length_mm: 90, width_dots: 306, length_dots: 991, offset: 408 },
            Media::DieCut(DieCut::DieCut38x90) => Geometry { width_mm: 38, length_mm: 90, width_dots: 413, length_dots: 991, offset: 295 },
            Media::DieCut(DieCut::DieCut39x48) => Geometry { width_mm: 39, length_mm: 48, width_dots: 425, length_dots: 495, offset: 289 },
            Media::DieCut(DieCut::DieCut52x29) => Geometry { width_mm: 52, length_mm: 29, width_dots: 578, length_dots: 271, offset: 142 },
            Media::DieCut(DieCut::DieCut62x29) => Geometry { width_mm: 62, length_mm: 29, width_dots: 696, length_dots: 271, offset: 12 },
            Media::DieCut(DieCut::DieCut62x100) => Geometry { width_mm: 62, length_mm: 100, width_dots: 696, length_dots: 1109, offset: 12 },
            Media::DieCut(DieCut::DieCut102x51) => Geometry { width_mm: 102, length_mm: 51, width_dots: 1164, length_dots: 526, offset: 120 },
            Media::DieCut(DieCut::DieCut102x152) => Geometry { width_mm: 102, length_mm: 153, width_dots: 1164, length_dots: 1660, offset: 120 },
            Media::DieCut(DieCut::DieCut12Dia) => Geometry { width_mm: 12, length_mm: 12, width_dots: 94, length_dots: 94, offset: 513 },
            Media::DieCut(DieCut::DieCut24Dia) => Geometry { width_mm: 24, length_mm: 24, width_dots: 236, length_dots: 236, offset: 442 },
            Media::DieCut(DieCut::DieCut58Dia) => Geometry { width_mm: 58, length_mm: 58, width_dots: 618, length_dots: 618, offset: 51 },
        }
    }

    /// Printable width in dots.
    pub fn effective(&self) -> (r: u32)
        ensures
            r == self.spec_geometry().width_dots,
    {
        self.geometry().width_dots
    }

    /// Pins left of the printable area.
    pub fn offset(&self) -> (r: u32)
        ensures
            r == self.spec_geometry().offset,
    {
        self.geometry().offset
    }

    /// Length in dots of a print of an image `source_w` by `source_h` pixels.
    pub fn scaled_length(&self, source_w: u32, source_h: u32) -> (r: u32)
        requires
            !self.is_endless() || source_w > 0,
            self.spec_scaled_length(source_w, source_h) <= u32::MAX,
        ensures
            r == self.spec_scaled_length(source_w, source_h),
    {
        let g = self.geometry();
        match self {
            Media::Endless(_) => {
                assert(g.width_dots <= 2000);
                assert((source_h as u64) * (g.width_dots as u64) <= 0xFFFF_FFFF * 2000) by (nonlinear_arith)
                    requires
                        g.width_dots <= 2000,
                        source_h <= 0xFFFF_FFFF,
                ;
                let product: u64 = (source_h as u64) * (g.width_dots as u64);
                (product / (source_w as u64)) as u32
            },
            Media::DieCut(_) => g.length_dots,
        }
    }

    /// Feed margin used when none is configured.
    pub fn get_default_feed_dots(&self) -> (r: u16)
        ensures
            r == self.spec_default_feed(),
    {
        match self {
            Media::Endless(_) => DEFAULT_CONTINUOUS_FEED,
            Media::DieCut(_) => 0,
        }
    }

    /// Checks a feed margin against the media's bounds and hands it back.
    pub fn check_feed_value(&self, dots: u16) -> (r: Result<u16, Error>)
        ensures
            self.feed_in_range(dots) <==> r is Ok,
            r is Ok ==> r == Ok::<u16, Error>(dots),
            r is Err ==> r->Err_0 is InvalidConfig,
    {
        match self {
            Media::Endless(_) => {
                if MIN_CONTINUOUS_FEED <= dots && dots <= MAX_CONTINUOUS_FEED {
                    Ok(dots)
                } else {
                    Err(Error::InvalidConfig(String::from_str("feed for continuous tape must lie between 35 and 1500 dots")))
                }
            },
            Media::DieCut(_) => {
                if dots == 0 {
                    Ok(dots)
                } else {
                    Err(Error::InvalidConfig(String::from_str("die-cut labels take no feed")))
                }
            },
        }
    }

    /// Appends the media command's flags, type, width and length to `buf`;
    /// `extended` also raises the recovery flag.
    pub fn set_media(&self, buf: &mut Vec<u8>, extended: bool)
        ensures
            final(buf)@ == old(buf)@ + self.spec_descriptor(extended),
    {
        let g = self.geometry();
        let mut flags: u8 = match self {
            Media::Endless(_) => VALID_KIND_AND_WIDTH,
            Media::DieCut(_) => VALID_KIND_AND_WIDTH | VALID_LENGTH,
        };
        if extended {
            flags = flags | RECOVERY_ALWAYS_ON;
        }
        let kind = match self {
            Media::Endless(_) => MEDIA_CONTINUOUS,
            Media::DieCut(_) => MEDIA_DIE_CUT,
        };
        buf.push(flags);
        buf.push(kind);
        buf.push(g.width_mm);
        buf.push(g.length_mm);
        proof {
            assert(final(buf)@ =~= old(buf)@ + self.spec_descriptor(extended));
        }
    }

    /// The media a status reply reports: type at byte 11, width at byte 10
    /// and length at byte 17; `None` where the codes name no known media.
    pub fn from_buf(buf: [u8; 32]) -> (r: Option<Media>)
        ensures
            r == spec_media_from_codes(buf@[11], buf@[10], buf@[17]),
    {
        let kind = buf[11];
        let kind = if kind == MEDIA_CONTINUOUS_ALT {
            MEDIA_CONTINUOUS
        } else if kind == MEDIA_DIE_CUT_ALT {
            MEDIA_DIE_CUT
        } else {
            kind
        };
        match (kind, buf[10], buf[17]) {
            (0x0A, 12, _) => Some(Media::Endless(Endless::Endless12)),
            (0x0A, 29, _) => Some(Media::Endless(Endless::Endless29)),
            (0x0A, 38, _) => Some(Media::Endless(Endless::Endless38)),
            (0x0A, 50, _) => Some(Media::Endless(Endless::Endless50)),
            (0x0A, 54, _) => Some(Media::Endless(Endless::Endless54)),
            (0x0A, 62, _) => Some(Media::Endless(Endless::Endless62)),
            (0x0A, 102, _) => Some(Media::Endless(Endless::Endless102)),
            (0x0B, 17, 54) => Some(Media::DieCut(DieCut::DieCut17x54)),
            (0x0B, 17, 87) => Some(Media::DieCut(DieCut::DieCut17x87)),
            (0x0B, 23, 23) => Some(Media::DieCut(DieCut::DieCut23x23)),
            (0x0B, 29, 42) => Some(Media::DieCut(DieCut::DieCut29x42)),
            (0x0B, 29, 90) => Some(Media::DieCut(DieCut::DieCut29x90)),
            (0x0B, 38, 90) => Some(Media::DieCut(DieCut::DieCut38x90)),
            (0x0B, 39, 48) => Some(Media::DieCut(DieCut::DieCut39x48)),
            (0x0B, 52, 29) => Some(Media::DieCut(DieCut::DieCut52x29)),
            (0x0B, 62, 29) => Some(Media::DieCut(DieCut::DieCut62x29)),
            (0x0B, 62, 100) => Some(Media::DieCut(DieCut::DieCut62x100)),
            (0x0B, 102, 51) => Some(Media::DieCut(DieCut::DieCut102x51)),
            (0x0B, 102, 153) => Some(Media::DieCut(DieCut::DieCut102x152)),
            (0x0B, 12, 12) => Some(Media::DieCut(DieCut::DieCut12Dia)),
            (0x0B, 24, 24) => Some(Media::DieCut(DieCut::DieCut24Dia)),
            (0x0B, 58, 58) => Some(Media::DieCut(DieCut::DieCut58Dia)),
            _ => None,
        }
    }
}

/// Every media is read back from the codes that its own media command sends.
pub proof fn lemma_media_codes_round_trip(m: Media)
    ensures
        spec_media_from_codes(
            m.spec_kind_code(),
            m.spec_geometry().width_mm,
            m.spec_geometry().length_mm,
        ) == Some(m),
{
}

} // verus!
