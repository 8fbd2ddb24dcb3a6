use vstd::prelude::*;
use vstd::string::*;

use crate::{NORMAL_PRINTER_WIDTH, WIDE_PRINTER_WIDTH};

verus! {

/// The printer models of the QL family.
#[derive(Debug, Clone, Copy, PartialEq, Eq, Structural)]
pub enum Model {
    QL500,
    QL550,
    QL560,
    QL570,
    QL580N,
    QL600,
    QL650TD,
    QL700,
    QL710W,
    QL720NW,
    QL800,
    QL810W,
    QL820NWB,
    QL1050,
    QL1060N,
    QL1100,
    QL1110NWB,
    QL1115NWB,
}

/// True when the two strings hold the same characters.
pub fn str_eq(a: &str, b: &str) -> (r: bool)
    ensures
        r == (a@ == b@),
{
    let n = a.unicode_len();
    if n != b.unicode_len() {
        return false;
    }
    let mut i: usize = 0;
    while i < n
        invariant
            n == a@.len(),
            n == b@.len(),
            i <= n,
            forall|j: int| 0 <= j < i ==> a@[j] == b@[j],
        decreases n - i,
    {
        if a.get_char(i) != b.get_char(i) {
            return false;
        }
        i = i + 1;
    }
    assert(a@ =~= b@);
    true
}

impl Model {
    /// The name under which the model is sold, e.g. "QL-800".
    pub open spec fn spec_name(self) -> Seq<char> {
        match self {
            Model::QL500 => "QL-500"@,
            Model::QL550 => "QL-550"@,
            Model::QL560 => "QL-560"@,
            Model::QL570 => "QL-570"@,
            Model::QL580N => "QL-580N"@,
            Model::QL600 => "QL-600"@,
            Model::QL650TD => "QL-650TD"@,
            Model::QL700 => "QL-700"@,
            Model::QL710W => "QL-710W"@,
            Model::QL720NW => "QL-720NW"@,
            Model::QL800 => "QL-800"@,
            Model::QL810W => "QL-810W"@,
            Model::QL820NWB => "QL-820NWB"@,
            Model::QL1050 => "QL-1050"@,
            Model::QL1060N => "QL-1060N"@,
            Model::QL1100 => "QL-1100"@,
            Model::QL1110NWB => "QL-1110NWB"@,
            Model::QL1115NWB => "QL-1115NWB"@,
        }
    }

    /// The models that the driver can be bound to by name.
    pub open spec fn spec_from_str(s: Seq<char>) -> Option<Model> {
        if s == "QL-600"@ {
            Some(Model::QL600)
        } else if s == "QL-720NW"@ {
            Some(Model::QL720NW)
        } else if s == "QL-800"@ {
            Some(Model::QL800)
        } else if s == "QL-810W"@ {
            Some(Model::QL810W)
        } else if s == "QL-820NWB"@ {
            Some(Model::QL820NWB)
        } else if s == "QL-1100"@ {
            Some(Model::QL1100)
        } else if s == "QL-1110NWB"@ {
            Some(Model::QL1110NWB)
        } else if s == "QL-1115NWB"@ {
            Some(Model::QL1115NWB)
        } else {
            None
        }
    }

    /// The model that a status reply names by its code at byte 4.
    pub open spec fn spec_from_code(code: u8) -> Option<Model> {
        match code {
            0x47 => Some(Model::QL600),
            0x37 => Some(Model::QL720NW),
            0x38 => Some(Model::QL800),
            0x39 => Some(Model::QL810W),
            0x41 => Some(Model::QL820NWB),
            0x43 => Some(Model::QL1100),
            0x44 => Some(Model::QL1110NWB),
            0x45 => Some(Model::QL1115NWB),
            _ => None,
        }
    }

    /// The USB product id of the model; 0 where the driver knows none.
    pub open spec fn spec_pid(self) -> u16 {
        match self {
            Model::QL600 => 0x20C0,
            Model::QL720NW => 0x2044,
            Model::QL800 => 0x209b,
            Model::QL810W => 0x209c,
            Model::QL820NWB => 0x209d,
            Model::QL1100 => 0x20A7,
            Model::QL1110NWB => 0x20A8,
            Model::QL1115NWB => 0x20AB,
            _ => 0x0000,
        }
    }

    /// Number of print head pins: the 1000 series are wide.
    pub open spec fn spec_pins(self) -> u32 {
        match self {
            Model::QL1050 | Model::QL1060N | Model::QL1100 | Model::QL1110NWB
            | Model::QL1115NWB => WIDE_PRINTER_WIDTH,
            _ => NORMAL_PRINTER_WIDTH,
        }
    }

    /// Parses a model name such as "QL-800".
    pub fn from_str(model: &str) -> (r: Option<Self>)
        ensures
            r == Model::spec_from_str(model@),
    {
        if str_eq(model, "QL-600") {
            Some(Self::QL600)
        } else if str_eq(model, "QL-720NW") {
            Some(Self::QL720NW)
        } else if str_eq(model, "QL-800") {
            Some(Self::QL800)
        } else if str_eq(model, "QL-810W") {
            Some(Self::QL810W)
        } else if str_eq(model, "QL-820NWB") {
            Some(Self::QL820NWB)
        } else if str_eq(model, "QL-1100") {
            Some(Self::QL1100)
        } else if str_eq(model, "QL-1110NWB") {
            Some(Self::QL1110NWB)
        } else if str_eq(model, "QL-1115NWB") {
            Some(Self::QL1115NWB)
        } else {
            None
        }
    }

    /// The model named by a status code, if the code is known.
    pub fn try_from_code(code: u8) -> (r: Option<Self>)
        ensures
            r == Model::spec_from_code(code),
    {
        match code {
            0x47 => Some(Self::QL600),
            0x37 => Some(Self::QL720NW),
            0x38 => Some(Self::QL800),
            0x39 => Some(Self::QL810W),
            0x41 => Some(Self::QL820NWB),
            0x43 => Some(Self::QL1100),
            0x44 => Some(Self::QL1110NWB),
            0x45 => Some(Self::QL1115NWB),
            _ => None,
        }
    }

    /// The model named by a known status code.
    pub fn from_code(code: u8) -> (r: Self)
        requires
            Model::spec_from_code(code).is_some(),
        ensures
            Model::spec_from_code(code) == Some(r),
    {
        Self::try_from_code(code).unwrap()
    }

    /// The USB product id of the model.
    pub fn pid(&self) -> (r: u16)
        ensures
            r == self.spec_pid(),
    {
        match self {
            Self::QL600 => 0x20C0,
            Self::QL720NW => 0x2044,
            Self::QL800 => 0x209b,
            Self::QL810W => 0x209c,
            Self::QL820NWB => 0x209d,
            Self::QL1100 => 0x20A7,
            Self::QL1110NWB => 0x20A8,
            Self::QL1115NWB => 0x20AB,
            _ => 0x0000,
        }
    }

    /// Number of print head pins.
    pub fn pins(&self) -> (r: u32)
        ensures
            r == self.spec_pins(),
    {
        match self {
            Self::QL1050 | Self::QL1060N | Self::QL1100 | Self::QL1110NWB
            | Self::QL1115NWB => WIDE_PRINTER_WIDTH,
            _ => NORMAL_PRINTER_WIDTH,
        }
    }

    /// The name under which the model is sold.
    pub fn name(&self) -> (r: &'static str)
        ensures
            r@ == self.spec_name(),
    {
        match self {
            Self::QL500 => "QL-500",
            Self::QL550 => "QL-550",
            Self::QL560 => "QL-560",
            Self::QL570 => "QL-570",
            Self::QL580N => "QL-580N",
            Self::QL600 => "QL-600",
            Self::QL650TD => "QL-650TD",
            Self::QL700 => "QL-700",
            Self::QL710W => "QL-710W",
            Self::QL720NW => "QL-720NW",
            Self::QL800 => "QL-800",
            Self::QL810W => "QL-810W",
            Self::QL820NWB => "QL-820NWB",
            Self::QL1050 => "QL-1050",
            Self::QL1060N => "QL-1060N",
            Self::QL1100 => "QL-1100",
            Self::QL1110NWB => "QL-1110NWB",
            Self::QL1115NWB => "QL-1115NWB",
        }
    }
}

} // verus!
