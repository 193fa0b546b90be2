use vstd::prelude::*;

verus! {

/// Thickness, in pixels, of the border a frame adds around its client on
/// every side.
pub const BORDER_WIDTH: u32 = 3;

/// Geometry of a managed window: `x`/`y` are the root-relative origin of the
/// frame, `width`/`height` the size of the client's interior.  Coordinates
/// may be negative (multi-monitor layouts); dimensions are at least 1.
///
/// Every value the manager stores stays within the range the wire protocol
/// can represent: 16-bit signed coordinates and 16-bit unsigned dimensions.
#[derive(Clone, Copy, Debug, PartialEq, Eq, Structural)]
pub struct Geometry {
    pub x: i32,
    pub y: i32,
    pub width: u32,
    pub height: u32,
}

impl Geometry {
    /// Well-formed geometry: dimensions at least 1, every field within the
    /// wire protocol's 16-bit range.
    pub open spec fn wf(self) -> bool {
        &&& -0x8000 <= self.x <= 0x7fff
        &&& -0x8000 <= self.y <= 0x7fff
        &&& 1 <= self.width <= 0xffff
        &&& 1 <= self.height <= 0xffff
    }
}

/// A wire dimension with zero replaced by the minimum of 1.
pub open spec fn min_one(w: u16) -> u32 {
    if w == 0 { 1u32 } else { w as u32 }
}

/// The geometry a raw wire rectangle denotes: coordinates widened, zero
/// dimensions clamped up to 1.
pub open spec fn wire_geometry(x: i16, y: i16, width: u16, height: u16) -> Geometry {
    Geometry {
        x: x as i32,
        y: y as i32,
        width: min_one(width),
        height: min_one(height),
    }
}

impl Geometry {
    /// Builds a well-formed geometry from raw wire values, clamping zero
    /// dimensions up to the minimum of 1.
    pub fn from_wire(x: i16, y: i16, width: u16, height: u16) -> (g: Geometry)
        ensures
            g == wire_geometry(x, y, width, height),
            g.wf(),
    {
        Geometry {
            x: x as i32,
            y: y as i32,
            width: if width == 0 { 1 } else { width as u32 },
            height: if height == 0 { 1 } else { height as u32 },
        }
    }
}

/// A coordinate forced back into the wire protocol's 16-bit signed range.
pub open spec fn clamp_coord(v: int) -> i32 {
    if v < -0x8000 {
        -0x8000i32
    } else if v > 0x7fff {
        0x7fffi32
    } else {
        v as i32
    }
}

/// Clamps a coordinate into the wire protocol's 16-bit signed range.
pub fn clamp_coord_exec(v: i32) -> (r: i32)
    ensures
        r == clamp_coord(v as int),
        -0x8000 <= r <= 0x7fff,
{
    if v < -0x8000 {
        -0x8000
    } else if v > 0x7fff {
        0x7fff
    } else {
        v
    }
}

/// A configure request: the client named by `window` asks to change the
/// fields it filled in; `None` fields are left untouched.  `sibling` and
/// `stack_mode` describe a requested restacking and are passed through.
#[derive(Clone, Copy, Debug, PartialEq, Eq)]
pub struct ConfigureRequest {
    pub window: u32,
    pub x: Option<i16>,
    pub y: Option<i16>,
    pub width: Option<u16>,
    pub height: Option<u16>,
    pub sibling: Option<u32>,
    pub stack_mode: Option<u32>,
}

/// The geometry that honouring `r` on top of `g` yields: every field the
/// request set is taken (dimensions clamped to a minimum of 1), every field
/// it left out keeps its previous value bit for bit.
pub open spec fn merged_geometry(g: Geometry, r: ConfigureRequest) -> Geometry {
    Geometry {
        x: if r.x is Some { r.x->0 as i32 } else { g.x },
        y: if r.y is Some { r.y->0 as i32 } else { g.y },
        width: if r.width is Some { min_one(r.width->0) } else { g.width },
        height: if r.height is Some { min_one(r.height->0) } else { g.height },
    }
}

/// Applies a configure request to a stored geometry.
///
/// Fields the request does not specify are unchanged after handling, and the
/// result stays well formed.
pub fn apply_configure(g: Geometry, r: ConfigureRequest) -> (ng: Geometry)
    requires
        g.wf(),
    ensures
        ng == merged_geometry(g, r),
        ng.wf(),
        r.x is None ==> ng.x == g.x,
        r.y is None ==> ng.y == g.y,
        r.width is None ==> ng.width == g.width,
        r.height is None ==> ng.height == g.height,
{
    Geometry {
        x: match r.x {
            Some(v) => v as i32,
            None => g.x,
        },
        y: match r.y {
            Some(v) => v as i32,
            None => g.y,
        },
        width: match r.width {
            Some(v) => if v == 0 { 1 } else { v as u32 },
            None => g.width,
        },
        height: match r.height {
            Some(v) => if v == 0 { 1 } else { v as u32 },
            None => g.height,
        },
    }
}

} // verus!
