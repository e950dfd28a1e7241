//! The typed request/reply protocol of the host–script bridge.
//!
//! Scripts issue `HostMsg` requests and block on `RhaiMsg` replies. The
//! protocol is a closed set of tagged variants; the scripting adapter
//! translates verb names and floating-point arguments at the boundary, so
//! every payload here is a plain value. Fractional arguments (blur sigma,
//! contrast, rectangle corners in UV space) travel as the bit patterns of the
//! floating-point numbers the adapter received; the dispatcher never reads
//! them, it only routes them.

use vstd::prelude::*;
use vstd::string::StrSliceExecFns;

verus! {

/// The resize filters a script may name.
#[derive(Clone, Copy, Debug, PartialEq, Eq, Structural)]
pub enum FilterKind {
    Nearest,
    Triangle,
    CatmullRom,
    Gaussian,
    Lanczos3,
}

/// A selection rectangle in normalized UV space. Each field is the bit
/// pattern of the 32-bit float the script supplied.
#[derive(Clone, Copy, Debug, PartialEq, Eq, Structural)]
pub struct RectUV {
    pub px: u32,
    pub py: u32,
    pub qx: u32,
    pub qy: u32,
}

/// A selection rectangle in pixel space.
#[derive(Clone, Copy, Debug, PartialEq, Eq, Structural)]
pub struct RectXY {
    pub px: i32,
    pub py: i32,
    pub qx: i32,
    pub qy: i32,
}

/// A translated UI input event: either a click (with coordinates both in
/// normalized UV space, as f32 bit patterns, and in pixel space) or a key
/// press (with its canonical lowercase name and modifier flags).
#[derive(Clone, Debug, PartialEq)]
pub struct Input {
    pub is_click: bool,
    pub key: String,
    pub u: u32,
    pub v: u32,
    pub x: i32,
    pub y: i32,
    pub shift: bool,
    pub control: bool,
    pub alt: bool,
    pub nummod: bool,
    pub capsmod: bool,
}

/// A window size, as handed to a script by `get_wh`.
#[derive(Clone, Copy, Debug, PartialEq, Eq, Structural)]
pub struct WH {
    pub w: i64,
    pub h: i64,
}

/// A request from the script thread to the host. Mutating commands carry a
/// source index and a destination index; a negative destination means
/// "append a new buffer". Fractional payloads are f64 bit patterns.
#[derive(Debug, PartialEq)]
pub enum HostMsg {
    Kill,
    GetInputEvent,
    GetWH,
    ClearRects,
    DrawRectUV(RectUV),
    DrawRectXY(RectXY),
    Crop(i64, i64, i64, i64, i64, i64),
    Save(i64, String),
    FlipH(i64, i64),
    FlipV(i64, i64),
    Rot90(i64, i64),
    Rot180(i64, i64),
    Rot270(i64, i64),
    Invert(i64, i64),
    Grayscale(i64, i64),
    Blur(i64, i64, u64),
    Unsharpen(i64, i64, u64, i32),
    Filter3x3(i64, i64, [u64; 9]),
    AdjustContrast(i64, i64, u64),
    Brighten(i64, i64, i32),
    Huerotate(i64, i64, i32),
    Resize(i64, i64, i64, i64, FilterKind),
    ResizeExact(i64, i64, i64, i64, FilterKind),
    ResizeFill(i64, i64, i64, i64, FilterKind),
    Thumbnail(i64, i64, i64, i64),
    ThumbnailExact(i64, i64, i64, i64),
    Show(i64),
    ShowNext,
    ShowPrev,
    Shown,
    Create(i64, i64),
    Copy(i64, i64, i64, i64),
    Repeat,
}

/// A reply from the host to the script thread. `Int` doubles as an index
/// result and as a boolean encoded 0/1.
#[derive(Clone, Debug, PartialEq)]
pub enum RhaiMsg {
    Killed,
    Input(Input),
    Int(i64),
}

impl Clone for HostMsg {
    /// The repeat mechanism re-submits the last command verbatim, so a clone
    /// must equal the original value.
    fn clone(&self) -> (res: Self)
        ensures
            res == *self,
    {
        match self {
            HostMsg::Kill => HostMsg::Kill,
            HostMsg::GetInputEvent => HostMsg::GetInputEvent,
            HostMsg::GetWH => HostMsg::GetWH,
            HostMsg::ClearRects => HostMsg::ClearRects,
            HostMsg::DrawRectUV(r) => HostMsg::DrawRectUV(*r),
            HostMsg::DrawRectXY(r) => HostMsg::DrawRectXY(*r),
            HostMsg::Crop(s, d, px, py, qx, qy) => HostMsg::Crop(*s, *d, *px, *py, *qx, *qy),
            HostMsg::Save(s, p) => HostMsg::Save(*s, p.clone()),
            HostMsg::FlipH(s, d) => HostMsg::FlipH(*s, *d),
            HostMsg::FlipV(s, d) => HostMsg::FlipV(*s, *d),
            HostMsg::Rot90(s, d) => HostMsg::Rot90(*s, *d),
            HostMsg::Rot180(s, d) => HostMsg::Rot180(*s, *d),
            HostMsg::Rot270(s, d) => HostMsg::Rot270(*s, *d),
            HostMsg::Invert(s, d) => HostMsg::Invert(*s, *d),
            HostMsg::Grayscale(s, d) => HostMsg::Grayscale(*s, *d),
            HostMsg::Blur(s, d, sigma) => HostMsg::Blur(*s, *d, *sigma),
            HostMsg::Unsharpen(s, d, sigma, t) => HostMsg::Unsharpen(*s, *d, *sigma, *t),
            HostMsg::Filter3x3(s, d, k) => HostMsg::Filter3x3(*s, *d, *k),
            HostMsg::AdjustContrast(s, d, c) => HostMsg::AdjustContrast(*s, *d, *c),
            HostMsg::Brighten(s, d, v) => HostMsg::Brighten(*s, *d, *v),
            HostMsg::Huerotate(s, d, v) => HostMsg::Huerotate(*s, *d, *v),
            HostMsg::Resize(s, d, w, h, f) => HostMsg::Resize(*s, *d, *w, *h, *f),
            HostMsg::ResizeExact(s, d, w, h, f) => HostMsg::ResizeExact(*s, *d, *w, *h, *f),
            HostMsg::ResizeFill(s, d, w, h, f) => HostMsg::ResizeFill(*s, *d, *w, *h, *f),
            HostMsg::Thumbnail(s, d, w, h) => HostMsg::Thumbnail(*s, *d, *w, *h),
            HostMsg::ThumbnailExact(s, d, w, h) => HostMsg::ThumbnailExact(*s, *d, *w, *h),
            HostMsg::Show(i) => HostMsg::Show(*i),
            HostMsg::ShowNext => HostMsg::ShowNext,
            HostMsg::ShowPrev => HostMsg::ShowPrev,
            HostMsg::Shown => HostMsg::Shown,
            HostMsg::Create(w, h) => HostMsg::Create(*w, *h),
            HostMsg::Copy(s, d, x, y) => HostMsg::Copy(*s, *d, *x, *y),
            HostMsg::Repeat => HostMsg::Repeat,
        }
    }
}

/// Pure queries carry no re-doable action: they never become the last
/// command of the repeat mechanism.
pub open spec fn is_query(m: HostMsg) -> bool {
    m == HostMsg::GetInputEvent || m == HostMsg::GetWH || m == HostMsg::Shown
}

/// Whether an executed command overwrites the repeat mechanism's snapshot:
/// everything but the pure queries and `Repeat` itself does.
pub open spec fn updates_last(m: HostMsg) -> bool {
    !is_query(m) && m != HostMsg::Repeat
}

/// ASCII lowercasing of one character; other characters are unchanged. None
/// of the accepted filter names can be reached from a non-ASCII character by
/// Unicode lowercasing, so this folding accepts exactly the same strings.
pub open spec fn spec_lower_char(c: char) -> char {
    if 65 <= c as u32 && c as u32 <= 90 {
        ((c as u32 + 32) as u8) as char
    } else {
        c
    }
}

/// A string lowercased character by character.
pub open spec fn lower_seq(s: Seq<char>) -> Seq<char> {
    s.map_values(|c: char| spec_lower_char(c))
}

/// The filter a name denotes, compared case-insensitively: `nearest`,
/// `triangle`, `catmullrom`/`catmull-rom`, `gaussian`, `lanczos3`/`lanczos`;
/// any other name defaults to `Triangle`.
pub open spec fn spec_filtertype(s: Seq<char>) -> FilterKind {
    let l = lower_seq(s);
    if l == "nearest"@ {
        FilterKind::Nearest
    } else if l == "catmullrom"@ || l == "catmull-rom"@ {
        FilterKind::CatmullRom
    } else if l == "gaussian"@ {
        FilterKind::Gaussian
    } else if l == "lanczos3"@ || l == "lanczos"@ {
        FilterKind::Lanczos3
    } else {
        FilterKind::Triangle
    }
}

/// Whether `s`, lowercased, equals `pat` (which is given lowercase already).
fn lower_eq(s: &str, pat: &str) -> (r: bool)
    ensures
        r == (lower_seq(s@) == pat@),
{
    let n = s.unicode_len();
    let m = pat.unicode_len();
    if n != m {
        proof {
            assert(lower_seq(s@).len() == s@.len());
        }
        return false;
    }
    let mut i: usize = 0;
    while i < n
        invariant
            i <= n,
            n == s@.len(),
            n == pat@.len(),
            forall|j: int| 0 <= j < i ==> lower_seq(s@)[j] == pat@[j],
        decreases n - i,
    {
        let c = s.get_char(i);
        let cu = c as u32;
        let lc: char = if cu >= 65 && cu <= 90 {
            ((cu + 32) as u8) as char
        } else {
            c
        };
        let p = pat.get_char(i);
        if lc != p {
            proof {
                assert(lower_seq(s@)[i as int] != pat@[i as int]);
            }
            return false;
        }
        i += 1;
    }
    proof {
        assert(lower_seq(s@) =~= pat@);
    }
    true
}

/// Translate a script-supplied filter name into the closed protocol variant.
pub fn filtertype(f: &str) -> (r: FilterKind)
    ensures
        r == spec_filtertype(f@),
{
    proof {
        reveal_strlit("nearest");
        reveal_strlit("triangle");
        reveal_strlit("catmullrom");
        reveal_strlit("catmull-rom");
        reveal_strlit("gaussian");
        reveal_strlit("lanczos3");
        reveal_strlit("lanczos");
        assert("nearest"@.len() == 7 && "triangle"@.len() == 8 && "catmullrom"@.len() == 10
            && "catmull-rom"@.len() == 11 && "gaussian"@.len() == 8 && "lanczos3"@.len() == 8
            && "lanczos"@.len() == 7);
        assert("triangle"@[0] == 't' && "gaussian"@[0] == 'g' && "lanczos3"@[0] == 'l'
            && "nearest"@[0] == 'n' && "lanczos"@[0] == 'l');
    }
    if lower_eq(f, "nearest") {
        FilterKind::Nearest
    } else if lower_eq(f, "triangle") {
        FilterKind::Triangle
    } else if lower_eq(f, "catmullrom") {
        FilterKind::CatmullRom
    } else if lower_eq(f, "catmull-rom") {
        FilterKind::CatmullRom
    } else if lower_eq(f, "gaussian") {
        FilterKind::Gaussian
    } else if lower_eq(f, "lanczos3") {
        FilterKind::Lanczos3
    } else if lower_eq(f, "lanczos") {
        FilterKind::Lanczos3
    } else {
        FilterKind::Triangle
    }
}

} // verus!
