//! QR codes for the login URL: as text for a terminal, and as a square
//! picture of dark and light pixels.
use vstd::prelude::*;
use vstd::string::StringSliceAdditionalSpecFns;

verus! {

/// What `qrcode::QrCode::new(data)` builds: `None` where the data cannot
/// be encoded, else the width in modules and the modules row by row, `true`
/// for dark.
pub uninterp spec fn qr_modules_of(data: Seq<u8>) -> Option<(usize, Seq<bool>)>;

/// The modules of a QR code.
pub struct QrModules {
    pub width: usize,
    pub dark: Vec<bool>,
}

/// Encodes `data` with `qrcode::QrCode::new` and reads its modules. The
/// contract names the result, and states three facts of the crate's
/// source: the modules are `width * width` (the canvas is allocated so and
/// `to_colors` hands them back whole, row by row), a width is at most 177
/// (version 40), and the top-left module is dark (the outer ring of the
/// finder pattern drawn around (3, 3), which masking leaves alone).
#[verifier::external_body]
fn qr_modules(data: &[u8]) -> (m: Option<QrModules>)
    ensures
        match m {
            Some(q) => {
                &&& qr_modules_of(data@) == Some((q.width, q.dark@))
                &&& q.dark@.len() == q.width * q.width
                &&& q.width <= 177
                &&& q.dark@.len() > 0 && q.dark@[0]
            },
            None => qr_modules_of(data@) is None,
        },
{
    match qrcode::QrCode::new(data) {
        Ok(code) => {
            let dark = code.to_colors().into_iter().map(|c| matches!(c, qrcode::Color::Dark)).collect();
            Some(QrModules { width: code.width(), dark })
        },
        Err(_) => None,
    }
}

/// What the terminal rendering of `qrcode::QrCode::new(data)` gives: two
/// module rows per text line (`Dense1x2`), no quiet zone, one character per
/// module; `None` where the data cannot be encoded.
pub uninterp spec fn qr_text_of(data: Seq<u8>) -> Option<Seq<char>>;

/// Encodes `data` and renders it as text with the crate's `Dense1x2`
/// renderer. The contract names the result; the renderer's code page is
/// the outside crate's.
#[verifier::external_body]
fn qr_text(data: &[u8]) -> (t: Option<String>)
    ensures
        match t {
            Some(s) => qr_text_of(data@) == Some(s@),
            None => qr_text_of(data@) is None,
        },
{
    match qrcode::QrCode::new(data) {
        Ok(code) => Some(
            code.render::<qrcode::render::unicode::Dense1x2>().quiet_zone(false).module_dimensions(1, 1).build(),
        ),
        Err(_) => None,
    }
}

/// The text shown when no QR code could be made.
pub const QR_FAILED: &'static str = "QR generation failed";

/// The QR code of `url` as text, or a note that it could not be made.
pub fn make_qr(url: &str) -> (t: String)
    ensures
        t@ == (match qr_text_of(url.spec_bytes()) {
            Some(s) => s,
            None => QR_FAILED@,
        }),
{
    match qr_text(url.as_bytes()) {
        Some(s) => s,
        None => String::from_str(QR_FAILED),
    }
}

/// Light modules around the code, on each side.
pub const QUIET_ZONE: usize = 4;

/// Pixels per module, in each direction.
pub const MODULE_SCALE: usize = 6;

/// A square picture, row by row, `true` for a dark pixel.
pub struct QrImage {
    pub width: usize,
    pub height: usize,
    pub dark: Vec<bool>,
}

/// Whether the module at column `x`, row `y` (counted inside the quiet
/// zone) of a code of width `w` is dark; outside the code it is light.
pub open spec fn module_dark(modules: Seq<bool>, w: int, x: int, y: int) -> bool {
    0 <= x < w && 0 <= y < w && modules[y * w + x]
}

/// The pixel at column `px`, row `py` of the picture of a code of width `w`.
pub open spec fn pixel_dark(modules: Seq<bool>, w: int, px: int, py: int) -> bool {
    module_dark(modules, w, px / 6 - 4, py / 6 - 4)
}

/// `img` is the picture of the modules `modules` of width `w`.
pub open spec fn pictures(img: QrImage, modules: Seq<bool>, w: int) -> bool {
    let size = (w + 2 * 4) * 6;
    &&& img.width == size
    &&& img.height == size
    &&& img.dark@.len() == size * size
    &&& forall|px: int, py: int| 0 <= px < size && 0 <= py < size ==>
        #[trigger] img.dark@[py * size + px] == pixel_dark(modules, w, px, py)
}

/// The QR code of `url` as a picture: each module six pixels square, with
/// a quiet zone of four light modules around it. A picture always holds
/// a dark pixel: the first module of every code is dark.
pub fn qr_image(url: &str) -> (img: Option<QrImage>)
    ensures
        match qr_modules_of(url.spec_bytes()) {
            None => img is None,
            Some((w, m)) => img matches Some(i) && pictures(i, m, w as int),
        },
        img matches Some(i) ==> i.dark@.contains(true),
{
    let code = match qr_modules(url.as_bytes()) {
        Some(c) => c,
        None => {
            return None;
        },
    };
    let w = code.width;
    assert(w > 0) by (nonlinear_arith)
        requires
            code.dark@.len() == w * w,
            code.dark@.len() > 0,
    ;
    let modules = code.width + QUIET_ZONE * 2;
    let size = modules * MODULE_SCALE;
    assert(size * size <= 1110 * 1110) by (nonlinear_arith)
        requires
            size <= 1110,
    ;
    let mut pixels: Vec<bool> = Vec::new();
    let mut py: usize = 0;
    while py < size
        invariant
            w == code.width,
            0 < w <= 177,
            code.dark@.len() == w * w,
            code.dark@[0],
            size == (w + 8) * 6,
            py <= size,
            pixels@.len() == py * size,
            forall|qx: int, qy: int| 0 <= qx < size && 0 <= qy < py ==>
                #[trigger] pixels@[qy * size + qx] == pixel_dark(code.dark@, w as int, qx, qy),
        decreases size - py,
    {
        let mut px: usize = 0;
        while px < size
            invariant
                w == code.width,
                w <= 177,
                code.dark@.len() == w * w,
                size == (w + 8) * 6,
                py < size,
                px <= size,
                pixels@.len() == py * size + px,
                forall|qx: int, qy: int| 0 <= qx < size && 0 <= qy < py ==>
                    #[trigger] pixels@[qy * size + qx] == pixel_dark(code.dark@, w as int, qx, qy),
                forall|qx: int| 0 <= qx < px ==>
                    #[trigger] pixels@[py * size + qx] == pixel_dark(code.dark@, w as int, qx, py as int),
            decreases size - px,
        {
            let mx = px / MODULE_SCALE;
            let my = py / MODULE_SCALE;
            let dark = if mx >= QUIET_ZONE && my >= QUIET_ZONE && mx - QUIET_ZONE < w && my - QUIET_ZONE < w {
                let x = mx - QUIET_ZONE;
                let y = my - QUIET_ZONE;
                assert(y * w + x < w * w && w * w <= 177 * 177) by (nonlinear_arith)
                    requires
                        x < w,
                        y < w,
                        w <= 177,
                ;
                code.dark[y * w + x]
            } else {
                false
            };
            assert(py * size + px < size * size) by (nonlinear_arith)
                requires
                    px < size,
                    py < size,
            ;
            pixels.push(dark);
            proof {
                assert forall|qx: int, qy: int| 0 <= qx < size && 0 <= qy < py implies
                    #[trigger] pixels@[qy * size + qx] == pixel_dark(code.dark@, w as int, qx, qy) by {
                    assert(qy * size + qx < py * size) by (nonlinear_arith)
                        requires
                            0 <= qx < size,
                            0 <= qy < py,
                    ;
                }
            }
            px = px + 1;
        }
        proof {
            assert((py + 1) * size == py * size + size) by (nonlinear_arith);
            assert forall|qx: int, qy: int| 0 <= qx < size && 0 <= qy < py + 1 implies
                #[trigger] pixels@[qy * size + qx] == pixel_dark(code.dark@, w as int, qx, qy) by {
                if qy == py {
                    assert(pixels@[py * size + qx] == pixel_dark(code.dark@, w as int, qx, py as int));
                }
            }
        }
        py = py + 1;
    }
    proof {
        let k = 24 * size + 24;
        assert(pixels@[k] == pixel_dark(code.dark@, w as int, 24, 24));
        assert(0 <= k < pixels@.len()) by (nonlinear_arith)
            requires
                k == 24 * size + 24,
                pixels@.len() == size * size,
                size >= 54,
        ;
        assert(pixels@[k]);
    }
    Some(QrImage { width: size, height: size, dark: pixels })
}

/// The bytes that percent-encoding leaves as they are: ASCII letters and
/// digits, `-`, `.`, `_` and `~`.
pub open spec fn unreserved(b: u8) -> bool {
    (0x30 <= b <= 0x39) || (0x41 <= b <= 0x5a) || (0x61 <= b <= 0x7a) || b == 0x2d || b == 0x2e || b == 0x5f
        || b == 0x7e
}

/// The upper-case hexadecimal digit of `d` (below 16).
pub open spec fn hex_digit(d: u8) -> char {
    if d < 10 {
        (0x30 + d) as char
    } else {
        (0x41 - 10 + d) as char
    }
}

/// `data` percent-encoded: each byte that is not unreserved becomes `%`
/// and its two upper-case hexadecimal digits.
pub open spec fn percent_encoded(data: Seq<u8>) -> Seq<char>
    decreases data.len(),
{
    if data.len() == 0 {
        Seq::empty()
    } else {
        let b = data.last();
        percent_encoded(data.drop_last()) + if unreserved(b) {
            seq![b as char]
        } else {
            seq!['%', hex_digit(b / 16), hex_digit(b % 16)]
        }
    }
}

/// `urlencoding::encode`: percent-encodes every byte of the text but
/// ASCII letters, digits, `-`, `.`, `_` and `~`, with upper-case digits, as
/// the crate's documentation and source (`encode_into`, `to_hex_digit`)
/// show.
#[verifier::external_body]
fn url_encode(s: &str) -> (e: String)
    ensures
        e@ == percent_encoded(s.spec_bytes()),
{
    urlencoding::encode(s).into_owned()
}

/// The service that draws a QR code for the text after `text=`, opened in
/// a browser when the code cannot be scanned from the window.
pub const QR_BROWSER_SERVICE: &'static str = "https://api.cl2wm.cn/api/qrcode/code?text=";

/// The address of a picture of the QR code of `url`, drawn by the service.
pub fn qr_browser_url(url: &str) -> (u: String)
    ensures
        u@ == QR_BROWSER_SERVICE@ + percent_encoded(url.spec_bytes()),
{
    let mut u = String::from_str(QR_BROWSER_SERVICE);
    let e = url_encode(url);
    crate::text::push_str(&mut u, e.as_str());
    u
}

} // verus!
