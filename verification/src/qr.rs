//! QR codes: the module grid that `qrcode` encodes for some data, and where
//! its dark modules fall once the quiet zone is added around it.

use vstd::prelude::*;

verus! {

/// The module grid `qrcode::QrCode::new` builds for `data`: its width and
/// whether each module is dark, row by row; `None` when the data cannot be
/// encoded.
pub uninterp spec fn qr_grid_of(data: Seq<u8>) -> Option<(nat, Seq<bool>)>;

/// `qrcode::QrCode::new(data)` (medium error correction, smallest version),
/// then `width()` and `to_colors()` with each color read as "is dark". The
/// crate's source gives a square grid of `width * width` modules, with a width
/// between 21 (version 1) and 177 (version 40).
#[verifier::external_body]
fn qr_encode(data: &[u8]) -> (r: Option<(usize, Vec<bool>)>)
    ensures
        qr_grid_of(data@) == match r {
            Some((w, m)) => Some((w as nat, m@)),
            None => None,
        },
        r matches Some((w, m)) ==> m@.len() == w * w && 21 <= w <= 177,
{
    match qrcode::QrCode::new(data) {
        Ok(code) => Some(
            (code.width(), code.to_colors().iter().map(|c| *c == qrcode::Color::Dark).collect()),
        ),
        Err(_) => None,
    }
}

/// Width in modules of the light border drawn on each side of the code.
pub const QUIET_ZONE: usize = 4;

/// An encoded QR code: its width in modules and which modules are dark.
pub struct QrGrid {
    /// Modules per side, without the quiet zone.
    pub modules: usize,
    /// Whether each module is dark, row by row.
    pub dark: Vec<bool>,
}

impl QrGrid {
    /// The grid is square.
    pub open spec fn wf(&self) -> bool {
        &&& self.dark@.len() == self.modules * self.modules
        &&& self.modules <= 177
    }
}

/// The drawing positions (column, row), quiet zone included, of the dark
/// modules among the first `n` modules of a grid `w` wide, in row order.
pub open spec fn dark_positions(dark: Seq<bool>, w: int, n: int) -> Seq<(int, int)>
    decreases n,
{
    if n <= 0 {
        Seq::empty()
    } else if dark[n - 1] {
        dark_positions(dark, w, n - 1).push(((n - 1) % w + 4, (n - 1) / w + 4))
    } else {
        dark_positions(dark, w, n - 1)
    }
}

/// Encodes `data` into a QR grid; `None` when it is too long for a QR code.
pub fn encode_qr(data: &[u8]) -> (g: Option<QrGrid>)
    ensures
        match (g, qr_grid_of(data@)) {
            (Some(g), Some((w, m))) => g.modules == w && g.dark@ == m && g.wf(),
            (None, None) => true,
            _ => false,
        },
{
    match qr_encode(data) {
        Some((w, m)) => Some(QrGrid { modules: w, dark: m }),
        None => None,
    }
}

impl QrGrid {
    /// Modules per side with the quiet zone on both sides.
    pub fn total_modules(&self) -> (n: usize)
        requires
            self.wf(),
        ensures
            n == self.modules + 2 * QUIET_ZONE,
    {
        self.modules + QUIET_ZONE * 2
    }

    /// Where the dark modules are drawn, as (column, row) in a grid that
    /// includes the quiet zone, in row order.
    pub fn dark_cells(&self) -> (cells: Vec<(usize, usize)>)
        requires
            self.wf(),
        ensures
            cells@.map_values(|c: (usize, usize)| (c.0 as int, c.1 as int)) == dark_positions(
                self.dark@,
                self.modules as int,
                self.dark@.len() as int,
            ),
    {
        let w = self.modules;
        let n = self.dark.len();
        let mut cells: Vec<(usize, usize)> = Vec::new();
        let mut k: usize = 0;
        while k < n
            invariant
                k <= n,
                n == self.dark@.len(),
                n == w * w,
                w <= 177,
                cells@.map_values(|c: (usize, usize)| (c.0 as int, c.1 as int)) == dark_positions(
                    self.dark@,
                    w as int,
                    k as int,
                ),
            decreases n - k,
        {
            let ghost before = cells@.map_values(|c: (usize, usize)| (c.0 as int, c.1 as int));
            if self.dark[k] {
                proof {
                    assert(w > 0) by (nonlinear_arith)
                        requires k < n, n == w * w;
                    assert(k / w < 177) by (nonlinear_arith)
                        requires k < w * w, w <= 177, w > 0;
                }
                cells.push((k % w + QUIET_ZONE, k / w + QUIET_ZONE));
                assert(cells@.map_values(|c: (usize, usize)| (c.0 as int, c.1 as int)) =~= before.push(
                    ((k % w) as int + 4, (k / w) as int + 4),
                ));
            }
            k = k + 1;
        }
        cells
    }
}

/// The data a QR code shows.
pub struct QrCode {
    /// The encoded text.
    pub data: String,
}

impl QrCode {
    /// A QR code for `data`.
    pub fn new(data: &str) -> (q: QrCode)
        ensures
            q.data@ == data@,
    {
        QrCode { data: data.to_owned() }
    }

    /// The module grid of the code, from the data's UTF-8 bytes.
    pub fn grid(&self) -> (g: Option<QrGrid>)
        ensures
            match (g, qr_grid_of(vstd::utf8::encode_utf8(self.data@))) {
                (Some(g), Some((w, m))) => g.modules == w && g.dark@ == m && g.wf(),
                (None, None) => true,
                _ => false,
            },
    {
        encode_qr(self.data.as_str().as_bytes())
    }
}

/// How long, in milliseconds, one pan across a zoomed code lasts: 400 ms per
/// row that does not fit in the view (at least one row), and at least 2 s.
pub fn pan_cycle_millis(modules: usize, rows_in_view: usize) -> (ms: u64)
    requires
        modules <= 177,
    ensures
        ms == if modules > rows_in_view {
            if (modules - rows_in_view) * 400 > 2000 {
                (modules - rows_in_view) * 400
            } else {
                2000
            }
        } else {
            2000
        },
{
    let pan_rows: u64 = if modules > rows_in_view {
        (modules - rows_in_view) as u64
    } else {
        1
    };
    let ms = pan_rows * 400;
    if ms > 2000 {
        ms
    } else {
        2000
    }
}

/// Law: every dark cell is drawn inside the code, past the quiet zone on
/// each side: both coordinates lie in `QUIET_ZONE .. QUIET_ZONE + w`.
pub proof fn lemma_dark_cells_inside(dark: Seq<bool>, w: int, n: int)
    requires
        w > 0,
        0 <= n <= dark.len(),
        dark.len() == w * w,
    ensures
        forall|k: int|
            0 <= k < dark_positions(dark, w, n).len() ==> {
                let c = #[trigger] dark_positions(dark, w, n)[k];
                &&& 4 <= c.0 < w + 4
                &&& 4 <= c.1 < w + 4
            },
    decreases n,
{
    if n > 0 {
        lemma_dark_cells_inside(dark, w, n - 1);
        let m = n - 1;
        assert(0 <= m % w < w) by (nonlinear_arith)
            requires w > 0;
        assert(0 <= m / w < w) by (nonlinear_arith)
            requires w > 0, 0 <= m < w * w;
        let prev = dark_positions(dark, w, m);
        assert forall|k: int| 0 <= k < dark_positions(dark, w, n).len() implies {
            let c = #[trigger] dark_positions(dark, w, n)[k];
            &&& 4 <= c.0 < w + 4
            &&& 4 <= c.1 < w + 4
        } by {
            if k < prev.len() {
                assert(dark_positions(dark, w, n)[k] == prev[k]);
            }
        }
    }
}

} // verus!
