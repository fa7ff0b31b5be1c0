//! Pure SVG generation: ring gauge, single-series line chart and
//! dual-series line chart, plus the fixed fallback markup.
//!
//! Every builder is a pure function of samples and cached colors and is
//! pinned to a spec-level markup sequence; the output is self-contained
//! (inline fills and strokes, no external references).

use vstd::prelude::*;

use crate::buffer::SampleBuffer;
use crate::colors::SvgColors;
use crate::strfmt::{spec_dec, u64_to_string};

verus! {

/// Fallback markup rendered when no preview target is attached.
pub open spec fn spec_error_svg() -> Seq<char> {
    "<svg xmlns=\"http://www.w3.org/2000/svg\" viewBox=\"0 0 25 25\" fill=\"none\"><circle cx=\"12.5\" cy=\"12.5\" r=\"8\" stroke=\"red\" stroke-width=\"1.2\"/><line x1=\"12.5\" y1=\"9\" x2=\"12.5\" y2=\"13\" stroke=\"red\" stroke-width=\"1.2\"/><line x1=\"12.5\" y1=\"14.5\" x2=\"12.5\" y2=\"16\" stroke=\"red\" stroke-width=\"1.2\"/></svg>"@
}

/// The fixed, visually distinct markup a failed preview degrades to.
pub fn error_svg() -> (r: String)
    ensures
        r@ == spec_error_svg(),
{
    String::from_str(
        "<svg xmlns=\"http://www.w3.org/2000/svg\" viewBox=\"0 0 25 25\" fill=\"none\"><circle cx=\"12.5\" cy=\"12.5\" r=\"8\" stroke=\"red\" stroke-width=\"1.2\"/><line x1=\"12.5\" y1=\"9\" x2=\"12.5\" y2=\"13\" stroke=\"red\" stroke-width=\"1.2\"/><line x1=\"12.5\" y1=\"14.5\" x2=\"12.5\" y2=\"16\" stroke=\"red\" stroke-width=\"1.2\"/></svg>",
    )
}

/// Ring-gauge markup: background disc, track ring, an arc whose length
/// is the pre-formatted percentage, and the value text in the middle.
pub open spec fn spec_ring_svg(
    value: Seq<char>,
    pct: Seq<char>,
    bg: Seq<char>,
    track: Seq<char>,
    arc: Seq<char>,
    text: Seq<char>,
) -> Seq<char> {
    "<svg xmlns=\"http://www.w3.org/2000/svg\" viewBox=\"0 0 36 36\"><circle cx=\"18\" cy=\"18\" r=\"16\" fill=\""@
        + bg
        + "\"/><circle cx=\"18\" cy=\"18\" r=\"15.9155\" fill=\"none\" stroke=\""@
        + track
        + "\" stroke-width=\"3\"/><circle cx=\"18\" cy=\"18\" r=\"15.9155\" fill=\"none\" stroke=\""@
        + arc
        + "\" stroke-width=\"3\" stroke-dasharray=\""@
        + pct
        + ", 100\" transform=\"rotate(-90 18 18)\"/><text x=\"18\" y=\"20.5\" text-anchor=\"middle\" font-size=\"10\" fill=\""@
        + text
        + "\">"@
        + value
        + "</text></svg>"@
}

/// Renders a ring gauge. `value` and `percentage` are pre-formatted by
/// the sensor; the slot use (background, track, arc, text) follows the
/// ring color choices.
pub fn ring(value: &str, percentage: &str, colors: &SvgColors) -> (r: String)
    ensures
        r@ == spec_ring_svg(value@, percentage@, colors.c1@, colors.c3@, colors.c4@, colors.c2@),
{
    let mut s = String::from_str(
        "<svg xmlns=\"http://www.w3.org/2000/svg\" viewBox=\"0 0 36 36\"><circle cx=\"18\" cy=\"18\" r=\"16\" fill=\"",
    );
    s.append(colors.c1.as_str());
    s.append("\"/><circle cx=\"18\" cy=\"18\" r=\"15.9155\" fill=\"none\" stroke=\"");
    s.append(colors.c3.as_str());
    s.append("\" stroke-width=\"3\"/><circle cx=\"18\" cy=\"18\" r=\"15.9155\" fill=\"none\" stroke=\"");
    s.append(colors.c4.as_str());
    s.append("\" stroke-width=\"3\" stroke-dasharray=\"");
    s.append(percentage);
    s.append(", 100\" transform=\"rotate(-90 18 18)\"/><text x=\"18\" y=\"20.5\" text-anchor=\"middle\" font-size=\"10\" fill=\"");
    s.append(colors.c2.as_str());
    s.append("\">");
    s.append(value);
    s.append("</text></svg>");
    proof {
        assert(s@ =~= spec_ring_svg(
            value@,
            percentage@,
            colors.c1@,
            colors.c3@,
            colors.c4@,
            colors.c2@,
        ));
    }
    s
}

/// The vertical plot position of one sample under cap `max` (at least
/// 1): samples are linearly mapped into the 100-unit-high area, larger
/// samples saturating at the top edge.
pub open spec fn spec_scale_y(v: int, max: int) -> int {
    100 - (if v > max {
        max
    } else {
        v
    }) * 100 / max
}

/// One polyline point, `"x,y "`.
pub open spec fn spec_point(x: int, y: int) -> Seq<char> {
    spec_dec(x) + ","@ + spec_dec(y) + " "@
}

/// The first `n` polyline points of window `s` under cap `max`.
pub open spec fn spec_points(s: Seq<u64>, max: int, n: int) -> Seq<char>
    decreases n,
{
    if n <= 0 {
        Seq::<char>::empty()
    } else {
        spec_points(s, max, n - 1) + spec_point(10 * (n - 1), spec_scale_y(s[n - 1] as int, max))
    }
}

/// Builds the polyline points for the samples from `start` to the end
/// of the buffer, left to right, ten plot units per sample.
fn points_string(samples: &SampleBuffer, start: usize, max_y: u64) -> (r: String)
    requires
        start <= samples.contents().len(),
        samples.contents().len() - start <= 1000,
        max_y >= 1,
    ensures
        ({
            let w = samples.contents().skip(start as int);
            r@ == spec_points(w, max_y as int, w.len() as int)
        }),
{
    let ghost w = samples.contents().skip(start as int);
    let n = samples.len();
    let mut s = String::new();
    let mut i: usize = start;
    while i < n
        invariant
            start <= i <= n,
            n == samples.contents().len(),
            n - start <= 1000,
            max_y >= 1,
            w == samples.contents().skip(start as int),
            s@ == spec_points(w, max_y as int, i - start),
        decreases n - i,
    {
        let v = samples.get(i);
        let clamped: u64 = if v > max_y {
            max_y
        } else {
            v
        };
        proof {
            assert((clamped as int) * 100 / (max_y as int) <= 100) by (nonlinear_arith)
                requires
                    max_y >= 1,
                    0 <= clamped <= max_y,
            ;
        }
        let y128: u128 = 100 - (clamped as u128) * 100 / (max_y as u128);
        let y: u64 = y128 as u64;
        let x: u64 = ((i - start) as u64) * 10;
        s.append(u64_to_string(x).as_str());
        s.append(",");
        s.append(u64_to_string(y).as_str());
        s.append(" ");
        proof {
            assert(w[i - start] == samples.contents()[i as int]);
            assert(s@ =~= spec_points(w, max_y as int, i - start + 1));
        }
        i = i + 1;
    }
    s
}

/// Single-series line-chart markup: background, the series polyline and
/// a frame, using the background, graph and frame slots of the line
/// color choices.
pub open spec fn spec_line_svg(
    pts: Seq<char>,
    bg: Seq<char>,
    graph: Seq<char>,
    frame: Seq<char>,
) -> Seq<char> {
    "<svg xmlns=\"http://www.w3.org/2000/svg\" viewBox=\"0 0 210 100\" preserveAspectRatio=\"none\"><rect width=\"210\" height=\"100\" fill=\""@
        + bg
        + "\"/><polyline fill=\"none\" stroke=\""@
        + graph
        + "\" stroke-width=\"2\" points=\""@
        + pts
        + "\"/><rect width=\"210\" height=\"100\" fill=\"none\" stroke=\""@
        + frame
        + "\" stroke-width=\"2\"/></svg>"@
}

/// Renders the whole buffer as a single line chart scaled against
/// `max_y`.
pub fn line(samples: &SampleBuffer, max_y: u64, colors: &SvgColors) -> (r: String)
    requires
        samples.contents().len() <= 1000,
        max_y >= 1,
    ensures
        r@ == spec_line_svg(
            spec_points(samples.contents(), max_y as int, samples.contents().len() as int),
            colors.c1@,
            colors.c4@,
            colors.c2@,
        ),
{
    let pts = points_string(samples, 0, max_y);
    proof {
        assert(samples.contents().skip(0) =~= samples.contents());
    }
    let mut s = String::from_str(
        "<svg xmlns=\"http://www.w3.org/2000/svg\" viewBox=\"0 0 210 100\" preserveAspectRatio=\"none\"><rect width=\"210\" height=\"100\" fill=\"",
    );
    s.append(colors.c1.as_str());
    s.append("\"/><polyline fill=\"none\" stroke=\"");
    s.append(colors.c4.as_str());
    s.append("\" stroke-width=\"2\" points=\"");
    s.append(pts.as_str());
    s.append("\"/><rect width=\"210\" height=\"100\" fill=\"none\" stroke=\"");
    s.append(colors.c2.as_str());
    s.append("\" stroke-width=\"2\"/></svg>");
    proof {
        assert(s@ =~= spec_line_svg(
            spec_points(samples.contents(), max_y as int, samples.contents().len() as int),
            colors.c1@,
            colors.c4@,
            colors.c2@,
        ));
    }
    s
}

/// The largest sample of a window, zero when it is empty.
pub open spec fn spec_win_max(s: Seq<u64>) -> int
    decreases s.len(),
{
    if s.len() == 0 {
        0
    } else if s.last() as int >= spec_win_max(s.drop_last()) {
        s.last() as int
    } else {
        spec_win_max(s.drop_last())
    }
}

/// The vertical cap a dual-series chart is scaled against: the given
/// cap when one is set (clamped to at least 1), otherwise the largest
/// visible sample of either series, and at least 1 so that the linear
/// mapping never divides by zero.
pub open spec fn spec_effective_max(max_y: Option<u64>, d: Seq<u64>, u: Seq<u64>) -> int {
    match max_y {
        Some(m) => if m >= 1 {
            m as int
        } else {
            1
        },
        None => {
            let m = if spec_win_max(d) >= spec_win_max(u) {
                spec_win_max(d)
            } else {
                spec_win_max(u)
            };
            if m >= 1 {
                m
            } else {
                1
            }
        },
    }
}

fn window_max(samples: &SampleBuffer, start: usize) -> (r: u64)
    requires
        start <= samples.contents().len(),
    ensures
        r as int == spec_win_max(samples.contents().skip(start as int)),
{
    let ghost w = samples.contents().skip(start as int);
    let n = samples.len();
    let mut best: u64 = 0;
    let mut i: usize = start;
    while i < n
        invariant
            start <= i <= n,
            n == samples.contents().len(),
            w == samples.contents().skip(start as int),
            best as int == spec_win_max(w.take(i - start)),
        decreases n - i,
    {
        proof {
            assert(w.take(i - start + 1).drop_last() =~= w.take(i - start));
            assert(w.take(i - start + 1).last() == samples.contents()[i as int]);
        }
        let v = samples.get(i);
        if v > best {
            best = v;
        }
        i = i + 1;
    }
    proof {
        assert(w.take(n - start) =~= w);
    }
    best
}

/// Dual-series line-chart markup: background, one polyline per series
/// (download then upload) and a frame, following the network color
/// choices.
pub open spec fn spec_double_line_svg(
    pts_d: Seq<char>,
    pts_u: Seq<char>,
    bg: Seq<char>,
    down: Seq<char>,
    up: Seq<char>,
    frame: Seq<char>,
) -> Seq<char> {
    "<svg xmlns=\"http://www.w3.org/2000/svg\" viewBox=\"0 0 210 100\" preserveAspectRatio=\"none\"><rect width=\"210\" height=\"100\" fill=\""@
        + bg
        + "\"/><polyline fill=\"none\" stroke=\""@
        + down
        + "\" stroke-width=\"2\" points=\""@
        + pts_d
        + "\"/><polyline fill=\"none\" stroke=\""@
        + up
        + "\" stroke-width=\"2\" points=\""@
        + pts_u
        + "\"/><rect width=\"210\" height=\"100\" fill=\"none\" stroke=\""@
        + frame
        + "\" stroke-width=\"2\"/></svg>"@
}

/// The trailing window of at most `visible` samples that a dual-series
/// chart draws from one buffer.
pub open spec fn spec_visible(s: Seq<u64>, visible: int) -> Seq<u64> {
    if s.len() <= visible {
        s
    } else {
        s.skip(s.len() - visible)
    }
}

/// Renders the trailing `visible_window` samples of both series as one
/// dual-series line chart. With `max_y` unset the chart auto-scales to
/// the largest visible sample.
pub fn double_line(
    download: &SampleBuffer,
    upload: &SampleBuffer,
    visible_window: usize,
    colors: &SvgColors,
    max_y: Option<u64>,
) -> (r: String)
    requires
        visible_window <= 1000,
        visible_window >= 1,
    ensures
        ({
            let dw = spec_visible(download.contents(), visible_window as int);
            let uw = spec_visible(upload.contents(), visible_window as int);
            let m = spec_effective_max(max_y, dw, uw);
            r@ == spec_double_line_svg(
                spec_points(dw, m, dw.len() as int),
                spec_points(uw, m, uw.len() as int),
                colors.c1@,
                colors.c2@,
                colors.c3@,
                colors.c4@,
            )
        }),
{
    let dlen = download.len();
    let ulen = upload.len();
    let dstart: usize = if dlen > visible_window {
        dlen - visible_window
    } else {
        0
    };
    let ustart: usize = if ulen > visible_window {
        ulen - visible_window
    } else {
        0
    };
    proof {
        if dlen <= visible_window {
            assert(download.contents().skip(0) =~= download.contents());
        }
        if ulen <= visible_window {
            assert(upload.contents().skip(0) =~= upload.contents());
        }
    }
    let m: u64 = match max_y {
        Some(cap) => if cap >= 1 {
            cap
        } else {
            1
        },
        None => {
            let dm = window_max(download, dstart);
            let um = window_max(upload, ustart);
            let best = if dm >= um {
                dm
            } else {
                um
            };
            if best >= 1 {
                best
            } else {
                1
            }
        },
    };
    let pts_d = points_string(download, dstart, m);
    let pts_u = points_string(upload, ustart, m);
    let mut s = String::from_str(
        "<svg xmlns=\"http://www.w3.org/2000/svg\" viewBox=\"0 0 210 100\" preserveAspectRatio=\"none\"><rect width=\"210\" height=\"100\" fill=\"",
    );
    s.append(colors.c1.as_str());
    s.append("\"/><polyline fill=\"none\" stroke=\"");
    s.append(colors.c2.as_str());
    s.append("\" stroke-width=\"2\" points=\"");
    s.append(pts_d.as_str());
    s.append("\"/><polyline fill=\"none\" stroke=\"");
    s.append(colors.c3.as_str());
    s.append("\" stroke-width=\"2\" points=\"");
    s.append(pts_u.as_str());
    s.append("\"/><rect width=\"210\" height=\"100\" fill=\"none\" stroke=\"");
    s.append(colors.c4.as_str());
    s.append("\" stroke-width=\"2\"/></svg>");
    proof {
        let dw = spec_visible(download.contents(), visible_window as int);
        let uw = spec_visible(upload.contents(), visible_window as int);
        let mm = spec_effective_max(max_y, dw, uw);
        assert(s@ =~= spec_double_line_svg(
            spec_points(dw, mm, dw.len() as int),
            spec_points(uw, mm, uw.len() as int),
            colors.c1@,
            colors.c2@,
            colors.c3@,
            colors.c4@,
        ));
    }
    s
}

} // verus!
