//! Network throughput: per-tick bit deltas, per-second rate recovery over
//! irregular sample intervals, and human-readable unit formatting.

use vstd::prelude::*;

use crate::buffer::{spec_push, SampleBuffer};
use crate::colorpicker::DemoSvg;
use crate::colors::{spec_rgb_str, GraphColors, SvgColorVariant, SvgColors};
use crate::sensors::{DeviceKind, GraphKind};
use crate::strfmt::{
    fixed1_string, fixed2_string, div_round_even, spec_dec, spec_div_round_even, spec_fixed1,
    spec_fixed2, u64_to_string,
};
use crate::svg::{double_line, spec_double_line_svg, spec_effective_max, spec_points, spec_visible};
use vstd::arithmetic::div_mod::{lemma_fundamental_div_mod, lemma_fundamental_div_mod_converse};

verus! {

/// Whether unit suffixes are rendered short (`K`) or long (`Kbps`).
#[derive(Debug, PartialEq, Eq, Structural)]
pub enum UnitVariant {
    Short,
    Long,
}

/// Which traffic directions a network sensor presents.
#[derive(Debug, PartialEq, Eq, Clone, Copy, Structural)]
pub enum NetworkVariant {
    Download,
    Upload,
    Combined,
}

/// `1024^k`.
pub open spec fn spec_pow1024(k: int) -> int
    decreases k,
{
    if k <= 0 {
        1
    } else {
        1024 * spec_pow1024(k - 1)
    }
}

/// The unit tier `val` falls in, starting the search at tier `k`:
/// the magnitude is divided by 1024 while it is at least 999 and a
/// larger tier remains.
pub open spec fn spec_tier(val: int, k: int) -> int
    decreases 4 - k,
{
    if k >= 4 {
        4
    } else if val < 999 * spec_pow1024(k) {
        k
    } else {
        spec_tier(val, k + 1)
    }
}

/// The suffix of one unit tier.
pub open spec fn spec_unit_str(k: int, long: bool) -> Seq<char> {
    if long {
        if k == 0 {
            "bps"@
        } else if k == 1 {
            "Kbps"@
        } else if k == 2 {
            "Mbps"@
        } else if k == 3 {
            "Gbps"@
        } else {
            "Tbps"@
        }
    } else {
        if k == 0 {
            "b"@
        } else if k == 1 {
            "K"@
        } else if k == 2 {
            "M"@
        } else if k == 3 {
            "G"@
        } else {
            "T"@
        }
    }
}

/// The full label for a bit magnitude: the tiered value with two
/// decimals below 10, one below 99 and none above, a space, and the
/// tier's unit suffix.
pub open spec fn spec_makestr(val: int, long: bool) -> Seq<char> {
    let k = spec_tier(val, 0);
    let d = spec_pow1024(k);
    let num = if val < 10 * d {
        spec_fixed2(spec_div_round_even(val * 100, d))
    } else if val < 99 * d {
        spec_fixed1(spec_div_round_even(val * 10, d))
    } else {
        spec_dec(spec_div_round_even(val, d))
    };
    num + " "@ + spec_unit_str(k, long)
}

proof fn lemma_pow1024_bounds(k: int)
    requires
        0 <= k <= 4,
    ensures
        1 <= spec_pow1024(k) <= 0x10000000000,
        k < 4 ==> spec_pow1024(k) <= 0x40000000,
{
    assert(spec_pow1024(0) == 1);
    assert(spec_pow1024(1) == 1024);
    assert(spec_pow1024(2) == 0x100000);
    assert(spec_pow1024(3) == 0x40000000);
    assert(spec_pow1024(4) == 0x10000000000);
}

fn unit_str(k: u32, long: bool) -> (r: &'static str)
    ensures
        r@ == spec_unit_str(k as int, long),
{
    if long {
        match k {
            0 => "bps",
            1 => "Kbps",
            2 => "Mbps",
            3 => "Gbps",
            _ => "Tbps",
        }
    } else {
        match k {
            0 => "b",
            1 => "K",
            2 => "M",
            3 => "G",
            _ => "T",
        }
    }
}

/// Formats a bit magnitude as a unit-tiered label, e.g. `5000` with
/// short units to `"4.88 K"`.
pub fn makestr(val: u64, format: UnitVariant) -> (r: String)
    ensures
        r@ == spec_makestr(val as int, format == UnitVariant::Long),
{
    let long = match format {
        UnitVariant::Short => false,
        UnitVariant::Long => true,
    };
    let v: u128 = val as u128;
    let mut k: u32 = 0;
    let mut d: u128 = 1;
    while k < 4 && v >= 999 * d
        invariant
            k <= 4,
            v == val as int,
            d == spec_pow1024(k as int),
            1 <= d <= 0x10000000000,
            spec_tier(val as int, 0) == spec_tier(val as int, k as int),
        decreases 4 - k,
    {
        proof {
            lemma_pow1024_bounds(k as int);
            lemma_pow1024_bounds(k + 1);
        }
        d = d * 1024;
        k = k + 1;
    }
    proof {
        assert(spec_tier(val as int, k as int) == k as int);
    }
    let mut num: String = if v < 10 * d {
        let scaled = div_round_even(v * 100, d);
        proof {
            assert(scaled <= 1001) by (nonlinear_arith)
                requires
                    d >= 1,
                    v * 100 < 1000 * d,
                    scaled == spec_div_round_even(v as int * 100, d as int),
            ;
        }
        fixed2_string(scaled as u64)
    } else if v < 99 * d {
        let scaled = div_round_even(v * 10, d);
        proof {
            assert(scaled <= 991) by (nonlinear_arith)
                requires
                    d >= 1,
                    v * 10 < 990 * d,
                    scaled == spec_div_round_even(v as int * 10, d as int),
            ;
        }
        fixed1_string(scaled as u64)
    } else {
        let scaled = div_round_even(v, d);
        proof {
            assert(scaled <= u64::MAX) by (nonlinear_arith)
                requires
                    d >= 1,
                    v <= u64::MAX,
                    scaled == spec_div_round_even(v as int, d as int),
            ;
        }
        u64_to_string(scaled as u64)
    };
    num.append(" ");
    num.append(unit_str(k, long));
    proof {
        assert(num@ =~= spec_makestr(val as int, long));
    }
    num
}

/// Total bits gathered walking the buffer newest to oldest, stopping
/// once the accumulated duration reaches one second.
pub open spec fn spec_lsb_total(s: Seq<u64>, t: int, dur0: int, tot0: int) -> int
    decreases s.len(),
{
    if s.len() == 0 || dur0 >= 1000 {
        tot0
    } else {
        spec_lsb_total(s.drop_last(), t, dur0 + t, tot0 + s.last())
    }
}

/// Duration covered by the same walk.
pub open spec fn spec_lsb_dur(s: Seq<u64>, t: int, dur0: int) -> int
    decreases s.len(),
{
    if s.len() == 0 || dur0 >= 1000 {
        dur0
    } else {
        spec_lsb_dur(s.drop_last(), t, dur0 + t)
    }
}

/// The accumulated window total scaled to exactly 1000 ms, floored.
pub open spec fn spec_lsb(s: Seq<u64>, t: int) -> int {
    1000 * spec_lsb_total(s, t, 0, 0) / spec_lsb_dur(s, t, 0)
}

/// Recovers a per-second bitrate from per-tick deltas sampled every
/// `sample_interval_ms` milliseconds: enough newest samples to cover one
/// second are summed and the sum is rescaled to exactly 1000 ms.
/// A rate beyond the return type saturates at `u64::MAX`.
pub fn last_second_bitrate(samples: &SampleBuffer, sample_interval_ms: u64) -> (r: u64)
    requires
        samples.contents().len() >= 1,
        sample_interval_ms >= 1,
    ensures
        ({
            let exact = spec_lsb(samples.contents(), sample_interval_ms as int);
            r as int == if exact > u64::MAX as int {
                u64::MAX as int
            } else {
                exact
            }
        }),
{
    let ghost s = samples.contents();
    let ghost t = sample_interval_ms as int;
    let mut idx: usize = samples.len();
    let mut tot: u128 = 0;
    let mut dur: u128 = 0;
    proof {
        assert(s.take(s.len() as int) =~= s);
    }
    while idx > 0 && dur < 1000
        invariant
            idx <= s.len(),
            s == samples.contents(),
            s.len() >= 1,
            t == sample_interval_ms as int,
            t >= 1,
            dur == (s.len() - idx) * t,
            idx == s.len() || dur >= t,
            dur < 1000 + t,
            tot <= (s.len() - idx) * (u64::MAX as int),
            s.len() - idx <= 1000,
            spec_lsb_total(s, t, 0, 0) == spec_lsb_total(
                s.take(idx as int),
                t,
                dur as int,
                tot as int,
            ),
            spec_lsb_dur(s, t, 0) == spec_lsb_dur(s.take(idx as int), t, dur as int),
        decreases idx,
    {
        idx = idx - 1;
        let x = samples.get(idx);
        proof {
            assert(s.take(idx + 1).drop_last() =~= s.take(idx as int));
            assert(s.take(idx + 1).last() == s[idx as int]);
            assert((s.len() - idx) * t == (s.len() - idx - 1) * t + t) by (nonlinear_arith);
            assert((s.len() - idx) * (u64::MAX as int) == (s.len() - idx - 1) * (u64::MAX as int)
                + u64::MAX as int) by (nonlinear_arith);
            assert(s.len() - idx <= 1000) by (nonlinear_arith)
                requires
                    dur < 1000,
                    t >= 1,
                    dur == (s.len() - idx - 1) * t,
            ;
        }
        tot = tot + x as u128;
        dur = dur + sample_interval_ms as u128;
    }
    proof {
        if idx > 0 {
            assert(spec_lsb_total(s.take(idx as int), t, dur as int, tot as int) == tot as int);
            assert(spec_lsb_dur(s.take(idx as int), t, dur as int) == dur as int);
        } else {
            assert(s.take(0).len() == 0);
        }
        assert(dur >= 1);
        assert(tot <= 1000 * (u64::MAX as int)) by (nonlinear_arith)
            requires
                tot <= (s.len() - idx) * (u64::MAX as int),
                s.len() - idx <= 1000,
        ;
    }
    let scaled: u128 = 1000 * tot / dur;
    if scaled > u64::MAX as u128 {
        u64::MAX
    } else {
        scaled as u64
    }
}

/// [`spec_lsb`] saturated to the label type.
pub open spec fn spec_rate(s: Seq<u64>, t: int) -> int {
    if spec_lsb(s, t) > u64::MAX as int {
        u64::MAX as int
    } else {
        spec_lsb(s, t)
    }
}

/// History length of the two traffic sample buffers.
pub const NET_SAMPLES: usize = 30;

/// How many trailing samples the network charts draw.
pub const GRAPH_SAMPLES: usize = 21;

/// Total downloaded bits of one reading: received bytes of every
/// interface times eight.
pub open spec fn spec_dl_sum(s: Seq<(u64, u64)>) -> int
    decreases s.len(),
{
    if s.len() == 0 {
        0
    } else {
        spec_dl_sum(s.drop_last()) + s.last().0 * 8
    }
}

/// Total uploaded bits of one reading.
pub open spec fn spec_ul_sum(s: Seq<(u64, u64)>) -> int
    decreases s.len(),
{
    if s.len() == 0 {
        0
    } else {
        spec_ul_sum(s.drop_last()) + s.last().1 * 8
    }
}

/// Saturation at the sample type: extreme counter totals clamp rather
/// than wrap.
pub open spec fn spec_sat64(x: int) -> int {
    if x > u64::MAX as int {
        u64::MAX as int
    } else {
        x
    }
}

/// The fixed representative download series of the demo preview.
pub open spec fn spec_net_demo_dl() -> Seq<u64> {
    seq![
        208u64, 2071, 0, 1056588, 912575, 912875, 912975, 912600, 1397, 1173024, 1228, 6910, 2493,
        1102101, 380, 2287, 1109656, 1541, 3798, 1132822, 68479,
    ]
}

/// The fixed representative upload series of the demo preview.
pub open spec fn spec_net_demo_ul() -> Seq<u64> {
    seq![
        0u64, 1687, 0, 9417, 9161, 838, 6739, 1561, 212372, 312372, 412372, 512372, 512372, 512372,
        412372, 312372, 112372, 864, 0, 8587, 760,
    ]
}

/// The fixed slot mapping of the network chart, shared by the picker
/// and the renderer.
pub open spec fn spec_network_choices() -> Seq<(Seq<char>, SvgColorVariant)> {
    seq![
        ("Download"@, SvgColorVariant::Color2),
        ("Upload"@, SvgColorVariant::Color3),
        ("Back"@, SvgColorVariant::Color1),
        ("Frame"@, SvgColorVariant::Color4),
    ]
}

/// The network sensor: download and upload bit-delta histories, the
/// palette and render cache, a fixed vertical cap if one is set, and
/// which traffic directions it presents.
pub struct Network {
    download: SampleBuffer,
    upload: SampleBuffer,
    max_y: Option<u64>,
    colors: GraphColors,
    svg_colors: SvgColors,
    kind: NetworkVariant,
}

impl Network {
    /// The stored download history, bits per tick, oldest first.
    pub closed spec fn download_spec(&self) -> Seq<u64> {
        self.download.contents()
    }

    /// The stored upload history, bits per tick, oldest first.
    pub closed spec fn upload_spec(&self) -> Seq<u64> {
        self.upload.contents()
    }

    /// The current palette.
    pub closed spec fn colors_spec(&self) -> GraphColors {
        self.colors
    }

    /// The fixed vertical cap, if one is set.
    pub closed spec fn max_y_spec(&self) -> Option<u64> {
        self.max_y
    }

    /// The traffic directions this sensor presents.
    pub closed spec fn variant_spec(&self) -> NetworkVariant {
        self.kind
    }

    /// Internal consistency: full fixed-length histories and the
    /// render cache synced with the palette.
    pub closed spec fn wf(&self) -> bool {
        &&& self.download.wf()
        &&& self.download.cap() == NET_SAMPLES
        &&& self.download.contents().len() == NET_SAMPLES
        &&& self.upload.wf()
        &&& self.upload.cap() == NET_SAMPLES
        &&& self.upload.contents().len() == NET_SAMPLES
        &&& self.svg_colors.synced_with(self.colors)
    }

    /// The markup [`Network::graph`] returns for the current state.
    pub open spec fn graph_spec(&self) -> Seq<char> {
        let dw = spec_visible(self.download_spec(), GRAPH_SAMPLES as int);
        let uw = spec_visible(self.upload_spec(), GRAPH_SAMPLES as int);
        let m = spec_effective_max(self.max_y_spec(), dw, uw);
        spec_double_line_svg(
            spec_points(dw, m, dw.len() as int),
            spec_points(uw, m, uw.len() as int),
            spec_rgb_str(self.colors_spec().color1),
            spec_rgb_str(self.colors_spec().color2),
            spec_rgb_str(self.colors_spec().color3),
            spec_rgb_str(self.colors_spec().color4),
        )
    }

    /// The markup [`Network::demo`] returns: the fixed representative
    /// series, auto-scaled.
    pub open spec fn demo_markup_spec(&self) -> Seq<char> {
        let m = spec_effective_max(None, spec_net_demo_dl(), spec_net_demo_ul());
        spec_double_line_svg(
            spec_points(spec_net_demo_dl(), m, spec_net_demo_dl().len() as int),
            spec_points(spec_net_demo_ul(), m, spec_net_demo_ul().len() as int),
            spec_rgb_str(self.colors_spec().color1),
            spec_rgb_str(self.colors_spec().color2),
            spec_rgb_str(self.colors_spec().color3),
            spec_rgb_str(self.colors_spec().color4),
        )
    }

    /// A fresh sensor: zeroed full histories, no fixed cap and the
    /// network default palette.
    pub fn new(kind: NetworkVariant) -> (r: Network)
        ensures
            r.wf(),
            r.variant_spec() == kind,
            r.colors_spec() == crate::colors::spec_default_colors(DeviceKind::Network(kind)),
            r.max_y_spec() is None,
            r.download_spec().len() == NET_SAMPLES,
            r.upload_spec().len() == NET_SAMPLES,
            forall|i: int| 0 <= i < NET_SAMPLES ==> r.download_spec()[i] == 0u64,
            forall|i: int| 0 <= i < NET_SAMPLES ==> r.upload_spec()[i] == 0u64,
    {
        let colors = GraphColors::new(DeviceKind::Network(kind));
        let svg_colors = SvgColors::new(&colors);
        Network {
            download: SampleBuffer::zero_filled(NET_SAMPLES),
            upload: SampleBuffer::zero_filled(NET_SAMPLES),
            max_y: None,
            colors,
            svg_colors,
            kind,
        }
    }

    /// The network sensor only renders as a line chart.
    pub fn kind(&self) -> (r: GraphKind)
        ensures
            r == GraphKind::Line,
    {
        GraphKind::Line
    }

    /// Line is the only supported chart kind; any other request is a
    /// caller contract violation.
    pub fn set_kind(&mut self, kind: GraphKind)
        requires
            kind == GraphKind::Line,
        ensures
            *final(self) == *old(self),
    {
    }

    /// Fixes or clears the vertical cap the chart is scaled against.
    pub fn set_max_y(&mut self, max: Option<u64>)
        ensures
            final(self).max_y_spec() == max,
            final(self).wf() == old(self).wf(),
            final(self).download_spec() == old(self).download_spec(),
            final(self).upload_spec() == old(self).upload_spec(),
            final(self).colors_spec() == old(self).colors_spec(),
            final(self).variant_spec() == old(self).variant_spec(),
    {
        self.max_y = max;
    }

    /// One sampling tick: pushes the summed bit deltas of the reading
    /// (received and transmitted bytes per interface, times eight,
    /// saturating) into the two histories.
    pub fn update(&mut self, traffic: &Vec<(u64, u64)>)
        requires
            old(self).wf(),
        ensures
            final(self).wf(),
            final(self).colors_spec() == old(self).colors_spec(),
            final(self).variant_spec() == old(self).variant_spec(),
            final(self).max_y_spec() == old(self).max_y_spec(),
            final(self).download_spec() == spec_push(
                old(self).download_spec(),
                NET_SAMPLES as nat,
                spec_sat64(spec_dl_sum(traffic@)) as u64,
            ),
            final(self).upload_spec() == spec_push(
                old(self).upload_spec(),
                NET_SAMPLES as nat,
                spec_sat64(spec_ul_sum(traffic@)) as u64,
            ),
    {
        let n = traffic.len();
        let mut dl: u128 = 0;
        let mut ul: u128 = 0;
        let mut i: usize = 0;
        while i < n
            invariant
                0 <= i <= n,
                n == traffic@.len(),
                dl == spec_sat64(spec_dl_sum(traffic@.take(i as int))),
                ul == spec_sat64(spec_ul_sum(traffic@.take(i as int))),
                dl <= u64::MAX,
                ul <= u64::MAX,
            decreases n - i,
        {
            proof {
                assert(traffic@.take(i + 1).drop_last() =~= traffic@.take(i as int));
                assert(traffic@.take(i + 1).last() == traffic@[i as int]);
            }
            let (rx, tx) = traffic[i];
            let dbits: u128 = (rx as u128) * 8;
            let ubits: u128 = (tx as u128) * 8;
            dl = if dl + dbits > u64::MAX as u128 {
                u64::MAX as u128
            } else {
                dl + dbits
            };
            ul = if ul + ubits > u64::MAX as u128 {
                u64::MAX as u128
            } else {
                ul + ubits
            };
            i = i + 1;
        }
        proof {
            assert(traffic@.take(n as int) =~= traffic@);
        }
        self.download.push(dl as u64);
        self.upload.push(ul as u64);
    }

    pub fn colors(&self) -> (r: GraphColors)
        ensures
            r == self.colors_spec(),
    {
        self.colors
    }

    /// Replaces the palette and synchronously refreshes the render
    /// cache.
    pub fn set_colors(&mut self, colors: GraphColors)
        requires
            old(self).wf(),
        ensures
            final(self).wf(),
            final(self).colors_spec() == colors,
            final(self).download_spec() == old(self).download_spec(),
            final(self).upload_spec() == old(self).upload_spec(),
            final(self).max_y_spec() == old(self).max_y_spec(),
            final(self).variant_spec() == old(self).variant_spec(),
    {
        self.colors = colors;
        self.svg_colors.set_colors(&colors);
    }

    /// The editable slots of the network chart, in display order.
    pub fn color_choices(&self) -> (r: Vec<(&'static str, SvgColorVariant)>)
        ensures
            r@.len() == spec_network_choices().len(),
            forall|i: int|
                0 <= i < r@.len() ==> (#[trigger] r@[i]).0@ == spec_network_choices()[i].0
                    && r@[i].1 == spec_network_choices()[i].1,
    {
        let mut v: Vec<(&'static str, SvgColorVariant)> = Vec::new();
        v.push(("Download", SvgColorVariant::Color2));
        v.push(("Upload", SvgColorVariant::Color3));
        v.push(("Back", SvgColorVariant::Color1));
        v.push(("Frame", SvgColorVariant::Color4));
        v
    }

    /// Renders the trailing window of both live histories.
    pub fn graph(&self) -> (r: String)
        requires
            self.wf(),
        ensures
            r@ == self.graph_spec(),
    {
        double_line(&self.download, &self.upload, GRAPH_SAMPLES, &self.svg_colors, self.max_y)
    }

    /// Renders the fixed representative series with the current
    /// palette, independent of the live histories.
    pub fn demo(&self) -> (r: String)
        requires
            self.wf(),
        ensures
            r@ == self.demo_markup_spec(),
    {
        let mut d = SampleBuffer::new(GRAPH_SAMPLES);
        d.push(208);
        d.push(2071);
        d.push(0);
        d.push(1056588);
        d.push(912575);
        d.push(912875);
        d.push(912975);
        d.push(912600);
        d.push(1397);
        d.push(1173024);
        d.push(1228);
        d.push(6910);
        d.push(2493);
        d.push(1102101);
        d.push(380);
        d.push(2287);
        d.push(1109656);
        d.push(1541);
        d.push(3798);
        d.push(1132822);
        d.push(68479);
        let mut u = SampleBuffer::new(GRAPH_SAMPLES);
        u.push(0);
        u.push(1687);
        u.push(0);
        u.push(9417);
        u.push(9161);
        u.push(838);
        u.push(6739);
        u.push(1561);
        u.push(212372);
        u.push(312372);
        u.push(412372);
        u.push(512372);
        u.push(512372);
        u.push(512372);
        u.push(412372);
        u.push(312372);
        u.push(112372);
        u.push(864);
        u.push(0);
        u.push(8587);
        u.push(760);
        proof {
            assert(d.contents() =~= spec_net_demo_dl());
            assert(u.contents() =~= spec_net_demo_ul());
        }
        double_line(&d, &u, GRAPH_SAMPLES, &self.svg_colors, None)
    }

    /// An independent preview capability of the same kind, seeded with
    /// this sensor's palette but not its live histories.
    pub fn demo_graph(&self) -> (r: crate::colorpicker::DemoDevice)
        requires
            self.wf(),
        ensures
            r.demo_wf(),
            r is Network,
            r.palette() == self.colors_spec(),
    {
        let mut dmo = Network::new(self.kind);
        dmo.set_colors(self.colors);
        crate::colorpicker::DemoDevice::Network(dmo)
    }

    /// The current download rate as a unit-tiered label.
    pub fn download_label(&self, sample_interval_ms: u64, format: UnitVariant) -> (r: String)
        requires
            self.wf(),
            sample_interval_ms >= 1,
        ensures
            r@ == spec_makestr(
                spec_rate(self.download_spec(), sample_interval_ms as int),
                format == UnitVariant::Long,
            ),
    {
        let rate = last_second_bitrate(&self.download, sample_interval_ms);
        makestr(rate, format)
    }

    /// The current upload rate as a unit-tiered label.
    pub fn upload_label(&self, sample_interval_ms: u64, format: UnitVariant) -> (r: String)
        requires
            self.wf(),
            sample_interval_ms >= 1,
        ensures
            r@ == spec_makestr(
                spec_rate(self.upload_spec(), sample_interval_ms as int),
                format == UnitVariant::Long,
            ),
    {
        let rate = last_second_bitrate(&self.upload, sample_interval_ms);
        makestr(rate, format)
    }
}

impl DemoSvg for Network {
    open spec fn palette(&self) -> GraphColors {
        self.colors_spec()
    }

    open spec fn demo_spec(&self) -> Seq<char> {
        self.demo_markup_spec()
    }

    open spec fn demo_wf(&self) -> bool {
        self.wf()
    }

    open spec fn choices_spec(&self) -> Seq<(Seq<char>, SvgColorVariant)> {
        spec_network_choices()
    }

    fn svg_demo(&self) -> (r: String) {
        self.demo()
    }

    fn svg_colors(&self) -> (r: GraphColors) {
        self.colors()
    }

    fn svg_set_colors(&mut self, colors: GraphColors) {
        self.set_colors(colors);
    }

    fn svg_color_choices(&self) -> (r: Vec<(&'static str, SvgColorVariant)>) {
        self.color_choices()
    }
}

/// Precision-tier law of the label formatting: below the first unit
/// boundary, a magnitude under 10 renders with exactly two decimals, one
/// from 10 up to (but excluding) 99, and none from 99 on.
pub proof fn lemma_makestr_decimals(x: int)
    requires
        0 <= x <= 998,
    ensures
        x < 10 ==> spec_makestr(x, false) == spec_dec(x) + ".00 b"@,
        10 <= x < 99 ==> spec_makestr(x, false) == spec_dec(x) + ".0 b"@,
        99 <= x ==> spec_makestr(x, false) == spec_dec(x) + " b"@,
{
    assert(spec_pow1024(0) == 1);
    assert(spec_tier(x, 0) == 0);
    reveal_strlit(".00 b");
    reveal_strlit(".0 b");
    reveal_strlit(" b");
    reveal_strlit(".");
    reveal_strlit(" ");
    reveal_strlit("b");
    if x < 10 {
        assert(spec_div_round_even(x * 100, 1) == x * 100);
        assert((x * 100) / 100 == x) by (nonlinear_arith);
        assert((x * 100) % 100 == 0) by (nonlinear_arith);
        assert(spec_makestr(x, false) =~= spec_dec(x) + ".00 b"@);
    } else if x < 99 {
        assert(spec_div_round_even(x * 10, 1) == x * 10);
        assert((x * 10) / 10 == x) by (nonlinear_arith);
        assert((x * 10) % 10 == 0) by (nonlinear_arith);
        assert(spec_makestr(x, false) =~= spec_dec(x) + ".0 b"@);
    } else {
        assert(spec_div_round_even(x, 1) == x);
        assert(spec_makestr(x, false) =~= spec_dec(x) + " b"@);
    }
}

/// Unit-tier boundary law: the formatting divides by 1024 while the
/// magnitude is at least 999, so 998 is the largest magnitude rendered
/// in the base tier; 999 and 1000 both land in the next tier.
pub proof fn lemma_makestr_tier_boundary()
    ensures
        spec_tier(998, 0) == 0,
        spec_tier(999, 0) == 1,
        spec_tier(1000, 0) == 1,
        spec_makestr(998, false) == spec_dec(998) + " b"@,
        spec_makestr(999, false) == spec_fixed2(spec_div_round_even(99900, 1024)) + " K"@,
        spec_makestr(1000, false) == spec_fixed2(spec_div_round_even(100000, 1024)) + " K"@,
{
    assert(spec_pow1024(0) == 1);
    assert(spec_pow1024(1) == 1024);
    lemma_makestr_decimals(998);
    reveal_strlit(" K");
    reveal_strlit(" ");
    reveal_strlit("K");
    assert(spec_tier(999, 1) == 1);
    assert(spec_tier(999, 0) == spec_tier(999, 1));
    assert(spec_tier(1000, 1) == 1);
    assert(spec_tier(1000, 0) == spec_tier(1000, 1));
    assert(spec_makestr(999, false) =~= spec_fixed2(spec_div_round_even(99900, 1024)) + " K"@);
    assert(spec_makestr(1000, false) =~= spec_fixed2(spec_div_round_even(100000, 1024)) + " K"@);
}

/// Positive common factors cancel in integer division.
proof fn lemma_div_common_factor(a: int, b: int, k: int)
    requires
        b >= 1,
        k >= 1,
        a >= 0,
    ensures
        (k * a) / (k * b) == a / b,
{
    let q = a / b;
    let r = a % b;
    lemma_fundamental_div_mod(a, b);
    assert(k * a == q * (k * b) + k * r) by (nonlinear_arith)
        requires
            a == q * b + r,
    ;
    assert(0 <= k * r < k * b) by (nonlinear_arith)
        requires
            k >= 1,
            0 <= r < b,
    ;
    lemma_fundamental_div_mod_converse(k * a, k * b, q, k * r);
}

/// Walking a uniform buffer accumulates some positive number of whole
/// samples: the total and the duration share the same step count.
proof fn lemma_lsb_uniform_shape(v: u64, t: int, n: nat, dur0: int, tot0: int) -> (m: int)
    requires
        t >= 1,
        n >= 1,
        dur0 < 1000,
    ensures
        1 <= m <= n,
        spec_lsb_total(Seq::new(n, |i: int| v), t, dur0, tot0) == tot0 + m * v,
        spec_lsb_dur(Seq::new(n, |i: int| v), t, dur0) == dur0 + m * t,
    decreases n,
{
    let s = Seq::new(n, |i: int| v);
    assert(s.last() == v);
    assert(s.drop_last() =~= Seq::new((n - 1) as nat, |i: int| v));
    assert(spec_lsb_total(s, t, dur0, tot0) == spec_lsb_total(
        s.drop_last(),
        t,
        dur0 + t,
        tot0 + v,
    ));
    assert(spec_lsb_dur(s, t, dur0) == spec_lsb_dur(s.drop_last(), t, dur0 + t));
    if n == 1 || dur0 + t >= 1000 {
        if n == 1 {
            assert(s.drop_last().len() == 0);
        }
        assert(spec_lsb_total(s.drop_last(), t, dur0 + t, tot0 + v) == tot0 + v);
        assert(spec_lsb_dur(s.drop_last(), t, dur0 + t) == dur0 + t);
        1
    } else {
        let m1 = lemma_lsb_uniform_shape(v, t, (n - 1) as nat, dur0 + t, tot0 + v);
        assert(tot0 + v + m1 * v == tot0 + (m1 + 1) * v) by (nonlinear_arith);
        assert(dur0 + t + m1 * t == dur0 + (m1 + 1) * t) by (nonlinear_arith);
        m1 + 1
    }
}

/// Scale-invariance of the rate recovery: halving the sample interval
/// while doubling the sample count, with each sample carrying half the
/// bits, recovers exactly the same per-second rate. Both sides equal
/// the ideal rate `1000 * w / u`.
pub proof fn lemma_lsb_scale_invariance(w: u64, u: u64, n: nat)
    requires
        1 <= u <= u64::MAX / 2,
        w <= u64::MAX / 2,
        n >= 1,
    ensures
        spec_lsb(Seq::new(n, |i: int| (2 * w) as u64), 2 * u as int) == spec_lsb(
            Seq::new(2 * n, |i: int| w),
            u as int,
        ),
        spec_lsb(Seq::new(n, |i: int| (2 * w) as u64), 2 * u as int) == 1000 * w / (u as int),
{
    let m1 = lemma_lsb_uniform_shape((2 * w) as u64, 2 * u as int, n, 0, 0);
    let m2 = lemma_lsb_uniform_shape(w, u as int, 2 * n, 0, 0);
    let a = 1000 * (w as int);
    assert(1000 * (m1 * (2 * w as int)) == (2 * m1) * a) by (nonlinear_arith)
        requires
            a == 1000 * (w as int),
    ;
    assert(m1 * (2 * u as int) == (2 * m1) * (u as int)) by (nonlinear_arith);
    lemma_div_common_factor(a, u as int, 2 * m1);
    assert(1000 * (m2 * (w as int)) == m2 * a) by (nonlinear_arith)
        requires
            a == 1000 * (w as int),
    ;
    lemma_div_common_factor(a, u as int, m2);
}

} // verus!
