//! CPU load: average per-core utilization sampled each tick, rendered
//! as a ring gauge or a line chart.
//!
//! Utilization is carried in hundredths of a percent (0..=10000), so
//! label formatting is exact integer arithmetic.

use vstd::prelude::*;

use crate::buffer::{spec_push, SampleBuffer};
use crate::colorpicker::DemoSvg;
use crate::colors::{spec_rgb_str, GraphColors, SvgColorVariant, SvgColors};
use crate::sensors::{DeviceKind, GraphKind};
use crate::strfmt::{
    div_round_even, fixed1_string, fixed2_string, spec_dec, spec_div_round_even, spec_fixed1,
    spec_fixed2, u64_to_string,
};
use crate::svg::{line, ring, spec_line_svg, spec_points, spec_ring_svg};

verus! {

/// History length of the CPU sample buffer.
pub const CPU_SAMPLES: usize = 21;

/// Sum of the per-core utilizations, each clamped to 100.00%.
pub open spec fn spec_sum_clamped(s: Seq<u64>) -> int
    decreases s.len(),
{
    if s.len() == 0 {
        0
    } else {
        spec_sum_clamped(s.drop_last()) + (if s.last() > 10000 {
            10000
        } else {
            s.last() as int
        })
    }
}

/// The utilization pushed for one tick: the clamped per-core average.
pub open spec fn spec_avg_clamped(s: Seq<u64>) -> int {
    spec_sum_clamped(s) / s.len() as int
}

/// The value label for a centi-percent utilization: two decimals below
/// 10, one below 100, none at 100.
pub open spec fn spec_cpu_value(c: int) -> Seq<char> {
    if c < 1000 {
        spec_fixed2(c)
    } else if c < 10000 {
        spec_fixed1(spec_div_round_even(c, 10))
    } else {
        spec_dec(c / 100)
    }
}

/// The fixed representative dataset of the line-chart demo preview, in
/// centi-percent.
pub open spec fn spec_cpu_demo_samples() -> Seq<u64> {
    seq![
        0u64, 1269, 1264, 1262, 1266, 1265, 1263, 1262, 1261, 1262, 1906, 2169, 2181, 2129, 2204,
        2176, 2189, 1526, 1477, 1450, 1389,
    ]
}

fn cpu_value_string(c: u64) -> (r: String)
    requires
        c <= 10000,
    ensures
        r@ == spec_cpu_value(c as int),
{
    if c < 1000 {
        fixed2_string(c)
    } else if c < 10000 {
        let scaled = div_round_even(c as u128, 10);
        fixed1_string(scaled as u64)
    } else {
        u64_to_string(c / 100)
    }
}

/// The CPU sensor: its sample history, palette, render cache, chart
/// kind and the pre-formatted ring labels.
pub struct Cpu {
    samples: SampleBuffer,
    max_val: u64,
    colors: GraphColors,
    kind: GraphKind,
    value: String,
    percentage: String,
    svg_colors: SvgColors,
}

impl Cpu {
    /// The stored utilization history, centi-percent, oldest first.
    pub closed spec fn samples_spec(&self) -> Seq<u64> {
        self.samples.contents()
    }

    /// The current palette.
    pub closed spec fn colors_spec(&self) -> GraphColors {
        self.colors
    }

    /// The selected chart kind.
    pub closed spec fn kind_spec(&self) -> GraphKind {
        self.kind
    }

    /// The pre-formatted value label.
    pub closed spec fn value_spec(&self) -> Seq<char> {
        self.value@
    }

    /// The pre-formatted ring-fill percentage label.
    pub closed spec fn percentage_spec(&self) -> Seq<char> {
        self.percentage@
    }

    /// Internal consistency: full fixed-length history, the render
    /// cache synced with the palette, and the fixed gauge maximum.
    pub closed spec fn wf(&self) -> bool {
        &&& self.samples.wf()
        &&& self.samples.cap() == CPU_SAMPLES
        &&& self.samples.contents().len() == CPU_SAMPLES
        &&& self.max_val == 100
        &&& forall|i: int|
            0 <= i < self.samples.contents().len() ==> #[trigger] self.samples.contents()[i]
                <= 10000
        &&& self.svg_colors.synced_with(self.colors)
    }

    /// The markup [`Cpu::graph`] returns for the current state.
    pub open spec fn graph_spec(&self) -> Seq<char> {
        match self.kind_spec() {
            GraphKind::Ring => spec_ring_svg(
                self.value_spec(),
                self.percentage_spec(),
                spec_rgb_str(self.colors_spec().color1),
                spec_rgb_str(self.colors_spec().color3),
                spec_rgb_str(self.colors_spec().color4),
                spec_rgb_str(self.colors_spec().color2),
            ),
            GraphKind::Line => spec_line_svg(
                spec_points(self.samples_spec(), 10000, self.samples_spec().len() as int),
                spec_rgb_str(self.colors_spec().color1),
                spec_rgb_str(self.colors_spec().color4),
                spec_rgb_str(self.colors_spec().color2),
            ),
        }
    }

    /// The markup [`Cpu::demo`] returns: a ring at a fixed 40% fill,
    /// or a line chart of the fixed representative dataset.
    pub open spec fn demo_markup_spec(&self) -> Seq<char> {
        match self.kind_spec() {
            GraphKind::Ring => spec_ring_svg(
                spec_dec(40),
                spec_dec(40),
                spec_rgb_str(self.colors_spec().color1),
                spec_rgb_str(self.colors_spec().color3),
                spec_rgb_str(self.colors_spec().color4),
                spec_rgb_str(self.colors_spec().color2),
            ),
            GraphKind::Line => spec_line_svg(
                spec_points(spec_cpu_demo_samples(), 10000, spec_cpu_demo_samples().len() as int),
                spec_rgb_str(self.colors_spec().color1),
                spec_rgb_str(self.colors_spec().color4),
                spec_rgb_str(self.colors_spec().color2),
            ),
        }
    }

    /// A fresh sensor: a zeroed full history, kind-specific default
    /// palette and zero labels.
    pub fn new(kind: GraphKind) -> (r: Cpu)
        ensures
            r.wf(),
            r.kind_spec() == kind,
            r.colors_spec() == crate::colors::spec_default_colors(DeviceKind::Cpu(kind)),
            r.samples_spec().len() == CPU_SAMPLES,
            forall|i: int| 0 <= i < r.samples_spec().len() ==> r.samples_spec()[i] == 0u64,
            r.value_spec() == spec_dec(0),
            r.percentage_spec() == spec_dec(0),
    {
        let colors = GraphColors::new(DeviceKind::Cpu(kind));
        let svg_colors = SvgColors::new(&colors);
        let r = Cpu {
            samples: SampleBuffer::zero_filled(CPU_SAMPLES),
            max_val: 100,
            colors,
            kind,
            value: String::from_str("0"),
            percentage: String::from_str("0"),
            svg_colors,
        };
        proof {
            reveal_strlit("0");
            assert("0"@ =~= spec_dec(0));
        }
        r
    }

    pub fn kind(&self) -> (r: GraphKind)
        ensures
            r == self.kind_spec(),
    {
        self.kind
    }

    /// Selects the chart kind; the CPU sensor supports both ring and
    /// line.
    pub fn set_kind(&mut self, kind: GraphKind)
        ensures
            final(self).kind_spec() == kind,
            final(self).wf() == old(self).wf(),
            final(self).colors_spec() == old(self).colors_spec(),
            final(self).samples_spec() == old(self).samples_spec(),
    {
        self.kind = kind;
    }

    /// One sampling tick: pushes the clamped average of the given
    /// per-core utilizations (centi-percent) and, in ring mode,
    /// refreshes the two pre-formatted labels. An empty reading is a
    /// degraded tick and changes nothing.
    pub fn update(&mut self, cores: &Vec<u64>)
        requires
            old(self).wf(),
        ensures
            final(self).wf(),
            final(self).kind_spec() == old(self).kind_spec(),
            final(self).colors_spec() == old(self).colors_spec(),
            cores@.len() == 0 ==> *final(self) == *old(self),
            cores@.len() > 0 ==> final(self).samples_spec() == spec_push(
                old(self).samples_spec(),
                CPU_SAMPLES as nat,
                spec_avg_clamped(cores@) as u64,
            ),
            cores@.len() > 0 && old(self).kind_spec() == GraphKind::Ring ==> {
                &&& final(self).value_spec() == spec_cpu_value(spec_avg_clamped(cores@))
                &&& final(self).percentage_spec() == spec_dec(spec_avg_clamped(cores@) / 100)
            },
            cores@.len() > 0 && old(self).kind_spec() != GraphKind::Ring ==> {
                &&& final(self).value_spec() == old(self).value_spec()
                &&& final(self).percentage_spec() == old(self).percentage_spec()
            },
    {
        let n = cores.len();
        if n == 0 {
            return ;
        }
        let mut sum: u128 = 0;
        let mut i: usize = 0;
        while i < n
            invariant
                0 <= i <= n,
                n == cores@.len(),
                sum == spec_sum_clamped(cores@.take(i as int)),
                sum <= i * 10000,
            decreases n - i,
        {
            proof {
                assert(cores@.take(i + 1).drop_last() =~= cores@.take(i as int));
                assert(cores@.take(i + 1).last() == cores@[i as int]);
            }
            let c = cores[i];
            let clamped: u64 = if c > 10000 {
                10000
            } else {
                c
            };
            sum = sum + clamped as u128;
            i = i + 1;
        }
        proof {
            assert(cores@.take(n as int) =~= cores@);
            assert(sum / (n as u128) <= 10000) by (nonlinear_arith)
                requires
                    n >= 1,
                    sum <= n * 10000,
            ;
        }
        let avg: u64 = (sum / (n as u128)) as u64;
        self.samples.push(avg);
        if self.kind == GraphKind::Ring {
            self.value = cpu_value_string(avg);
            self.percentage = u64_to_string(avg / 100);
        }
    }

    /// The newest stored utilization, centi-percent.
    pub fn latest_sample(&self) -> (r: u64)
        requires
            self.wf(),
        ensures
            r == self.samples_spec().last(),
    {
        self.samples.last()
    }

    /// The newest utilization as display text, e.g. `"12.3%"`.
    pub fn to_string(&self) -> (r: String)
        requires
            self.wf(),
        ensures
            r@ == spec_cpu_value(self.samples_spec().last() as int) + "%"@,
    {
        let mut s = cpu_value_string(self.samples.last());
        s.append("%");
        s
    }

    pub fn colors(&self) -> (r: GraphColors)
        ensures
            r == self.colors_spec(),
    {
        self.colors
    }

    /// Replaces the palette and synchronously refreshes the render
    /// cache.
    pub fn set_colors(&mut self, colors: GraphColors)
        requires
            old(self).wf(),
        ensures
            final(self).wf(),
            final(self).colors_spec() == colors,
            final(self).kind_spec() == old(self).kind_spec(),
            final(self).samples_spec() == old(self).samples_spec(),
            final(self).value_spec() == old(self).value_spec(),
            final(self).percentage_spec() == old(self).percentage_spec(),
    {
        self.colors = colors;
        self.svg_colors.set_colors(&colors);
    }

    /// Renders the live state: ring gauge with the cached labels, or
    /// line chart of the stored history.
    pub fn graph(&self) -> (r: String)
        requires
            self.wf(),
        ensures
            r@ == self.graph_spec(),
    {
        if self.kind == GraphKind::Ring {
            ring(self.value.as_str(), self.percentage.as_str(), &self.svg_colors)
        } else {
            line(&self.samples, 10000, &self.svg_colors)
        }
    }

    /// Renders the fixed representative dataset with the current
    /// palette, independent of the live history.
    pub fn demo(&self) -> (r: String)
        requires
            self.wf(),
        ensures
            r@ == self.demo_markup_spec(),
    {
        if self.kind == GraphKind::Ring {
            let val: u64 = self.max_val * 4 / 10;
            let pct: u64 = val * 100 / self.max_val;
            let vs = u64_to_string(val);
            let ps = u64_to_string(pct);
            ring(vs.as_str(), ps.as_str(), &self.svg_colors)
        } else {
            let mut buf = SampleBuffer::new(CPU_SAMPLES);
            buf.push(0);
            buf.push(1269);
            buf.push(1264);
            buf.push(1262);
            buf.push(1266);
            buf.push(1265);
            buf.push(1263);
            buf.push(1262);
            buf.push(1261);
            buf.push(1262);
            buf.push(1906);
            buf.push(2169);
            buf.push(2181);
            buf.push(2129);
            buf.push(2204);
            buf.push(2176);
            buf.push(2189);
            buf.push(1526);
            buf.push(1477);
            buf.push(1450);
            buf.push(1389);
            proof {
                assert(buf.contents() =~= spec_cpu_demo_samples());
            }
            line(&buf, 10000, &self.svg_colors)
        }
    }

    /// An independent preview capability of the same kind, seeded with
    /// this sensor's palette but not its live history.
    pub fn demo_graph(&self) -> (r: crate::colorpicker::DemoDevice)
        requires
            self.wf(),
        ensures
            r.demo_wf(),
            r is Cpu,
            r->Cpu_0.kind_spec() == self.kind_spec(),
            r.palette() == self.colors_spec(),
    {
        let mut dmo = Cpu::new(self.kind);
        dmo.set_colors(self.colors);
        crate::colorpicker::DemoDevice::Cpu(dmo)
    }

    /// The editable slots of the active chart kind, in display order.
    pub fn color_choices(&self) -> (r: Vec<(&'static str, SvgColorVariant)>)
        ensures
            r@.len() == spec_cpu_choices(self.kind_spec()).len(),
            forall|i: int|
                0 <= i < r@.len() ==> (#[trigger] r@[i]).0@ == spec_cpu_choices(self.kind_spec())[i].0
                    && r@[i].1 == spec_cpu_choices(self.kind_spec())[i].1,
    {
        let mut v: Vec<(&'static str, SvgColorVariant)> = Vec::new();
        if self.kind == GraphKind::Line {
            v.push(("Graph", SvgColorVariant::Color4));
            v.push(("Back", SvgColorVariant::Color1));
            v.push(("Frame", SvgColorVariant::Color2));
        } else {
            v.push(("Ring 1", SvgColorVariant::Color4));
            v.push(("Ring 2", SvgColorVariant::Color3));
            v.push(("Back", SvgColorVariant::Color1));
            v.push(("Text", SvgColorVariant::Color2));
        }
        v
    }
}

/// The fixed slot mapping of each CPU chart kind, shared by the picker
/// and the renderer.
pub open spec fn spec_cpu_choices(kind: GraphKind) -> Seq<(Seq<char>, SvgColorVariant)> {
    match kind {
        GraphKind::Line => seq![
            ("Graph"@, SvgColorVariant::Color4),
            ("Back"@, SvgColorVariant::Color1),
            ("Frame"@, SvgColorVariant::Color2),
        ],
        GraphKind::Ring => seq![
            ("Ring 1"@, SvgColorVariant::Color4),
            ("Ring 2"@, SvgColorVariant::Color3),
            ("Back"@, SvgColorVariant::Color1),
            ("Text"@, SvgColorVariant::Color2),
        ],
    }
}

impl DemoSvg for Cpu {
    open spec fn palette(&self) -> GraphColors {
        self.colors_spec()
    }

    open spec fn demo_spec(&self) -> Seq<char> {
        self.demo_markup_spec()
    }

    open spec fn demo_wf(&self) -> bool {
        self.wf()
    }

    open spec fn choices_spec(&self) -> Seq<(Seq<char>, SvgColorVariant)> {
        spec_cpu_choices(self.kind_spec())
    }

    fn svg_demo(&self) -> (r: String) {
        self.demo()
    }

    fn svg_colors(&self) -> (r: GraphColors) {
        self.colors()
    }

    fn svg_set_colors(&mut self, colors: GraphColors) {
        self.set_colors(colors);
    }

    fn svg_color_choices(&self) -> (r: Vec<(&'static str, SvgColorVariant)>) {
        self.color_choices()
    }
}

} // verus!
