//! The four-slot color palette of a sensor and its render-ready cache.
//!
//! `GraphColors` is the editable palette; `SvgColors` caches the CSS
//! color strings the SVG builders splice into markup. The cache is a
//! pure function of the palette and is recomputed on every palette
//! mutation, never on read.

use vstd::prelude::*;

use crate::sensors::DeviceKind;
use crate::strfmt::{spec_dec, u64_to_string};

verus! {

/// One color as byte-valued red, green and blue channels.
#[derive(Debug, Clone, Copy, PartialEq, Eq, Structural)]
pub struct Rgb {
    pub red: u8,
    pub green: u8,
    pub blue: u8,
}

impl Rgb {
    pub fn new(red: u8, green: u8, blue: u8) -> (r: Rgb)
        ensures
            r == (Rgb { red, green, blue }),
    {
        Rgb { red, green, blue }
    }
}

/// Identifier of one of the four palette slots. What a slot means
/// (background, series, frame, text) is fixed per sensor kind by that
/// kind's color choices.
#[derive(Debug, Clone, Copy, PartialEq, Eq, Structural)]
pub enum SvgColorVariant {
    Color1,
    Color2,
    Color3,
    Color4,
}

/// The four-slot palette; every slot is always set.
#[derive(Debug, Clone, Copy, PartialEq, Eq, Structural)]
pub struct GraphColors {
    pub color1: Rgb,
    pub color2: Rgb,
    pub color3: Rgb,
    pub color4: Rgb,
}

/// The slot of `p` that `v` addresses.
pub open spec fn spec_get_color(p: GraphColors, v: SvgColorVariant) -> Rgb {
    match v {
        SvgColorVariant::Color1 => p.color1,
        SvgColorVariant::Color2 => p.color2,
        SvgColorVariant::Color3 => p.color3,
        SvgColorVariant::Color4 => p.color4,
    }
}

/// `p` with the slot that `v` addresses replaced by `c`.
pub open spec fn spec_set_color(p: GraphColors, c: Rgb, v: SvgColorVariant) -> GraphColors {
    match v {
        SvgColorVariant::Color1 => GraphColors { color1: c, ..p },
        SvgColorVariant::Color2 => GraphColors { color2: c, ..p },
        SvgColorVariant::Color3 => GraphColors { color3: c, ..p },
        SvgColorVariant::Color4 => GraphColors { color4: c, ..p },
    }
}

impl GraphColors {
    /// Kind-specific default palette.
    pub fn new(kind: DeviceKind) -> (r: GraphColors)
        ensures
            r == spec_default_colors(kind),
    {
        match kind {
            DeviceKind::Cpu(_) => GraphColors {
                color1: Rgb { red: 0x1b, green: 0x1b, blue: 0x1b },
                color2: Rgb { red: 0xff, green: 0xff, blue: 0xff },
                color3: Rgb { red: 0x2f, green: 0x8d, blue: 0xff },
                color4: Rgb { red: 0x70, green: 0xd0, blue: 0x70 },
            },
            DeviceKind::Network(_) => GraphColors {
                color1: Rgb { red: 0x1b, green: 0x1b, blue: 0x1b },
                color2: Rgb { red: 0x2f, green: 0x8d, blue: 0xff },
                color3: Rgb { red: 0xff, green: 0x66, blue: 0x00 },
                color4: Rgb { red: 0xff, green: 0xff, blue: 0xff },
            },
        }
    }

    /// Reads the slot addressed by `variant`.
    pub fn get_color(&self, variant: SvgColorVariant) -> (r: Rgb)
        ensures
            r == spec_get_color(*self, variant),
    {
        match variant {
            SvgColorVariant::Color1 => self.color1,
            SvgColorVariant::Color2 => self.color2,
            SvgColorVariant::Color3 => self.color3,
            SvgColorVariant::Color4 => self.color4,
        }
    }

    /// Replaces the slot addressed by `variant`; the other three slots
    /// are untouched.
    pub fn set_color(&mut self, color: Rgb, variant: SvgColorVariant)
        ensures
            *final(self) == spec_set_color(*old(self), color, variant),
    {
        match variant {
            SvgColorVariant::Color1 => self.color1 = color,
            SvgColorVariant::Color2 => self.color2 = color,
            SvgColorVariant::Color3 => self.color3 = color,
            SvgColorVariant::Color4 => self.color4 = color,
        }
    }
}

/// The default palette of each sensor kind.
pub open spec fn spec_default_colors(kind: DeviceKind) -> GraphColors {
    match kind {
        DeviceKind::Cpu(_) => GraphColors {
            color1: Rgb { red: 0x1b, green: 0x1b, blue: 0x1b },
            color2: Rgb { red: 0xff, green: 0xff, blue: 0xff },
            color3: Rgb { red: 0x2f, green: 0x8d, blue: 0xff },
            color4: Rgb { red: 0x70, green: 0xd0, blue: 0x70 },
        },
        DeviceKind::Network(_) => GraphColors {
            color1: Rgb { red: 0x1b, green: 0x1b, blue: 0x1b },
            color2: Rgb { red: 0x2f, green: 0x8d, blue: 0xff },
            color3: Rgb { red: 0xff, green: 0x66, blue: 0x00 },
            color4: Rgb { red: 0xff, green: 0xff, blue: 0xff },
        },
    }
}

/// Round-trip law: writing a slot and immediately reading the same
/// variant yields the written color.
pub proof fn lemma_color_roundtrip(p: GraphColors, c: Rgb, v: SvgColorVariant)
    ensures
        spec_get_color(spec_set_color(p, c, v), v) == c,
{
}

/// Writing a slot leaves every other slot unchanged.
pub proof fn lemma_color_set_frames_others(p: GraphColors, c: Rgb, v: SvgColorVariant, w: SvgColorVariant)
    requires
        v != w,
    ensures
        spec_get_color(spec_set_color(p, c, v), w) == spec_get_color(p, w),
{
}

/// Writing back the color a slot already holds is a no-op on the whole
/// palette.
pub proof fn lemma_color_set_get_identity(p: GraphColors, v: SvgColorVariant)
    ensures
        spec_set_color(p, spec_get_color(p, v), v) == p,
{
}

/// The CSS color string of one palette slot, e.g. `"rgb(27,27,27)"`.
pub open spec fn spec_rgb_str(c: Rgb) -> Seq<char> {
    "rgb("@ + spec_dec(c.red as int) + ","@ + spec_dec(c.green as int) + ","@ + spec_dec(
        c.blue as int,
    ) + ")"@
}

fn rgb_str(c: Rgb) -> (r: String)
    ensures
        r@ == spec_rgb_str(c),
{
    let mut s = String::from_str("rgb(");
    s.append(u64_to_string(c.red as u64).as_str());
    s.append(",");
    s.append(u64_to_string(c.green as u64).as_str());
    s.append(",");
    s.append(u64_to_string(c.blue as u64).as_str());
    s.append(")");
    proof {
        assert(s@ =~= spec_rgb_str(c));
    }
    s
}

/// Render-ready cache of the four palette slots as CSS color strings.
pub struct SvgColors {
    pub c1: String,
    pub c2: String,
    pub c3: String,
    pub c4: String,
}

impl SvgColors {
    /// The cache holds exactly the strings derived from palette `p`.
    pub open spec fn synced_with(&self, p: GraphColors) -> bool {
        &&& self.c1@ == spec_rgb_str(p.color1)
        &&& self.c2@ == spec_rgb_str(p.color2)
        &&& self.c3@ == spec_rgb_str(p.color3)
        &&& self.c4@ == spec_rgb_str(p.color4)
    }

    /// A cache freshly derived from `colors`.
    pub fn new(colors: &GraphColors) -> (r: SvgColors)
        ensures
            r.synced_with(*colors),
    {
        SvgColors {
            c1: rgb_str(colors.color1),
            c2: rgb_str(colors.color2),
            c3: rgb_str(colors.color3),
            c4: rgb_str(colors.color4),
        }
    }

    /// Recomputes every cached string from `colors`; called on every
    /// palette mutation, with no exceptions.
    pub fn set_colors(&mut self, colors: &GraphColors)
        ensures
            final(self).synced_with(*colors),
    {
        self.c1 = rgb_str(colors.color1);
        self.c2 = rgb_str(colors.color2);
        self.c3 = rgb_str(colors.color3);
        self.c4 = rgb_str(colors.color4);
    }
}

impl PartialEq for SvgColors {
    fn eq(&self, other: &SvgColors) -> (r: bool) {
        self.c1 == other.c1 && self.c2 == other.c2 && self.c3 == other.c3 && self.c4 == other.c4
    }
}

impl vstd::std_specs::cmp::PartialEqSpecImpl for SvgColors {
    open spec fn obeys_eq_spec() -> bool {
        true
    }

    open spec fn eq_spec(&self, other: &SvgColors) -> bool {
        self.c1@ == other.c1@ && self.c2@ == other.c2@ && self.c3@ == other.c3@ && self.c4@
            == other.c4@
    }
}

/// Determinism law: caches derived from equal palettes are equal,
/// string for string, however independently they were constructed.
pub proof fn lemma_svg_colors_deterministic(a: SvgColors, b: SvgColors, p: GraphColors)
    requires
        a.synced_with(p),
        b.synced_with(p),
    ensures
        a.c1@ == b.c1@,
        a.c2@ == b.c2@,
        a.c3@ == b.c3@,
        a.c4@ == b.c4@,
{
}

} // verus!
