//! The color-picker edit session: which sensor is being edited, which
//! palette slot is selected, and the three channel values shown, plus
//! the demo-preview capability sensors expose for live color editing.

use vstd::prelude::*;

use crate::colors::{
    lemma_color_set_get_identity, spec_default_colors, spec_get_color, spec_set_color, GraphColors,
    Rgb, SvgColorVariant,
};
use crate::cpu::{spec_cpu_choices, Cpu};
use crate::network::{spec_network_choices, Network};
use crate::sensors::{DeviceKind, GraphKind};
use crate::svg::{error_svg, spec_error_svg};

verus! {

/// Non-live rendering capability used for color previews: a sensor
/// stand-in seeded with fixed representative data whose palette can be
/// edited without disturbing the live sensor.
pub trait DemoSvg: Sized {
    /// The palette the preview currently renders with.
    spec fn palette(&self) -> GraphColors;

    /// The markup [`Self::svg_demo`] returns.
    spec fn demo_spec(&self) -> Seq<char>;

    /// Internal consistency (render cache synced with the palette).
    spec fn demo_wf(&self) -> bool;

    /// The editable slots, in display order.
    spec fn choices_spec(&self) -> Seq<(Seq<char>, SvgColorVariant)>;

    /// Renders the fixed representative dataset with the current
    /// palette.
    fn svg_demo(&self) -> (r: String)
        requires
            self.demo_wf(),
        ensures
            r@ == self.demo_spec(),
    ;

    /// The current palette.
    fn svg_colors(&self) -> (r: GraphColors)
        ensures
            r == self.palette(),
    ;

    /// Replaces the palette and synchronously refreshes the render
    /// cache.
    fn svg_set_colors(&mut self, colors: GraphColors)
        requires
            old(self).demo_wf(),
        ensures
            final(self).demo_wf(),
            final(self).palette() == colors,
    ;

    /// Labelled slot choices for the picker UI, fixed per sensor kind.
    fn svg_color_choices(&self) -> (r: Vec<(&'static str, SvgColorVariant)>)
        ensures
            r@.len() == self.choices_spec().len(),
            forall|i: int|
                0 <= i < r@.len() ==> (#[trigger] r@[i]).0@ == self.choices_spec()[i].0 && r@[i].1
                    == self.choices_spec()[i].1,
    ;
}

/// The closed set of preview capabilities, one per sensor kind.
pub enum DemoDevice {
    Cpu(Cpu),
    Network(Network),
}

impl DemoSvg for DemoDevice {
    open spec fn palette(&self) -> GraphColors {
        match self {
            DemoDevice::Cpu(c) => c.colors_spec(),
            DemoDevice::Network(n) => n.colors_spec(),
        }
    }

    open spec fn demo_spec(&self) -> Seq<char> {
        match self {
            DemoDevice::Cpu(c) => c.demo_markup_spec(),
            DemoDevice::Network(n) => n.demo_markup_spec(),
        }
    }

    open spec fn demo_wf(&self) -> bool {
        match self {
            DemoDevice::Cpu(c) => c.wf(),
            DemoDevice::Network(n) => n.wf(),
        }
    }

    open spec fn choices_spec(&self) -> Seq<(Seq<char>, SvgColorVariant)> {
        match self {
            DemoDevice::Cpu(c) => spec_cpu_choices(c.kind_spec()),
            DemoDevice::Network(_) => spec_network_choices(),
        }
    }

    fn svg_demo(&self) -> (r: String) {
        match self {
            DemoDevice::Cpu(c) => c.demo(),
            DemoDevice::Network(n) => n.demo(),
        }
    }

    fn svg_colors(&self) -> (r: GraphColors) {
        match self {
            DemoDevice::Cpu(c) => c.colors(),
            DemoDevice::Network(n) => n.colors(),
        }
    }

    fn svg_set_colors(&mut self, colors: GraphColors) {
        match self {
            DemoDevice::Cpu(c) => c.set_colors(colors),
            DemoDevice::Network(n) => n.set_colors(colors),
        }
    }

    fn svg_color_choices(&self) -> (r: Vec<(&'static str, SvgColorVariant)>) {
        match self {
            DemoDevice::Cpu(c) => c.color_choices(),
            DemoDevice::Network(n) => n.color_choices(),
        }
    }
}

/// State of the color-picker dialog: Inactive (no preview attached) or
/// Active, editing one preview's palette slot with three channel
/// sliders.
pub struct ColorPicker {
    demo_svg: Option<DemoDevice>,
    kind: DeviceKind,
    color_variant: SvgColorVariant,
    slider_red_val: u8,
    slider_green_val: u8,
    slider_blue_val: u8,
}

impl ColorPicker {
    /// Whether an edit session is active.
    pub closed spec fn active_spec(&self) -> bool {
        self.demo_svg is Some
    }

    /// The attached preview capability.
    pub closed spec fn demo_state(&self) -> Option<DemoDevice> {
        self.demo_svg
    }

    /// The palette under edit (meaningful only while active).
    pub open spec fn demo_palette(&self) -> GraphColors {
        match self.demo_state() {
            Some(d) => d.palette(),
            None => spec_default_colors(DeviceKind::Cpu(GraphKind::Ring)),
        }
    }

    /// The kind of the sensor the session was opened on.
    pub closed spec fn kind_spec(&self) -> DeviceKind {
        self.kind
    }

    /// The palette slot under edit.
    pub closed spec fn variant_spec(&self) -> SvgColorVariant {
        self.color_variant
    }

    /// The three channel values the sliders show.
    pub closed spec fn sliders_spec(&self) -> Rgb {
        Rgb { red: self.slider_red_val, green: self.slider_green_val, blue: self.slider_blue_val }
    }

    /// An attached preview is internally consistent.
    pub closed spec fn wf(&self) -> bool {
        match self.demo_svg {
            Some(d) => d.demo_wf(),
            None => true,
        }
    }

    /// A fresh, inactive picker.
    pub fn new() -> (r: ColorPicker)
        ensures
            r.wf(),
            !r.active_spec(),
            r.kind_spec() == DeviceKind::Cpu(GraphKind::Ring),
            r.variant_spec() == SvgColorVariant::Color1,
            r.sliders_spec() == (Rgb { red: 0, green: 0, blue: 0 }),
    {
        ColorPicker {
            demo_svg: None,
            kind: DeviceKind::Cpu(GraphKind::Ring),
            color_variant: SvgColorVariant::Color1,
            slider_red_val: 0,
            slider_green_val: 0,
            slider_blue_val: 0,
        }
    }

    pub fn kind(&self) -> (r: DeviceKind)
        ensures
            r == self.kind_spec(),
    {
        self.kind
    }

    pub fn active(&self) -> (r: bool)
        ensures
            r == self.active_spec(),
    {
        self.demo_svg.is_some()
    }

    /// Opens an edit session on the given preview: the slot selection
    /// resets to the first slot.
    pub fn activate(&mut self, kind: DeviceKind, demo_svg: DemoDevice)
        requires
            demo_svg.demo_wf(),
        ensures
            final(self).wf(),
            final(self).active_spec(),
            final(self).kind_spec() == kind,
            final(self).variant_spec() == SvgColorVariant::Color1,
            final(self).demo_state() == Some(demo_svg),
            final(self).sliders_spec() == old(self).sliders_spec(),
    {
        self.kind = kind;
        self.color_variant = SvgColorVariant::Color1;
        self.demo_svg = Some(demo_svg);
    }

    /// Ends the session, discarding the edited preview.
    pub fn deactivate(&mut self)
        ensures
            final(self).wf(),
            !final(self).active_spec(),
            final(self).kind_spec() == old(self).kind_spec(),
            final(self).variant_spec() == old(self).variant_spec(),
            final(self).sliders_spec() == old(self).sliders_spec(),
    {
        self.demo_svg = None;
    }

    /// Renders the preview with its current (edited) palette; without
    /// an attached preview this degrades to the fixed fallback markup.
    pub fn svg_demo(&self) -> (r: String)
        requires
            self.wf(),
        ensures
            self.active_spec() ==> r@ == self.demo_state().unwrap().demo_spec(),
            !self.active_spec() ==> r@ == spec_error_svg(),
    {
        match &self.demo_svg {
            Some(d) => d.svg_demo(),
            None => error_svg(),
        }
    }

    /// The channel values currently shown.
    pub fn sliders(&self) -> (r: Rgb)
        ensures
            r == self.sliders_spec(),
    {
        Rgb {
            red: self.slider_red_val,
            green: self.slider_green_val,
            blue: self.slider_blue_val,
        }
    }

    /// One channel edit: shows `color` on the sliders and writes it
    /// into the edited palette at the selected slot, refreshing the
    /// preview's render cache in the same step.
    pub fn set_sliders(&mut self, color: Rgb)
        requires
            old(self).wf(),
            old(self).active_spec(),
        ensures
            final(self).wf(),
            final(self).active_spec(),
            final(self).kind_spec() == old(self).kind_spec(),
            final(self).variant_spec() == old(self).variant_spec(),
            final(self).sliders_spec() == color,
            final(self).demo_palette() == spec_set_color(
                old(self).demo_palette(),
                color,
                old(self).variant_spec(),
            ),
    {
        self.slider_red_val = color.red;
        self.slider_green_val = color.green;
        self.slider_blue_val = color.blue;
        let dmo = self.demo_svg.take();
        if let Some(mut dev) = dmo {
            let mut col = dev.svg_colors();
            col.set_color(color, self.color_variant);
            dev.svg_set_colors(col);
            self.demo_svg = Some(dev);
        } else {
            proof {
                assert(false);
            }
        }
    }

    /// Replaces the whole edited palette and refreshes the sliders
    /// from its selected slot.
    pub fn set_colors(&mut self, colors: GraphColors)
        requires
            old(self).wf(),
            old(self).active_spec(),
        ensures
            final(self).wf(),
            final(self).active_spec(),
            final(self).kind_spec() == old(self).kind_spec(),
            final(self).variant_spec() == old(self).variant_spec(),
            final(self).demo_palette() == colors,
            final(self).sliders_spec() == spec_get_color(colors, old(self).variant_spec()),
    {
        let dmo = self.demo_svg.take();
        if let Some(mut dev) = dmo {
            dev.svg_set_colors(colors);
            self.demo_svg = Some(dev);
        } else {
            proof {
                assert(false);
            }
        }
        let slot = colors.get_color(self.color_variant);
        self.set_sliders(slot);
        proof {
            lemma_color_set_get_identity(colors, self.variant_spec());
        }
    }

    pub fn variant(&self) -> (r: SvgColorVariant)
        ensures
            r == self.variant_spec(),
    {
        self.color_variant
    }

    /// Selects another palette slot: the sliders pick up the color the
    /// edited palette holds there; the palette itself is unchanged.
    pub fn set_variant(&mut self, variant: SvgColorVariant)
        requires
            old(self).wf(),
            old(self).active_spec(),
        ensures
            final(self).wf(),
            final(self).active_spec(),
            final(self).kind_spec() == old(self).kind_spec(),
            final(self).variant_spec() == variant,
            final(self).demo_palette() == old(self).demo_palette(),
            final(self).sliders_spec() == spec_get_color(old(self).demo_palette(), variant),
    {
        self.color_variant = variant;
        let color = match &self.demo_svg {
            Some(d) => d.svg_colors().get_color(variant),
            None => Rgb { red: 0, green: 0, blue: 0 },
        };
        self.set_sliders(color);
        proof {
            lemma_color_set_get_identity(old(self).demo_palette(), variant);
        }
    }

    /// The palette as currently edited.
    pub fn colors(&self) -> (r: GraphColors)
        requires
            self.active_spec(),
        ensures
            r == self.demo_palette(),
    {
        match &self.demo_svg {
            Some(d) => d.svg_colors(),
            None => GraphColors::new(DeviceKind::Cpu(GraphKind::Ring)),
        }
    }

    /// Resets the edited palette to the kind default and refreshes the
    /// sliders for the selected slot.
    pub fn defaults(&mut self)
        requires
            old(self).wf(),
            old(self).active_spec(),
        ensures
            final(self).wf(),
            final(self).active_spec(),
            final(self).kind_spec() == old(self).kind_spec(),
            final(self).variant_spec() == old(self).variant_spec(),
            final(self).demo_palette() == spec_default_colors(old(self).kind_spec()),
            final(self).sliders_spec() == spec_get_color(
                spec_default_colors(old(self).kind_spec()),
                old(self).variant_spec(),
            ),
    {
        let def = GraphColors::new(self.kind);
        self.set_colors(def);
    }

    /// Ends the session. On commit the edited palette is written back
    /// into `target`; otherwise the edits are discarded and `target`
    /// is untouched, byte for byte, however many edits were made.
    pub fn close<T: DemoSvg>(&mut self, commit: bool, target: &mut T)
        requires
            old(self).wf(),
            old(self).active_spec(),
            old(target).demo_wf(),
        ensures
            final(self).wf(),
            !final(self).active_spec(),
            commit ==> final(target).demo_wf() && final(target).palette() == old(
                self,
            ).demo_palette(),
            !commit ==> *final(target) == *old(target),
    {
        if commit {
            let col = match &self.demo_svg {
                Some(d) => d.svg_colors(),
                None => GraphColors::new(DeviceKind::Cpu(GraphKind::Ring)),
            };
            target.svg_set_colors(col);
        }
        self.demo_svg = None;
    }
}

} // verus!
