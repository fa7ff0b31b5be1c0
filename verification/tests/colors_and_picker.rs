use sysmon_core::colorpicker::ColorPicker;
use sysmon_core::colors::{GraphColors, Rgb, SvgColorVariant, SvgColors};
use sysmon_core::cpu::Cpu;
use sysmon_core::network::{Network, NetworkVariant};
use sysmon_core::sensors::{DeviceKind, GraphKind};
use sysmon_core::svg::error_svg;

#[test]
fn palette_set_get_round_trip() {
    let mut p = GraphColors::new(DeviceKind::Cpu(GraphKind::Ring));
    let c = Rgb::new(12, 34, 56);
    p.set_color(c, SvgColorVariant::Color3);
    assert_eq!(p.get_color(SvgColorVariant::Color3), c);
    p.set_color(c, SvgColorVariant::Color1);
    assert_eq!(p.get_color(SvgColorVariant::Color1), c);
}

#[test]
fn palette_set_leaves_other_slots() {
    let mut p = GraphColors::new(DeviceKind::Network(NetworkVariant::Download));
    let before2 = p.get_color(SvgColorVariant::Color2);
    let before4 = p.get_color(SvgColorVariant::Color4);
    p.set_color(Rgb::new(1, 2, 3), SvgColorVariant::Color1);
    assert_eq!(p.get_color(SvgColorVariant::Color2), before2);
    assert_eq!(p.get_color(SvgColorVariant::Color4), before4);
}

#[test]
fn svg_colors_deterministic() {
    let mut p = GraphColors::new(DeviceKind::Cpu(GraphKind::Line));
    p.set_color(Rgb::new(200, 100, 50), SvgColorVariant::Color2);
    let a = SvgColors::new(&p);
    let b = SvgColors::new(&p);
    assert!(a == b);
}

#[test]
fn default_palettes_differ_per_kind() {
    let cpu = GraphColors::new(DeviceKind::Cpu(GraphKind::Ring));
    let net = GraphColors::new(DeviceKind::Network(NetworkVariant::Combined));
    assert!(cpu != net);
}

#[test]
fn picker_starts_inactive_with_error_preview() {
    let picker = ColorPicker::new();
    assert!(!picker.active());
    assert_eq!(picker.svg_demo(), error_svg());
    assert_eq!(picker.variant(), SvgColorVariant::Color1);
}

#[test]
fn picker_activate_resets_variant() {
    let cpu = Cpu::new(GraphKind::Ring);
    let mut picker = ColorPicker::new();
    picker.activate(DeviceKind::Cpu(GraphKind::Ring), cpu.demo_graph());
    assert!(picker.active());
    assert_eq!(picker.variant(), SvgColorVariant::Color1);
    picker.set_variant(SvgColorVariant::Color2);
    assert_eq!(picker.variant(), SvgColorVariant::Color2);
    picker.deactivate();
    assert!(!picker.active());
}

#[test]
fn picker_edit_round_trip() {
    let cpu = Cpu::new(GraphKind::Ring);
    let mut picker = ColorPicker::new();
    picker.activate(DeviceKind::Cpu(GraphKind::Ring), cpu.demo_graph());
    let c = Rgb::new(9, 8, 7);
    picker.set_sliders(c);
    assert_eq!(picker.sliders(), c);
    assert_eq!(picker.colors().get_color(SvgColorVariant::Color1), c);
}

#[test]
fn picker_set_variant_reads_palette_slot() {
    let net = Network::new(NetworkVariant::Combined);
    let mut picker = ColorPicker::new();
    picker.activate(
        DeviceKind::Network(NetworkVariant::Combined),
        net.demo_graph(),
    );
    let mut pal = GraphColors::new(DeviceKind::Network(NetworkVariant::Combined));
    pal.set_color(Rgb::new(11, 22, 33), SvgColorVariant::Color3);
    picker.set_colors(pal);
    picker.set_variant(SvgColorVariant::Color3);
    assert_eq!(picker.sliders(), Rgb::new(11, 22, 33));
    // Selecting a slot does not change the palette.
    assert_eq!(picker.colors(), pal);
}

#[test]
fn picker_close_without_commit_leaves_sensor_untouched() {
    let mut net = Network::new(NetworkVariant::Combined);
    let before = net.colors();
    let mut picker = ColorPicker::new();
    picker.activate(
        DeviceKind::Network(NetworkVariant::Combined),
        net.demo_graph(),
    );
    picker.set_sliders(Rgb::new(1, 2, 3));
    picker.set_variant(SvgColorVariant::Color4);
    picker.set_sliders(Rgb::new(4, 5, 6));
    picker.set_sliders(Rgb::new(7, 8, 9));
    picker.close(false, &mut net);
    assert!(!picker.active());
    assert_eq!(net.colors(), before);
}

#[test]
fn picker_close_with_commit_writes_edits_back() {
    let mut net = Network::new(NetworkVariant::Combined);
    let mut picker = ColorPicker::new();
    picker.activate(
        DeviceKind::Network(NetworkVariant::Combined),
        net.demo_graph(),
    );
    picker.set_sliders(Rgb::new(1, 2, 3));
    let edited = picker.colors();
    picker.close(true, &mut net);
    assert!(!picker.active());
    assert_eq!(net.colors(), edited);
    assert_eq!(net.colors().get_color(SvgColorVariant::Color1), Rgb::new(1, 2, 3));
}

#[test]
fn picker_defaults_restores_kind_palette() {
    let cpu = Cpu::new(GraphKind::Line);
    let mut picker = ColorPicker::new();
    picker.activate(DeviceKind::Cpu(GraphKind::Line), cpu.demo_graph());
    picker.set_sliders(Rgb::new(250, 250, 250));
    picker.defaults();
    assert_eq!(
        picker.colors(),
        GraphColors::new(DeviceKind::Cpu(GraphKind::Line))
    );
}

#[test]
fn color_choices_follow_kind() {
    let net = Network::new(NetworkVariant::Combined);
    let nc = net.color_choices();
    assert_eq!(nc.len(), 4);
    assert_eq!(nc[0], ("Download", SvgColorVariant::Color2));
    assert_eq!(nc[1], ("Upload", SvgColorVariant::Color3));
    assert_eq!(nc[2], ("Back", SvgColorVariant::Color1));
    assert_eq!(nc[3], ("Frame", SvgColorVariant::Color4));

    let ring = Cpu::new(GraphKind::Ring);
    assert_eq!(ring.color_choices().len(), 4);
    let line = Cpu::new(GraphKind::Line);
    let lc = line.color_choices();
    assert_eq!(lc.len(), 3);
    assert_eq!(lc[0], ("Graph", SvgColorVariant::Color4));
}
