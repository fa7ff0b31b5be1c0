use sysmon_core::colorpicker::ColorPicker;
use sysmon_core::colors::{Rgb, SvgColorVariant};
use sysmon_core::cpu::Cpu;
use sysmon_core::network::{Network, NetworkVariant};
use sysmon_core::sensors::{CpuVariant, DeviceKind, GraphKind};

#[test]
fn cpu_starts_at_zero() {
    let cpu = Cpu::new(GraphKind::Ring);
    assert_eq!(cpu.latest_sample(), 0);
    assert_eq!(cpu.to_string(), "0.00%");
}

#[test]
fn cpu_update_averages_cores() {
    let mut cpu = Cpu::new(GraphKind::Ring);
    // 10.00% and 20.00% average to 15.00%, stored as 1500.
    cpu.update(&vec![1000, 2000]);
    assert_eq!(cpu.latest_sample(), 1500);
    assert_eq!(cpu.to_string(), "15.0%");
}

#[test]
fn cpu_update_clamps_and_formats_tiers() {
    let mut cpu = Cpu::new(GraphKind::Ring);
    cpu.update(&vec![999]);
    assert_eq!(cpu.to_string(), "9.99%");
    cpu.update(&vec![20000]);
    // A reading beyond 100% clamps to 100.
    assert_eq!(cpu.latest_sample(), 10000);
    assert_eq!(cpu.to_string(), "100%");
}

#[test]
fn cpu_empty_reading_changes_nothing() {
    let mut cpu = Cpu::new(GraphKind::Ring);
    cpu.update(&vec![5000]);
    let before = cpu.latest_sample();
    cpu.update(&vec![]);
    assert_eq!(cpu.latest_sample(), before);
}

#[test]
fn cpu_ring_graph_embeds_labels_and_colors() {
    let mut cpu = Cpu::new(GraphKind::Ring);
    cpu.update(&vec![5000]);
    let g = cpu.graph();
    assert!(g.starts_with("<svg"));
    assert!(g.ends_with("</svg>"));
    assert!(g.contains(">50.0</text>"));
    assert!(g.contains("stroke-dasharray=\"50, 100\""));
    // Default CPU background slot.
    assert!(g.contains("rgb(27,27,27)"));
}

#[test]
fn cpu_line_graph_plots_samples() {
    let mut cpu = Cpu::new(GraphKind::Line);
    cpu.update(&vec![10000]);
    let g = cpu.graph();
    assert!(g.contains("<polyline"));
    // 21 samples: x runs from 0 to 200; the newest sample is full
    // scale, so its point is at the top edge.
    assert!(g.contains("200,0 "));
    // The zero pre-fill sits on the bottom edge.
    assert!(g.contains("0,100 "));
}

#[test]
fn cpu_set_kind_switches_renderer() {
    let mut cpu = Cpu::new(GraphKind::Ring);
    assert_eq!(cpu.kind(), GraphKind::Ring);
    cpu.set_kind(GraphKind::Line);
    assert_eq!(cpu.kind(), GraphKind::Line);
    assert!(cpu.graph().contains("<polyline"));
}

#[test]
fn cpu_set_colors_recolors_graph() {
    let mut cpu = Cpu::new(GraphKind::Ring);
    let mut pal = cpu.colors();
    pal.set_color(Rgb::new(1, 2, 3), SvgColorVariant::Color1);
    cpu.set_colors(pal);
    assert!(cpu.graph().contains("rgb(1,2,3)"));
    assert_eq!(cpu.colors(), pal);
}

#[test]
fn network_graph_is_dual_series() {
    let mut net = Network::new(NetworkVariant::Combined);
    net.update(&vec![(1000, 500)]);
    let g = net.graph();
    assert_eq!(g.matches("<polyline").count(), 2);
    assert!(g.starts_with("<svg"));
    assert!(g.ends_with("</svg>"));
}

#[test]
fn network_fixed_cap_scales_chart() {
    let mut net = Network::new(NetworkVariant::Combined);
    // 25 bytes received: 200 bits, half of the fixed 400-bit cap.
    net.update(&vec![(25, 0)]);
    net.set_max_y(Some(400));
    let g = net.graph();
    assert!(g.contains("200,50 "));
    net.set_max_y(None);
    // Auto-scale: the newest sample is the maximum, so it reaches the
    // top edge.
    assert!(net.graph().contains("200,0 "));
}

#[test]
fn demo_preview_is_independent_of_live_data() {
    let mut cpu = Cpu::new(GraphKind::Ring);
    let before = cpu.demo();
    cpu.update(&vec![7000]);
    // Live samples change the graph but not the demo preview.
    assert_eq!(cpu.demo(), before);
    assert!(cpu.demo().contains("stroke-dasharray=\"40, 100\""));
}

#[test]
fn picker_preview_follows_edits() {
    let net = Network::new(NetworkVariant::Combined);
    let mut picker = ColorPicker::new();
    picker.activate(
        DeviceKind::Network(NetworkVariant::Combined),
        net.demo_graph(),
    );
    picker.set_sliders(Rgb::new(210, 220, 230));
    assert!(picker.svg_demo().contains("rgb(210,220,230)"));
}

#[test]
fn cpu_variants_are_distinct() {
    assert_ne!(CpuVariant::Amd, CpuVariant::Intel);
}
