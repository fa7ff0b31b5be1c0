use sysmon_core::buffer::SampleBuffer;
use sysmon_core::network::{last_second_bitrate, Network, NetworkVariant, UnitVariant};

#[test]
fn buffer_starts_empty_and_grows() {
    let mut b = SampleBuffer::new(3);
    assert_eq!(b.len(), 0);
    b.push(7);
    assert_eq!(b.len(), 1);
    assert_eq!(b.get(0), 7);
    assert_eq!(b.last(), 7);
}

#[test]
fn buffer_fifo_after_capacity_plus_one_pushes() {
    let mut b = SampleBuffer::new(3);
    b.push(1);
    b.push(2);
    b.push(3);
    b.push(4);
    assert_eq!(b.len(), 3);
    assert_eq!(b.get(0), 2);
    assert_eq!(b.get(1), 3);
    assert_eq!(b.get(2), 4);
    assert_eq!(b.last(), 4);
}

#[test]
fn buffer_length_never_exceeds_capacity() {
    let mut b = SampleBuffer::zero_filled(5);
    assert_eq!(b.len(), 5);
    for v in 0..20 {
        b.push(v);
        assert_eq!(b.len(), 5);
    }
    assert_eq!(b.get(0), 15);
    assert_eq!(b.get(4), 19);
}

#[test]
fn bitrate_exact_second_needs_no_scaling() {
    let mut b = SampleBuffer::new(10);
    for _ in 0..5 {
        b.push(1000);
    }
    assert_eq!(last_second_bitrate(&b, 200), 5000);
}

#[test]
fn bitrate_scales_longer_windows_down() {
    let mut b = SampleBuffer::new(10);
    for _ in 0..5 {
        b.push(2000);
    }
    // 3 samples cover 1200 ms: 6000 bits * 1000 / 1200.
    assert_eq!(last_second_bitrate(&b, 400), 5000);
}

#[test]
fn bitrate_scale_invariant_under_interval_halving() {
    let mut coarse = SampleBuffer::new(10);
    for _ in 0..5 {
        coarse.push(2000);
    }
    let mut fine = SampleBuffer::new(20);
    for _ in 0..10 {
        fine.push(1000);
    }
    assert_eq!(
        last_second_bitrate(&coarse, 400),
        last_second_bitrate(&fine, 200)
    );
}

#[test]
fn bitrate_short_buffer_extrapolates() {
    let mut b = SampleBuffer::new(4);
    b.push(300);
    b.push(300);
    // Only 800 ms of data: 600 bits * 1000 / 800.
    assert_eq!(last_second_bitrate(&b, 400), 750);
}

#[test]
fn network_end_to_end_download_label() {
    let mut net = Network::new(NetworkVariant::Combined);
    // 125 received bytes are 1000 downloaded bits per tick.
    for _ in 0..5 {
        net.update(&vec![(125u64, 0u64)]);
    }
    assert_eq!(net.download_label(200, UnitVariant::Short), "4.88 K");
    assert_eq!(net.upload_label(200, UnitVariant::Short), "0.00 b");
}

#[test]
fn network_update_sums_interfaces_times_eight() {
    let mut net = Network::new(NetworkVariant::Combined);
    net.update(&vec![(100u64, 10u64), (20u64, 5u64)]);
    // Newest download sample: (100 + 20) * 8 = 960; upload: 15 * 8 = 120.
    assert_eq!(net.download_label(1000, UnitVariant::Short), "960 b");
    assert_eq!(net.upload_label(1000, UnitVariant::Short), "120 b");
}
