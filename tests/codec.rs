use mdrop::filter::Filter;
use mdrop::gain::Gain;
use mdrop::indicator_state::IndicatorState;
use mdrop::info::{bus_label, device_name};
use mdrop::protocol::Command;
use mdrop::volume::Volume;
use mdrop::{MoondropInfo, DAWN_PRO_PID};

#[test]
fn volume_round_trip_stays_in_range() {
    for p in 0..=100u32 {
        let b = Volume::new(p).to_payload();
        assert!(b <= 0x70, "payload {b} of {p} out of range");
        let back = Volume::from_payload(b).inner();
        assert!(back.abs_diff(p) <= 1, "{p} came back as {back}");
        assert_eq!(back, p);
    }
}

#[test]
fn volume_boundary_payloads() {
    assert_eq!(Volume::from_payload(0x00).inner(), 100);
    assert_eq!(Volume::from_payload(0x70).inner(), 0);
    assert_eq!(Volume::new(0).to_payload(), 0x6F);
    assert_eq!(Volume::new(100).to_payload(), 0x00);
}

#[test]
fn volume_formula_values() {
    assert_eq!(Volume::new(50).to_payload(), 55);
    assert_eq!(Volume::new(1).to_payload(), 110);
    assert_eq!(Volume::from_payload(0x38).inner(), 50);
    assert_eq!(Volume::from_payload(1).inner(), 99);
}

#[test]
fn volume_saturates_out_of_range() {
    assert_eq!(Volume::from_payload(0x71).inner(), 0);
    assert_eq!(Volume::from_payload(0xFF).inner(), 0);
    assert_eq!(Volume::new(101).to_payload(), 0);
    assert_eq!(Volume::new(u32::MAX).to_payload(), 0);
    assert_eq!(Volume::new(7).inner(), 7);
}

#[test]
fn unknown_bytes_decode_to_defaults() {
    for b in 5..=255u8 {
        assert_eq!(Filter::from(b), Filter::FastRollOffLowLatency);
    }
    for b in 2..=255u8 {
        assert_eq!(Gain::from(b), Gain::Low);
    }
    for b in 3..=255u8 {
        assert_eq!(IndicatorState::from(b), IndicatorState::Enabled);
    }
    assert_eq!(Filter::default(), Filter::FastRollOffLowLatency);
    assert_eq!(Gain::default(), Gain::Low);
    assert_eq!(IndicatorState::default(), IndicatorState::Enabled);
}

#[test]
fn enum_bytes_round_trip() {
    let filters = [
        Filter::FastRollOffLowLatency,
        Filter::FastRollOffPhaseCompensated,
        Filter::SlowRollOffLowLatency,
        Filter::SlowRollOffPhaseCompensated,
        Filter::NonOversampling,
    ];
    for (i, f) in filters.iter().enumerate() {
        assert_eq!(f.to_byte() as usize, i);
        assert_eq!(Filter::from(i as u8), *f);
    }
    assert_eq!(Gain::High.to_byte(), 1);
    assert_eq!(Gain::from(1), Gain::High);
    assert_eq!(IndicatorState::Disabled.to_byte(), 2);
    assert_eq!(IndicatorState::from(1), IndicatorState::DisabledTemp);
}

#[test]
fn command_frames() {
    assert_eq!(Command::GetStatus.frame(), vec![0xC0, 0xA5, 0xA3]);
    assert_eq!(Command::GetVolume.frame(), vec![0xC0, 0xA5, 0xA2]);
    assert_eq!(Command::SetFilter(Filter::NonOversampling).frame(), vec![0xC0, 0xA5, 0x01, 4]);
    assert_eq!(Command::SetGain(Gain::High).frame(), vec![0xC0, 0xA5, 0x02, 1]);
    assert_eq!(Command::SetVolume(Volume::new(50)).frame(), vec![0xC0, 0xA5, 0x04, 55]);
    assert_eq!(
        Command::SetIndicatorState(IndicatorState::DisabledTemp).frame(),
        vec![0xC0, 0xA5, 0x06, 1]
    );
    assert!(Command::GetStatus.is_query());
    assert!(!Command::SetGain(Gain::Low).is_query());
}

#[test]
fn bus_labels_pad_to_two_digits() {
    assert_eq!(bus_label(3, 2), "03:02");
    assert_eq!(bus_label(10, 99), "10:99");
    assert_eq!(bus_label(0, 255), "00:255");
    assert_eq!(bus_label(123, 45), "123:45");
}

#[test]
fn device_names() {
    assert_eq!(device_name(Some("Dawn 4.4"), DAWN_PRO_PID), "Dawn 4.4");
    assert_eq!(device_name(None, DAWN_PRO_PID), "MOONDROP Dawn Pro");
    assert_eq!(device_name(None, 0x1234), "Unknown");
}

#[test]
fn info_reads_fixed_offsets() {
    let data = [0xC0, 0xA5, 0xA3, 3, 1, 2, 0];
    let info = MoondropInfo::new("n".to_string(), "01:02".to_string(), Volume::new(40), &data);
    assert_eq!(info.name, "n");
    assert_eq!(info.bus, "01:02");
    assert_eq!(info.volume.inner(), 40);
    assert_eq!(info.filter, Filter::SlowRollOffPhaseCompensated);
    assert_eq!(info.gain, Gain::High);
    assert_eq!(info.indicator_state, IndicatorState::Disabled);
    let odd = [0, 0, 0, 9, 9, 9];
    let info = MoondropInfo::new(String::new(), String::new(), Volume::new(0), &odd);
    assert_eq!(info.filter, Filter::FastRollOffLowLatency);
    assert_eq!(info.gain, Gain::Low);
    assert_eq!(info.indicator_state, IndicatorState::Enabled);
}

#[test]
fn labels_as_shown_to_users() {
    assert_eq!(Filter::FastRollOffLowLatency.label(), "Fast roll-off, low-latency");
    assert_eq!(Filter::SlowRollOffPhaseCompensated.label(), "Slow roll-off, phase-compensated");
    assert_eq!(Filter::NonOversampling.label(), "Non-oversampling");
    assert_eq!(Gain::High.label(), "High");
    assert_eq!(IndicatorState::DisabledTemp.label(), "Temporarily Disabled");
    assert_eq!(Volume::new(5).label(), "05%");
    assert_eq!(Volume::new(50).label(), "50%");
    assert_eq!(Volume::new(100).label(), "100%");
}
