use mdrop::filter::Filter;
use mdrop::gain::Gain;
use mdrop::gui::{MdropGui, Message};
use mdrop::indicator_state::IndicatorState;
use mdrop::protocol::Command;
use mdrop::registry::{DeviceRecord, HotplugEvent, WatchAction};
use mdrop::session::{decode_volume, QueryProgress, SessionError};
use mdrop::volume::Volume;
use mdrop::{Moondrop, MoondropInfo, DAWN_PRO_PID, MOONDROP_VID};

fn dongle(id: u64) -> DeviceRecord {
    DeviceRecord {
        id,
        vendor_id: MOONDROP_VID,
        product_id: DAWN_PRO_PID,
        product_string: None,
        bus_number: 3,
        device_address: id as u8,
    }
}

fn other(id: u64) -> DeviceRecord {
    DeviceRecord { vendor_id: 0x1234, ..dongle(id) }
}

fn ids(m: &Moondrop) -> Vec<u64> {
    m.devices().iter().map(|d| d.id).collect()
}

#[test]
fn refresh_selects_only_a_sole_device() {
    let m = Moondrop::new(vec![]);
    assert_eq!(m.active(), None);
    let m = Moondrop::new(vec![dongle(7)]);
    assert_eq!(m.active(), Some(7));
    assert_eq!(m.active_record().map(|d| d.id), Some(7));
    let mut m = Moondrop::new(vec![dongle(7), dongle(8)]);
    assert_eq!(m.active(), None);
    assert!(m.active_record().is_none());
    m.refresh(vec![dongle(8)]);
    assert_eq!(ids(&m), vec![8]);
    assert_eq!(m.active(), Some(8));
}

#[test]
fn refresh_keeps_only_matching_vendor() {
    let m = Moondrop::new(vec![other(1), dongle(2), other(3)]);
    assert_eq!(ids(&m), vec![2]);
    assert_eq!(m.active(), Some(2));
}

#[test]
fn refresh_replaces_a_repeated_id() {
    let mut late = dongle(4);
    late.product_string = Some("late".to_string());
    let m = Moondrop::new(vec![dongle(4), dongle(5), late]);
    assert_eq!(ids(&m), vec![4, 5]);
    assert_eq!(m.devices()[0].product_string.as_deref(), Some("late"));
}

#[test]
fn detach_of_active_signals_absence_first() {
    let mut m = Moondrop::new(vec![]);
    assert_eq!(m.apply_event(HotplugEvent::Attached(dongle(1))), WatchAction::PublishStatus);
    assert_eq!(m.active(), Some(1));
    assert_eq!(m.apply_event(HotplugEvent::Detached(1)), WatchAction::PublishAbsent);
    assert_eq!(m.active(), None);
    assert_eq!(m.apply_event(HotplugEvent::Attached(dongle(2))), WatchAction::PublishStatus);
    assert_eq!(m.active(), Some(2));
}

#[test]
fn hotplug_ignores_other_devices() {
    let mut m = Moondrop::new(vec![dongle(1)]);
    assert_eq!(m.apply_event(HotplugEvent::Attached(other(2))), WatchAction::Ignore);
    assert_eq!(m.apply_event(HotplugEvent::Detached(2)), WatchAction::Ignore);
    assert_eq!(ids(&m), vec![1]);
    assert_eq!(m.apply_event(HotplugEvent::Attached(dongle(3))), WatchAction::PublishStatus);
    assert_eq!(m.active(), None);
    assert_eq!(m.apply_event(HotplugEvent::Detached(3)), WatchAction::Ignore);
    assert_eq!(m.active(), Some(1));
    assert!(m.insert(dongle(9)));
    assert!(m.remove(9));
    assert!(!m.remove(9));
}

#[test]
fn broadcast_writes_every_device_despite_failure() {
    let mut m = Moondrop::new(vec![]);
    let mut b = m.set_gain(vec![dongle(1), dongle(2)], Gain::High);
    assert_eq!(ids(&m), vec![1, 2]);
    assert_eq!(b.frame(), &vec![0xC0, 0xA5, 0x02, 1]);
    let mut written = Vec::new();
    let mut first = true;
    while let Some(id) = b.next_target() {
        written.push(id);
        if first {
            b.record(Err(SessionError::TransferFailed));
            first = false;
        } else {
            b.record(Ok(()));
        }
    }
    assert!(b.is_finished());
    assert_eq!(written, vec![1, 2]);
    assert_eq!(b.failures(), &vec![(1, SessionError::TransferFailed)]);
}

#[test]
fn set_commands_refresh_first() {
    let mut m = Moondrop::new(vec![dongle(1)]);
    let b = m.set_volume(vec![dongle(2), dongle(3)], Volume::new(50));
    assert_eq!(ids(&m), vec![2, 3]);
    assert_eq!(b.frame(), &vec![0xC0, 0xA5, 0x04, 55]);
    let b = m.set_filter(vec![], Filter::SlowRollOffLowLatency);
    assert!(b.is_finished());
    assert_eq!(b.next_target(), None);
    let b = m.set_indicator_state(vec![dongle(5)], IndicatorState::Disabled);
    assert_eq!(b.frame(), &vec![0xC0, 0xA5, 0x06, 2]);
    assert_eq!(b.next_target(), Some(5));
}

#[test]
fn dawn_pro_volume_half() {
    let m = Moondrop::new(vec![dongle(1)]);
    let q = m.get_all().expect("one dongle attached");
    assert_eq!(q.device, 1);
    assert!(matches!(q.request(), Command::GetVolume));
    let vol = [0xC0, 0xA5, 0xA2, 0, 0x38, 0, 0];
    let q = match q.receive(Some(&vol)) {
        QueryProgress::Pending(q) => q,
        QueryProgress::Done(_) => panic!("query ended early"),
    };
    assert!(matches!(q.request(), Command::GetStatus));
    let status = [0xC0, 0xA5, 0xA3, 1, 1, 2, 0];
    let info: MoondropInfo = match q.receive(Some(&status)) {
        QueryProgress::Done(Some(info)) => info,
        _ => panic!("no status"),
    };
    assert_eq!(info.volume.inner(), 50);
    assert_eq!(info.name, "MOONDROP Dawn Pro");
    assert_eq!(info.bus, "03:01");
    assert_eq!(info.filter, Filter::FastRollOffPhaseCompensated);
    assert_eq!(info.gain, Gain::High);
    assert_eq!(info.indicator_state, IndicatorState::Disabled);
    assert_eq!(decode_volume(&vol).map(|v| v.inner()), Some(50));
}

#[test]
fn no_device_gives_absent_status() {
    let m = Moondrop::new(vec![]);
    assert!(m.get_all().is_none());
    assert!(m.detect().is_empty());
    let m = Moondrop::new(vec![dongle(1), dongle(2)]);
    assert!(m.get_all().is_none());
    assert_eq!(m.detect().len(), 2);
}

#[test]
fn failed_or_short_exchange_gives_absent_status() {
    let m = Moondrop::new(vec![dongle(1)]);
    let q = m.get_all().unwrap();
    assert!(matches!(q.receive(None), QueryProgress::Done(None)));
    let q = m.get_all().unwrap();
    assert!(matches!(q.receive(Some(&[0xC0, 0xA5, 0xA2, 0, 0x38])), QueryProgress::Done(None)));
    assert_eq!(decode_volume(&[0, 0, 0, 0, 0x38, 0]).map(|v| v.inner()), None);
}

#[test]
fn detect_names_every_device() {
    let mut named = dongle(2);
    named.product_string = Some("Moonriver".to_string());
    let m = Moondrop::new(vec![dongle(1), named]);
    let qs = m.detect();
    assert_eq!(qs[0].name, "MOONDROP Dawn Pro");
    assert_eq!(qs[1].name, "Moonriver");
    assert_eq!(qs[1].bus, "03:02");
}

#[test]
fn panel_update_applies_and_sends() {
    let mut gui = MdropGui::new(None);
    assert!(gui.update(Message::SelectGain(Gain::High)).is_none());
    assert!(gui.info.is_none());
    let info = MoondropInfo::new(
        "d".to_string(),
        "01:01".to_string(),
        Volume::new(10),
        &[0, 0, 0, 0, 0, 0, 0],
    );
    assert!(gui.update(Message::UpdateDevice(Some(info))).is_none());
    assert!(matches!(gui.update(Message::SelectGain(Gain::High)), Some(Command::SetGain(Gain::High))));
    assert_eq!(gui.info.as_ref().unwrap().gain, Gain::High);
    assert!(gui.update(Message::VolumeChanged(60)).is_none());
    match gui.update(Message::SetVolume) {
        Some(Command::SetVolume(v)) => assert_eq!(v.inner(), 60),
        _ => panic!("no volume command"),
    }
    assert!(matches!(
        gui.update(Message::SelectFilter(Filter::NonOversampling)),
        Some(Command::SetFilter(Filter::NonOversampling))
    ));
    assert!(matches!(
        gui.update(Message::SelectIndicator(IndicatorState::Disabled)),
        Some(Command::SetIndicatorState(IndicatorState::Disabled))
    ));
    assert_eq!(gui.info.as_ref().unwrap().filter, Filter::NonOversampling);
    assert!(gui.update(Message::UpdateDevice(None)).is_none());
    assert!(gui.info.is_none());
}
