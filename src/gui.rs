use vstd::prelude::*;

use crate::filter::Filter;
use crate::gain::Gain;
use crate::indicator_state::IndicatorState;
use crate::info::MoondropInfo;
use crate::protocol::Command;
use crate::volume::Volume;

verus! {

/// What the control panel reacts to.
#[derive(Clone, Debug)]
pub enum Message {
    /// The volume slider was released: apply the volume shown.
    SetVolume,
    /// The volume slider moved.
    VolumeChanged(u32),
    SelectFilter(Filter),
    SelectIndicator(IndicatorState),
    SelectGain(Gain),
    /// The watcher published a status, or the absence of a device.
    UpdateDevice(Option<MoondropInfo>),
}

/// State of the control panel: the status it shows, if a dongle is present.
pub struct MdropGui {
    pub info: Option<MoondropInfo>,
}

/// The status shown after a message.
pub open spec fn shown_after(info: Option<MoondropInfo>, message: Message) -> Option<MoondropInfo> {
    match message {
        Message::UpdateDevice(next) => next,
        _ => match info {
            None => None,
            Some(i) => Some(
                match message {
                    Message::VolumeChanged(v) => MoondropInfo { volume: Volume::with_percent(v), ..i },
                    Message::SelectFilter(f) => MoondropInfo { filter: f, ..i },
                    Message::SelectIndicator(s) => MoondropInfo { indicator_state: s, ..i },
                    Message::SelectGain(g) => MoondropInfo { gain: g, ..i },
                    _ => i,
                },
            ),
        },
    }
}

/// The command a message sends to the dongles: a selection or a released
/// slider is applied, and only while a dongle is shown.
pub open spec fn command_after(info: Option<MoondropInfo>, message: Message) -> Option<Command> {
    match info {
        None => None,
        Some(i) => match message {
            Message::SetVolume => Some(Command::SetVolume(i.volume)),
            Message::SelectFilter(f) => Some(Command::SetFilter(f)),
            Message::SelectIndicator(s) => Some(Command::SetIndicatorState(s)),
            Message::SelectGain(g) => Some(Command::SetGain(g)),
            _ => None,
        },
    }
}

impl MdropGui {
    /// A panel that shows `info`.
    pub fn new(info: Option<MoondropInfo>) -> (r: Self)
        ensures
            r.info == info,
    {
        MdropGui { info }
    }

    /// Applies a message to the shown status and returns the command to send
    /// to every dongle, if any.
    pub fn update(&mut self, message: Message) -> (r: Option<Command>)
        ensures
            final(self).info == shown_after(old(self).info, message),
            r == command_after(old(self).info, message),
    {
        let current = self.info.take();
        match message {
            Message::UpdateDevice(next) => {
                self.info = next;
                None
            },
            Message::SetVolume => match current {
                Some(i) => {
                    let v = i.volume;
                    self.info = Some(i);
                    Some(Command::SetVolume(v))
                },
                None => None,
            },
            Message::VolumeChanged(value) => match current {
                Some(mut i) => {
                    i.volume = Volume::new(value);
                    self.info = Some(i);
                    None
                },
                None => None,
            },
            Message::SelectFilter(f) => match current {
                Some(mut i) => {
                    i.filter = f;
                    self.info = Some(i);
                    Some(Command::SetFilter(f))
                },
                None => None,
            },
            Message::SelectIndicator(s) => match current {
                Some(mut i) => {
                    i.indicator_state = s;
                    self.info = Some(i);
                    Some(Command::SetIndicatorState(s))
                },
                None => None,
            },
            Message::SelectGain(g) => match current {
                Some(mut i) => {
                    i.gain = g;
                    self.info = Some(i);
                    Some(Command::SetGain(g))
                },
                None => None,
            },
        }
    }
}

} // verus!
