use vstd::prelude::*;

use crate::filter::{Filter, filter_of};
use crate::gain::{Gain, gain_of};
use crate::indicator_state::{IndicatorState, indicator_state_of};
use crate::info::{MoondropInfo, bus_label, bus_label_of, device_name, fallback_name};
use crate::protocol::{
    Command,
    FILTER_IDX,
    GAIN_IDX,
    INDICATOR_STATE_IDX,
    RESPONSE_LEN,
    VOLUME_IDX,
    frame_of,
};
use crate::registry::{DeviceRecord, Moondrop, absorb_all};
use crate::volume::{Volume, percent_of};

verus! {

/// Why one exchange with a device failed. Each ends only the call that met it.
#[derive(Clone, Copy, Debug, PartialEq, Eq, Structural)]
pub enum SessionError {
    DeviceOpenFailed,
    TransferFailed,
    NoActiveDevice,
    Disconnected,
}

/// Display name of a record: its product string, else the name known for its
/// product ID.
pub open spec fn name_of(rec: DeviceRecord) -> Seq<char> {
    match rec.product_string {
        Some(p) => p@,
        None => fallback_name(rec.product_id),
    }
}

/// A response is complete when it holds every byte asked for.
pub open spec fn complete(frame: Seq<u8>) -> bool {
    frame.len() >= RESPONSE_LEN
}

/// The ids of the records, in order.
pub open spec fn ids_of(s: Seq<DeviceRecord>) -> Seq<u64> {
    s.map_values(|r: DeviceRecord| r.id)
}

/// The volume a volume response reports; none for a short response.
pub fn decode_volume(frame: &[u8]) -> (r: Option<Volume>)
    ensures
        r is Some <==> complete(frame@),
        r matches Some(v) ==> v.percent() == percent_of(frame@[VOLUME_IDX as int] as int),
{
    if frame.len() >= RESPONSE_LEN as usize {
        Some(Volume::from_payload(frame[VOLUME_IDX]))
    } else {
        None
    }
}

fn record_name(rec: &DeviceRecord) -> (r: String)
    ensures
        r@ == name_of(*rec),
{
    match &rec.product_string {
        Some(p) => device_name(Some(p.as_str()), rec.product_id),
        None => device_name(None, rec.product_id),
    }
}

/// A status query in progress against one device: first the volume
/// exchange, then the status exchange.
pub struct StatusQuery {
    pub device: u64,
    pub name: String,
    pub bus: String,
    pub volume: Option<Volume>,
}

/// Where a status query stands after a response.
pub enum QueryProgress {
    Pending(StatusQuery),
    Done(Option<MoondropInfo>),
}

/// The bytes of a response, if the exchange succeeded.
pub open spec fn opt_view(response: Option<&[u8]>) -> Option<Seq<u8>> {
    match response {
        Some(f) => Some(f@),
        None => None,
    }
}

/// A status query after a response: a failed or short exchange ends it with
/// no result; the volume response is kept; the status response completes the
/// snapshot.
pub open spec fn receive_spec(q: StatusQuery, response: Option<Seq<u8>>) -> QueryProgress {
    match response {
        None => QueryProgress::Done(None),
        Some(f) => if !complete(f) {
            QueryProgress::Done(None)
        } else {
            match q.volume {
                None => QueryProgress::Pending(
                    StatusQuery {
                        device: q.device,
                        name: q.name,
                        bus: q.bus,
                        volume: Some(Volume::of_payload(f[VOLUME_IDX as int])),
                    },
                ),
                Some(v) => QueryProgress::Done(
                    Some(
                        MoondropInfo {
                            name: q.name,
                            bus: q.bus,
                            volume: v,
                            filter: filter_of(f[FILTER_IDX as int]),
                            gain: gain_of(f[GAIN_IDX as int]),
                            indicator_state: indicator_state_of(f[INDICATOR_STATE_IDX as int]),
                        },
                    ),
                ),
            }
        },
    }
}

impl StatusQuery {
    /// Starts a query against a record.
    pub fn start(rec: &DeviceRecord) -> (r: StatusQuery)
        ensures
            r.device == rec.id,
            r.name@ == name_of(*rec),
            r.bus@ == bus_label_of(rec.bus_number, rec.device_address),
            r.volume is None,
    {
        StatusQuery {
            device: rec.id,
            name: record_name(rec),
            bus: bus_label(rec.bus_number, rec.device_address),
            volume: None,
        }
    }

    /// The exchange to perform next.
    pub fn request(&self) -> (r: Command)
        ensures
            r == (if self.volume is None {
                Command::GetVolume
            } else {
                Command::GetStatus
            }),
    {
        match self.volume {
            None => Command::GetVolume,
            Some(_) => Command::GetStatus,
        }
    }

    /// Takes the response to `request()`, or `None` when the exchange failed.
    /// A failed or short exchange ends the query with no result.
    pub fn receive(self, response: Option<&[u8]>) -> (r: QueryProgress)
        ensures
            r == receive_spec(self, opt_view(response)),
    {
        match response {
            None => QueryProgress::Done(None),
            Some(f) => {
                if f.len() < RESPONSE_LEN as usize {
                    return QueryProgress::Done(None);
                }
                match self.volume {
                    None => {
                        let v = Volume::from_payload(f[VOLUME_IDX]);
                        QueryProgress::Pending(
                            StatusQuery {
                                device: self.device,
                                name: self.name,
                                bus: self.bus,
                                volume: Some(v),
                            },
                        )
                    },
                    Some(v) => QueryProgress::Done(
                        Some(MoondropInfo::new(self.name, self.bus, v, f)),
                    ),
                }
            },
        }
    }
}

/// A broadcast as a value: the bytes, the targets, how many were written,
/// and the failures met.
pub struct BroadcastView {
    pub frame: Seq<u8>,
    pub targets: Seq<u64>,
    pub done: nat,
    pub failures: Seq<(u64, SessionError)>,
}

/// The broadcast after the outcome of the write to its next target.
pub open spec fn record_spec(v: BroadcastView, outcome: Result<(), SessionError>) -> BroadcastView {
    BroadcastView {
        frame: v.frame,
        targets: v.targets,
        done: v.done + 1,
        failures: match outcome {
            Ok(()) => v.failures,
            Err(e) => v.failures.push((v.targets[v.done as int], e)),
        },
    }
}

/// The broadcast after each outcome in turn.
pub open spec fn run_broadcast(
    v: BroadcastView,
    outcomes: Seq<Result<(), SessionError>>,
) -> BroadcastView
    decreases outcomes.len(),
{
    if outcomes.len() == 0 {
        v
    } else {
        run_broadcast(record_spec(v, outcomes[0]), outcomes.drop_first())
    }
}

/// The targets paired with the error of their failed outcome, in order.
pub open spec fn failed(
    targets: Seq<u64>,
    outcomes: Seq<Result<(), SessionError>>,
) -> Seq<(u64, SessionError)>
    decreases outcomes.len(),
{
    if outcomes.len() == 0 || targets.len() == 0 {
        Seq::empty()
    } else {
        let head: Seq<(u64, SessionError)> = match outcomes[0] {
            Ok(()) => Seq::empty(),
            Err(e) => seq![(targets[0], e)],
        };
        head + failed(targets.drop_first(), outcomes.drop_first())
    }
}

proof fn lemma_run_broadcast(v: BroadcastView, outcomes: Seq<Result<(), SessionError>>)
    requires
        v.done + outcomes.len() == v.targets.len(),
    ensures
        run_broadcast(v, outcomes).done == v.targets.len(),
        run_broadcast(v, outcomes).targets == v.targets,
        run_broadcast(v, outcomes).frame == v.frame,
        run_broadcast(v, outcomes).failures == v.failures + failed(
            v.targets.skip(v.done as int),
            outcomes,
        ),
    decreases outcomes.len(),
{
    let rest = v.targets.skip(v.done as int);
    if outcomes.len() == 0 {
        assert(v.failures + failed(rest, outcomes) =~= v.failures);
    } else {
        let w = record_spec(v, outcomes[0]);
        lemma_run_broadcast(w, outcomes.drop_first());
        assert(rest.drop_first() =~= v.targets.skip(w.done as int));
        assert(rest[0] == v.targets[v.done as int]);
        let head: Seq<(u64, SessionError)> = match outcomes[0] {
            Ok(()) => Seq::empty(),
            Err(e) => seq![(rest[0], e)],
        };
        assert(w.failures =~= v.failures + head);
        assert(failed(rest, outcomes) == head + failed(rest.drop_first(), outcomes.drop_first()));
        assert(v.failures + head + failed(rest.drop_first(), outcomes.drop_first()) =~= v.failures
            + (head + failed(rest.drop_first(), outcomes.drop_first())));
    }
}

/// A broadcast that has written nothing yet, given one outcome per target,
/// writes every target, in order, whichever writes fail; the failures it
/// reports are exactly the targets whose write failed.
pub proof fn lemma_broadcast_reaches_all(
    frame: Seq<u8>,
    targets: Seq<u64>,
    outcomes: Seq<Result<(), SessionError>>,
)
    requires
        outcomes.len() == targets.len(),
    ensures
        ({
            let end = run_broadcast(
                BroadcastView { frame, targets, done: 0, failures: Seq::empty() },
                outcomes,
            );
            &&& end.done == targets.len()
            &&& end.targets.take(end.done as int) == targets
            &&& end.frame == frame
            &&& end.failures == failed(targets, outcomes)
        }),
{
    let v = BroadcastView { frame, targets, done: 0, failures: Seq::empty() };
    lemma_run_broadcast(v, outcomes);
    assert(targets.skip(0) =~= targets);
    assert(targets.take(targets.len() as int) =~= targets);
    assert(Seq::<(u64, SessionError)>::empty() + failed(targets, outcomes) =~= failed(
        targets,
        outcomes,
    ));
}

/// A set command fanned out to every device: each is written once, in
/// order, whatever became of the others.
pub struct Broadcast {
    frame: Vec<u8>,
    targets: Vec<u64>,
    done: usize,
    failures: Vec<(u64, SessionError)>,
}

impl Broadcast {
    /// The broadcast as a value.
    pub closed spec fn view(&self) -> BroadcastView {
        BroadcastView {
            frame: self.frame@,
            targets: self.targets@,
            done: self.done as nat,
            failures: self.failures@,
        }
    }

    pub open spec fn wf(&self) -> bool {
        self.view().done <= self.view().targets.len()
    }

    /// The bytes to write.
    pub fn frame(&self) -> (r: &Vec<u8>)
        ensures
            r@ == self.view().frame,
    {
        &self.frame
    }

    /// The device to write next; none once every target was written.
    pub fn next_target(&self) -> (r: Option<u64>)
        requires
            self.wf(),
        ensures
            r == (if self.view().done < self.view().targets.len() {
                Some(self.view().targets[self.view().done as int])
            } else {
                None
            }),
    {
        if self.done < self.targets.len() {
            Some(self.targets[self.done])
        } else {
            None
        }
    }

    /// Records the outcome of the write to `next_target()` and moves on to
    /// the next target, whether it succeeded or not.
    pub fn record(&mut self, outcome: Result<(), SessionError>)
        requires
            old(self).wf(),
            old(self).view().done < old(self).view().targets.len(),
        ensures
            final(self).wf(),
            final(self).view() == record_spec(old(self).view(), outcome),
    {
        match outcome {
            Ok(()) => {},
            Err(e) => {
                let id = self.targets[self.done];
                self.failures.push((id, e));
            },
        }
        if self.done < self.targets.len() {
            self.done = self.done + 1;
        }
    }

    /// Whether every target was written.
    pub fn is_finished(&self) -> (r: bool)
        ensures
            r == (self.view().done >= self.view().targets.len()),
    {
        self.done >= self.targets.len()
    }

    /// The targets whose write failed, with the reason.
    pub fn failures(&self) -> (r: &Vec<(u64, SessionError)>)
        ensures
            r@ == self.view().failures,
    {
        &self.failures
    }
}

/// A broadcast of `command` to `targets` that has written nothing yet.
pub open spec fn fresh_broadcast(command: Command, targets: Seq<u64>) -> BroadcastView {
    BroadcastView { frame: frame_of(command), targets, done: 0, failures: Seq::empty() }
}

impl Moondrop {
    fn target_ids(&self) -> (r: Vec<u64>)
        ensures
            r@ == ids_of(self.records()),
    {
        let devices = self.devices();
        let mut ids: Vec<u64> = Vec::new();
        let mut i: usize = 0;
        while i < devices.len()
            invariant
                devices@ == self.records(),
                i <= devices@.len(),
                ids@ == ids_of(devices@.take(i as int)),
            decreases devices@.len() - i,
        {
            ids.push(devices[i].id);
            assert(ids_of(devices@.take(i + 1)) =~= ids_of(devices@.take(i as int)).push(
                devices@[i as int].id,
            ));
            i = i + 1;
        }
        assert(devices@.take(i as int) =~= devices@);
        ids
    }

    /// Refreshes the registry from the devices the USB stack lists, then
    /// plans `command` for every device in it.
    fn broadcast(&mut self, listed: Vec<DeviceRecord>, command: Command) -> (r: Broadcast)
        ensures
            final(self).wf(),
            final(self).records() == absorb_all(Seq::empty(), listed@),
            r.wf(),
            r.view() == fresh_broadcast(command, ids_of(final(self).records())),
    {
        self.refresh(listed);
        let targets = self.target_ids();
        let r = Broadcast { frame: command.frame(), targets, done: 0, failures: Vec::new() };
        assert(r.view().failures =~= Seq::<(u64, SessionError)>::empty());
        r
    }

    /// Sets the gain on every attached dongle: refreshes from `listed`, then
    /// returns the writes to perform, one per device.
    pub fn set_gain(&mut self, listed: Vec<DeviceRecord>, gain: Gain) -> (r: Broadcast)
        ensures
            final(self).wf(),
            final(self).records() == absorb_all(Seq::empty(), listed@),
            r.wf(),
            r.view() == fresh_broadcast(Command::SetGain(gain), ids_of(final(self).records())),
    {
        self.broadcast(listed, Command::SetGain(gain))
    }

    /// Sets the volume on every attached dongle: refreshes from `listed`, then
    /// returns the writes to perform, one per device.
    pub fn set_volume(&mut self, listed: Vec<DeviceRecord>, level: Volume) -> (r: Broadcast)
        ensures
            final(self).wf(),
            final(self).records() == absorb_all(Seq::empty(), listed@),
            r.wf(),
            r.view() == fresh_broadcast(Command::SetVolume(level), ids_of(final(self).records())),
    {
        self.broadcast(listed, Command::SetVolume(level))
    }

    /// Sets the filter on every attached dongle: refreshes from `listed`, then
    /// returns the writes to perform, one per device.
    pub fn set_filter(&mut self, listed: Vec<DeviceRecord>, filter: Filter) -> (r: Broadcast)
        ensures
            final(self).wf(),
            final(self).records() == absorb_all(Seq::empty(), listed@),
            r.wf(),
            r.view() == fresh_broadcast(Command::SetFilter(filter), ids_of(final(self).records())),
    {
        self.broadcast(listed, Command::SetFilter(filter))
    }

    /// Sets the indicator state on every attached dongle: refreshes from
    /// `listed`, then returns the writes to perform, one per device.
    pub fn set_indicator_state(
        &mut self,
        listed: Vec<DeviceRecord>,
        indicator_state: IndicatorState,
    ) -> (r: Broadcast)
        ensures
            final(self).wf(),
            final(self).records() == absorb_all(Seq::empty(), listed@),
            r.wf(),
            r.view() == fresh_broadcast(
                Command::SetIndicatorState(indicator_state),
                ids_of(final(self).records()),
            ),
    {
        self.broadcast(listed, Command::SetIndicatorState(indicator_state))
    }

    /// Starts a status query against the sole attached dongle; none when zero
    /// or several are attached.
    pub fn get_all(&self) -> (r: Option<StatusQuery>)
        requires
            self.wf(),
        ensures
            r is Some <==> self.records().len() == 1,
            r matches Some(q) ==> q.device == self.records()[0].id && q.name@ == name_of(
                self.records()[0],
            ) && q.bus@ == bus_label_of(
                self.records()[0].bus_number,
                self.records()[0].device_address,
            ) && q.volume is None,
    {
        match self.active_record() {
            Some(rec) => Some(StatusQuery::start(rec)),
            None => None,
        }
    }

    /// Starts a status query against every attached dongle, in order.
    pub fn detect(&self) -> (r: Vec<StatusQuery>)
        ensures
            r@.len() == self.records().len(),
            forall|i: int|
                0 <= i < r@.len() ==> {
                    let rec = #[trigger] self.records()[i];
                    &&& r@[i].device == rec.id
                    &&& r@[i].name@ == name_of(rec)
                    &&& r@[i].bus@ == bus_label_of(rec.bus_number, rec.device_address)
                    &&& r@[i].volume is None
                },
    {
        let devices = self.devices();
        let mut queries: Vec<StatusQuery> = Vec::new();
        let mut i: usize = 0;
        while i < devices.len()
            invariant
                devices@ == self.records(),
                i <= devices@.len(),
                queries@.len() == i,
                forall|j: int|
                    0 <= j < i ==> {
                        let rec = #[trigger] devices@[j];
                        &&& queries@[j].device == rec.id
                        &&& queries@[j].name@ == name_of(rec)
                        &&& queries@[j].bus@ == bus_label_of(rec.bus_number, rec.device_address)
                        &&& queries@[j].volume is None
                    },
            decreases devices@.len() - i,
        {
            queries.push(StatusQuery::start(&devices[i]));
            i = i + 1;
        }
        queries
    }
}

} // verus!
