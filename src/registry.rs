use vstd::prelude::*;

use crate::protocol::MOONDROP_VID;

verus! {

/// What the USB stack reports of one attached device. `id` is the stable
/// handle of its attachment point.
#[derive(Clone, Debug)]
pub struct DeviceRecord {
    pub id: u64,
    pub vendor_id: u16,
    pub product_id: u16,
    pub product_string: Option<String>,
    pub bus_number: u8,
    pub device_address: u8,
}

/// Whether some record carries `id`.
pub open spec fn has_id(s: Seq<DeviceRecord>, id: u64) -> bool {
    exists|i: int| 0 <= i < s.len() && s[i].id == id
}

/// The position of the record that carries `id`.
pub open spec fn index_of(s: Seq<DeviceRecord>, id: u64) -> int {
    choose|i: int| 0 <= i < s.len() && s[i].id == id
}

/// No two records carry the same id.
pub open spec fn ids_unique(s: Seq<DeviceRecord>) -> bool {
    forall|i: int, j: int| 0 <= i < s.len() && 0 <= j < s.len() && i != j ==> s[i].id != s[j].id
}

/// Every record is of the vendor this library controls.
pub open spec fn all_matching(s: Seq<DeviceRecord>) -> bool {
    forall|i: int| 0 <= i < s.len() ==> s[i].vendor_id == MOONDROP_VID
}

/// The records after a device is reported: a record of another vendor is
/// dropped; one whose id is known replaces the old record in place; any other
/// is appended.
pub open spec fn absorb(s: Seq<DeviceRecord>, rec: DeviceRecord) -> Seq<DeviceRecord> {
    if rec.vendor_id != MOONDROP_VID {
        s
    } else if has_id(s, rec.id) {
        s.update(index_of(s, rec.id), rec)
    } else {
        s.push(rec)
    }
}

/// The records after each of `listed` is reported, in order.
pub open spec fn absorb_all(s: Seq<DeviceRecord>, listed: Seq<DeviceRecord>) -> Seq<DeviceRecord>
    decreases listed.len(),
{
    if listed.len() == 0 {
        s
    } else {
        absorb(absorb_all(s, listed.drop_last()), listed.last())
    }
}

/// The records after the device with `id` is gone.
pub open spec fn without(s: Seq<DeviceRecord>, id: u64) -> Seq<DeviceRecord> {
    if has_id(s, id) {
        s.remove(index_of(s, id))
    } else {
        s
    }
}

/// The device that reads go to: the sole record, and none when there are
/// zero or several.
pub open spec fn active_of(s: Seq<DeviceRecord>) -> Option<u64> {
    if s.len() == 1 {
        Some(s[0].id)
    } else {
        None
    }
}

/// A change reported by the USB stack's hotplug watch.
#[derive(Clone, Debug)]
pub enum HotplugEvent {
    Attached(DeviceRecord),
    Detached(u64),
}

/// What the watcher publishes after an event.
#[derive(Clone, Copy, Debug, PartialEq, Eq, Structural)]
pub enum WatchAction {
    /// Nothing to publish.
    Ignore,
    /// Publish the status of the active device (absent if there is none).
    PublishStatus,
    /// Publish that there is no device, before anything else.
    PublishAbsent,
}

/// The records after an event.
pub open spec fn step_records(s: Seq<DeviceRecord>, ev: HotplugEvent) -> Seq<DeviceRecord> {
    match ev {
        HotplugEvent::Attached(rec) => absorb(s, rec),
        HotplugEvent::Detached(id) => without(s, id),
    }
}

/// What an event calls for: a matching attach publishes the status; the
/// detach of the active device publishes its absence.
pub open spec fn step_action(s: Seq<DeviceRecord>, ev: HotplugEvent) -> WatchAction {
    match ev {
        HotplugEvent::Attached(rec) => if rec.vendor_id == MOONDROP_VID {
            WatchAction::PublishStatus
        } else {
            WatchAction::Ignore
        },
        HotplugEvent::Detached(id) => if active_of(s) == Some(id) {
            WatchAction::PublishAbsent
        } else {
            WatchAction::Ignore
        },
    }
}

/// What the watcher publishes for a run of events, in order.
pub open spec fn run_events(s: Seq<DeviceRecord>, evs: Seq<HotplugEvent>) -> Seq<WatchAction>
    decreases evs.len(),
{
    if evs.len() == 0 {
        Seq::empty()
    } else {
        seq![step_action(s, evs[0])] + run_events(step_records(s, evs[0]), evs.drop_first())
    }
}

proof fn lemma_index_of(s: Seq<DeviceRecord>, i: int)
    requires
        ids_unique(s),
        0 <= i < s.len(),
    ensures
        has_id(s, s[i].id),
        index_of(s, s[i].id) == i,
{
    assert(has_id(s, s[i].id));
}

proof fn lemma_absorb_keeps_wf(s: Seq<DeviceRecord>, rec: DeviceRecord)
    requires
        ids_unique(s),
        all_matching(s),
    ensures
        ids_unique(absorb(s, rec)),
        all_matching(absorb(s, rec)),
{
    if rec.vendor_id == MOONDROP_VID && has_id(s, rec.id) {
        let k = index_of(s, rec.id);
        assert(s[k].id == rec.id);
    }
}

proof fn lemma_without_keeps_wf(s: Seq<DeviceRecord>, id: u64)
    requires
        ids_unique(s),
        all_matching(s),
    ensures
        ids_unique(without(s, id)),
        all_matching(without(s, id)),
{
    if has_id(s, id) {
        let k = index_of(s, id);
        let t = s.remove(k);
        assert forall|i: int, j: int| 0 <= i < t.len() && 0 <= j < t.len() && i != j implies t[i].id
            != t[j].id by {
            let si = if i < k { i } else { i + 1 };
            let sj = if j < k { j } else { j + 1 };
            assert(t[i] == s[si]);
            assert(t[j] == s[sj]);
        }
    }
}

proof fn lemma_run_shape(s: Seq<DeviceRecord>, evs: Seq<HotplugEvent>)
    ensures
        run_events(s, evs).len() == evs.len(),
        forall|k: int|
            0 <= k < evs.len() && run_events(s, evs)[k] == WatchAction::PublishStatus
                ==> evs[k] is Attached,
    decreases evs.len(),
{
    if evs.len() > 0 {
        let rest = evs.drop_first();
        let next = step_records(s, evs[0]);
        lemma_run_shape(next, rest);
        let out = run_events(s, evs);
        assert(out == seq![step_action(s, evs[0])] + run_events(next, rest));
        assert forall|k: int|
            0 <= k < evs.len() && out[k] == WatchAction::PublishStatus implies evs[k] is Attached by {
            if k > 0 {
                assert(out[k] == run_events(next, rest)[k - 1]);
                assert(rest[k - 1] == evs[k]);
            }
        }
    }
}

/// After the devices the USB stack lists are taken in, a device is selected
/// for reads exactly when one record is held, and the selected device is
/// that record.
pub proof fn lemma_refresh_selects_sole(listed: Seq<DeviceRecord>)
    ensures
        (active_of(absorb_all(Seq::empty(), listed)) is Some) <==> absorb_all(
            Seq::empty(),
            listed,
        ).len() == 1,
        forall|id: u64|
            active_of(absorb_all(Seq::empty(), listed)) == Some(id) ==> has_id(
                absorb_all(Seq::empty(), listed),
                id,
            ),
{
    let s = absorb_all(Seq::empty(), listed);
    if s.len() == 1 {
        assert(has_id(s, s[0].id));
    }
}

/// When the active device is detached, the watcher's first message is the
/// absence signal, no device stays selected, and a status published for any
/// later attach comes strictly after that signal.
pub proof fn lemma_absence_before_status(s: Seq<DeviceRecord>, id: u64, evs: Seq<HotplugEvent>)
    requires
        ids_unique(s),
        all_matching(s),
        active_of(s) == Some(id),
        evs.len() > 0,
        evs[0] == HotplugEvent::Detached(id),
    ensures
        run_events(s, evs).len() == evs.len(),
        run_events(s, evs)[0] == WatchAction::PublishAbsent,
        active_of(step_records(s, evs[0])) is None,
        forall|k: int|
            0 <= k < evs.len() && run_events(s, evs)[k] == WatchAction::PublishStatus ==> 0 < k
                && evs[k] is Attached,
{
    lemma_run_shape(s, evs);
    lemma_index_of(s, 0);
    assert(without(s, id).len() == 0);
}

/// The registry of attached dongles and the device selected for reads.
pub struct Moondrop {
    devices: Vec<DeviceRecord>,
    single: Option<u64>,
}

impl Moondrop {
    /// The records, in the order they were first reported.
    pub closed spec fn records(&self) -> Seq<DeviceRecord> {
        self.devices@
    }

    /// The device selected for reads.
    pub closed spec fn selection(&self) -> Option<u64> {
        self.single
    }

    /// Ids are unique, every record matches the vendor, and a device is
    /// selected exactly when it is the only one.
    pub open spec fn wf(&self) -> bool {
        &&& ids_unique(self.records())
        &&& all_matching(self.records())
        &&& self.selection() == active_of(self.records())
    }

    fn empty() -> (r: Self)
        ensures
            r.wf(),
            r.records() == Seq::<DeviceRecord>::empty(),
    {
        Moondrop { devices: Vec::new(), single: None }
    }

    fn reselect(&mut self)
        ensures
            final(self).records() == old(self).records(),
            final(self).selection() == active_of(old(self).records()),
    {
        if self.devices.len() == 1 {
            self.single = Some(self.devices[0].id);
        } else {
            self.single = None;
        }
    }

    fn position(&self, id: u64) -> (r: Option<usize>)
        requires
            self.wf(),
        ensures
            match r {
                Some(i) => i < self.records().len() && self.records()[i as int].id == id && index_of(
                    self.records(),
                    id,
                ) == i && has_id(self.records(), id),
                None => !has_id(self.records(), id),
            },
    {
        let mut i: usize = 0;
        while i < self.devices.len()
            invariant
                self.wf(),
                i <= self.devices@.len(),
                forall|j: int| 0 <= j < i ==> self.devices@[j].id != id,
            decreases self.devices@.len() - i,
        {
            if self.devices[i].id == id {
                proof {
                    lemma_index_of(self.devices@, i as int);
                }
                return Some(i);
            }
            i = i + 1;
        }
        None
    }

    /// Builds the registry from the devices the USB stack lists.
    pub fn new(listed: Vec<DeviceRecord>) -> (r: Self)
        ensures
            r.wf(),
            r.records() == absorb_all(Seq::empty(), listed@),
    {
        let mut r = Self::empty();
        r.refresh(listed);
        r
    }

    /// Replaces the registry from scratch with the devices the USB stack
    /// lists, and selects the sole one if there is exactly one.
    pub fn refresh(&mut self, listed: Vec<DeviceRecord>)
        ensures
            final(self).wf(),
            final(self).records() == absorb_all(Seq::empty(), listed@),
            final(self).selection() is Some <==> final(self).records().len() == 1,
    {
        let ghost orig = listed@;
        let mut m = Self::empty();
        let mut rest = listed;
        let ghost mut k: int = 0;
        while rest.len() > 0
            invariant
                m.wf(),
                0 <= k <= orig.len(),
                rest@ == orig.skip(k),
                m.records() == absorb_all(Seq::empty(), orig.take(k)),
            decreases rest@.len(),
        {
            let rec = rest.remove(0);
            proof {
                assert(rec == orig[k]);
                assert(orig.take(k + 1).drop_last() =~= orig.take(k));
                assert(orig.take(k + 1).last() == orig[k]);
            }
            m.insert(rec);
            proof {
                assert(rest@ =~= orig.skip(k + 1));
                k = k + 1;
            }
        }
        proof {
            assert(orig.take(k) =~= orig);
        }
        *self = m;
    }

    /// Reports one device: a matching one is added, or replaces the record
    /// with its id, and the selection is recomputed. Returns whether it matched.
    pub fn insert(&mut self, rec: DeviceRecord) -> (r: bool)
        requires
            old(self).wf(),
        ensures
            final(self).wf(),
            final(self).records() == absorb(old(self).records(), rec),
            r == (rec.vendor_id == MOONDROP_VID),
    {
        proof {
            lemma_absorb_keeps_wf(self.devices@, rec);
        }
        if rec.vendor_id != MOONDROP_VID {
            return false;
        }
        let ghost want = absorb(self.devices@, rec);
        match self.position(rec.id) {
            Some(i) => {
                self.devices.set(i, rec);
            },
            None => {
                self.devices.push(rec);
            },
        }
        assert(self.devices@ =~= want);
        self.reselect();
        true
    }

    /// Forgets the device with `id` and recomputes the selection. Returns
    /// whether it was known.
    pub fn remove(&mut self, id: u64) -> (r: bool)
        requires
            old(self).wf(),
        ensures
            final(self).wf(),
            final(self).records() == without(old(self).records(), id),
            r == has_id(old(self).records(), id),
    {
        proof {
            lemma_without_keeps_wf(self.devices@, id);
        }
        let found = match self.position(id) {
            Some(i) => {
                self.devices.remove(i);
                true
            },
            None => false,
        };
        self.reselect();
        found
    }

    /// The device that reads go to: the sole record, none when there are zero
    /// or several.
    pub fn active(&self) -> (r: Option<u64>)
        requires
            self.wf(),
        ensures
            r == active_of(self.records()),
    {
        self.single
    }

    /// The record of the device that reads go to.
    pub fn active_record(&self) -> (r: Option<&DeviceRecord>)
        requires
            self.wf(),
        ensures
            match r {
                Some(d) => self.records().len() == 1 && *d == self.records()[0],
                None => self.records().len() != 1,
            },
    {
        if self.devices.len() == 1 {
            Some(&self.devices[0])
        } else {
            None
        }
    }

    /// Every record, in the order first reported.
    pub fn devices(&self) -> (r: &Vec<DeviceRecord>)
        ensures
            r@ == self.records(),
    {
        &self.devices
    }

    /// Applies one hotplug event and says what the watcher publishes next.
    pub fn apply_event(&mut self, ev: HotplugEvent) -> (r: WatchAction)
        requires
            old(self).wf(),
        ensures
            final(self).wf(),
            final(self).records() == step_records(old(self).records(), ev),
            r == step_action(old(self).records(), ev),
    {
        match ev {
            HotplugEvent::Attached(rec) => {
                if self.insert(rec) {
                    WatchAction::PublishStatus
                } else {
                    WatchAction::Ignore
                }
            },
            HotplugEvent::Detached(id) => {
                let was_active = match self.single {
                    Some(s) => s == id,
                    None => false,
                };
                self.remove(id);
                if was_active {
                    WatchAction::PublishAbsent
                } else {
                    WatchAction::Ignore
                }
            },
        }
    }
}

} // verus!
