//! The table of a context: what is known of each device, with the count of
//! the handles that are out on it.

use crate::device::{device, device_get_dev, Device, Type};
use crate::record::{
    attrs, device_fits, find, fits, lemma_position, written, wrote, DeviceRecord, Devnum, Reading,
    RecordView, SysAttr,
};
use crate::udev::Udev;
use crate::util::str_eq;
use vstd::prelude::*;
use vstd::string::*;

verus! {

/// The counts after one more handle was taken on the device at `slot`.
pub open spec fn retained(refs: Seq<nat>, slot: int) -> Seq<nat> {
    refs.update(slot, refs[slot] + 1)
}

/// The counts after one handle on the device at `slot` was given back.
pub open spec fn released(refs: Seq<nat>, slot: int) -> Seq<nat> {
    refs.update(slot, (refs[slot] - 1) as nat)
}

/// The counts after `n` more handles were taken on the device at `slot`.
pub open spec fn retained_n(refs: Seq<nat>, slot: int, n: nat) -> Seq<nat>
    decreases n,
{
    if n == 0 {
        refs
    } else {
        retained(retained_n(refs, slot, (n - 1) as nat), slot)
    }
}

/// The counts after `n` handles on the device at `slot` were given back.
pub open spec fn released_n(refs: Seq<nat>, slot: int, n: nat) -> Seq<nat>
    decreases n,
{
    if n == 0 {
        refs
    } else {
        released(released_n(refs, slot, (n - 1) as nat), slot)
    }
}

/// Handles are counted exactly. After `taken` handles were taken on a device
/// and `given` of them were given back, its count is up by those that are
/// still out, and no other count has moved. So the count stays above zero
/// while a handle is out, and once all are back every count is where it was.
pub proof fn lemma_handles_balance(refs: Seq<nat>, slot: int, taken: nat, given: nat)
    requires
        0 <= slot < refs.len(),
        given <= taken,
    ensures
        released_n(retained_n(refs, slot, taken), slot, given) == refs.update(
            slot,
            (refs[slot] + taken - given) as nat,
        ),
        given < taken ==> released_n(retained_n(refs, slot, taken), slot, given)[slot] > 0,
        given == taken ==> released_n(retained_n(refs, slot, taken), slot, given) == refs,
    decreases taken + given,
{
    if given > 0 {
        lemma_handles_balance(refs, slot, taken, (given - 1) as nat);
    } else if taken > 0 {
        lemma_handles_balance(refs, slot, (taken - 1) as nat, 0);
    }
}

/// Whether one more handle can be counted on the device at `target`: there
/// has to be such a device, and its count must not stand at its limit.
pub open spec fn countable(refs: Seq<nat>, target: Option<int>) -> bool {
    target matches Some(slot) && 0 <= slot < refs.len() && refs[slot] < u64::MAX
}

/// What every operation that hands out a handle does, where `target` is the
/// device it has settled on, if any.
///
/// It hands out a handle exactly where one can be counted on the target, and
/// then the handle is on the target and counted; otherwise no count moves.
/// No record changes either way.
pub open spec fn takes(before: Table, after: Table, target: Option<int>, taken: Option<Device>) -> bool {
    &&& after.context() == before.context()
    &&& after.records() == before.records()
    &&& taken is Some <==> countable(before.refs(), target)
    &&& match taken {
        Some(device) => {
            &&& device.context() == before.context()
            &&& target == Some(device.slot() as int)
            &&& after.refs() == retained(before.refs(), device.slot() as int)
        },
        None => after.refs() == before.refs(),
    }
}

/// The three ways to ask for a device.
pub enum Query<'a> {
    /// By its path, with `/sys` in front.
    Syspath(&'a str),
    /// By the kind of its node and its device number.
    Devnum(Type, Devnum),
    /// By its subsystem and its name.
    SubsystemSysname(&'a str, &'a str),
}

/// Whether a device has a block node: those of the subsystem `block` do,
/// every other node is a character node.
pub open spec fn is_block(record: RecordView) -> bool {
    record.subsystem == Some("block"@)
}

/// Whether a device is what a query asks for. No device answers to the
/// device number zero, which stands for "none".
pub open spec fn answers(record: RecordView, query: Query) -> bool {
    match query {
        Query::Syspath(path) => record.syspath == path@,
        Query::Devnum(ty, devnum) => devnum != 0 && record.devnum == devnum && (ty == Type::Block)
            == is_block(record),
        Query::SubsystemSysname(subsystem, sysname) => record.subsystem == Some(subsystem@)
            && record.sysname == sysname@,
    }
}

/// The place of the first device that answers to a query: the length of the
/// table where none does.
pub open spec fn first_answer(records: Seq<RecordView>, query: Query) -> int
    decreases records.len(),
{
    if records.len() == 0 {
        0
    } else if answers(records[0], query) {
        0
    } else {
        1 + first_answer(records.drop_first(), query)
    }
}

/// The device that a query settles on: the first that answers, if any does.
pub open spec fn answer(records: Seq<RecordView>, query: Query) -> Option<int> {
    if first_answer(records, query) < records.len() {
        Some(first_answer(records, query))
    } else {
        None
    }
}

/// The device that a query settles on stands in the table and answers the
/// query, and no device before it does; where the query settles on none, no
/// device of the table answers.
pub proof fn lemma_answer(records: Seq<RecordView>, query: Query)
    ensures
        match answer(records, query) {
            Some(at) => {
                &&& 0 <= at < records.len()
                &&& answers(records[at], query)
                &&& forall|i: int| 0 <= i < at ==> !answers(#[trigger] records[i], query)
            },
            None => forall|i: int| 0 <= i < records.len() ==> !answers(#[trigger] records[i], query),
        },
    decreases records.len(),
{
    if records.len() > 0 && !answers(records[0], query) {
        let rest = records.drop_first();
        lemma_answer(rest, query);
        assert forall|i: int| 0 <= i < first_answer(records, query) && i < records.len() implies !answers(
            #[trigger] records[i],
            query,
        ) by {
            if i > 0 {
                assert(rest[i - 1] == records[i]);
            }
        }
    }
}

/// Whether every record of a table fits the place it stands at.
pub open spec fn in_order(records: Seq<RecordView>) -> bool {
    forall|i: int| 0 <= i < records.len() ==> device_fits(#[trigger] records[i], i)
}

/// The place that answers and follows only devices that do not is the first
/// answer.
proof fn lemma_first_answer_is(records: Seq<RecordView>, query: Query, at: int)
    requires
        0 <= at <= records.len(),
        forall|i: int| 0 <= i < at ==> !answers(#[trigger] records[i], query),
        at < records.len() ==> answers(records[at], query),
    ensures
        first_answer(records, query) == at,
    decreases records.len(),
{
    if records.len() > 0 && at > 0 {
        lemma_first_answer_is(records.drop_first(), query, at - 1);
    }
}

/// Whether a device is what a query asks for.
fn is_answer(record: &DeviceRecord, query: &Query) -> (ok: bool)
    ensures
        ok == answers(record@, *query),
{
    match query {
        Query::Syspath(path) => str_eq(record.syspath.as_str(), path),
        Query::Devnum(ty, devnum) => {
            let block = match &record.subsystem {
                Some(subsystem) => str_eq(subsystem.as_str(), "block"),
                None => false,
            };
            let wants_block = match ty {
                Type::Block => true,
                Type::Char => false,
            };
            *devnum != 0 && record.devnum == *devnum && wants_block == block
        },
        Query::SubsystemSysname(subsystem, sysname) => {
            let of_subsystem = match &record.subsystem {
                Some(own) => str_eq(own.as_str(), subsystem),
                None => false,
            };
            of_subsystem && str_eq(record.sysname.as_str(), sysname)
        },
    }
}

/// One place in the table: a device and the number of handles on it.
struct Slot {
    record: DeviceRecord,
    refs: u64,
}

/// What a context knows of its devices, and how many handles are out on
/// each.
///
/// The table borrows its [`Udev`], as every [`Device`] does, so neither is
/// left once the context has ended. A device is a place in a table, and a
/// table takes a device for its own where the device names the same context
/// and a handle is counted on that place.
pub struct Table<'u> {
    udev: &'u Udev,
    devices: Vec<Slot>,
}

impl<'u> Table<'u> {
    /// The table is in order: every record fits the place it stands at.
    #[verifier::type_invariant]
    spec fn wf(&self) -> bool {
        forall|i: int| 0 <= i < self.devices.len() ==> device_fits((#[trigger] self.devices[i]).record@, i)
    }

    /// The context that the table belongs to.
    pub closed spec fn context(&self) -> &'u Udev {
        self.udev
    }

    /// The table: each device with the number of handles that are out on it.
    pub closed spec fn table(&self) -> Seq<(RecordView, nat)> {
        self.devices@.map_values(|slot: Slot| (slot.record@, slot.refs as nat))
    }

    /// What is known of each device, by handle.
    pub open spec fn records(&self) -> Seq<RecordView> {
        self.table().map_values(|entry: (RecordView, nat)| entry.0)
    }

    /// How many handles are out on each device.
    pub open spec fn refs(&self) -> Seq<nat> {
        self.table().map_values(|entry: (RecordView, nat)| entry.1)
    }

    /// Whether `device` is a live handle of this table: it names the context
    /// of the table, and at least one handle is counted on the place it
    /// names.
    pub open spec fn holds(&self, device: &Device) -> bool {
        &&& device.context() == self.context()
        &&& device.slot() < self.refs().len()
        &&& self.refs()[device.slot() as int] > 0
    }

    /// What is known of the device behind `device`.
    pub open spec fn record(&self, device: &Device) -> RecordView {
        self.records()[device.slot() as int]
    }

    /// Tells what every table is held to: each record fits the place it
    /// stands at, so the parent of a device stands before the device. This
    /// does nothing when the program runs.
    pub fn ordered(&self)
        ensures
            in_order(self.records()),
    {
        proof {
            use_type_invariant(self);
        }
    }

    /// An empty table for the handles of a context.
    pub fn new(udev: &'u Udev) -> (table: Table<'u>)
        ensures
            table.context() == udev,
            table.records() == Seq::<RecordView>::empty(),
            table.refs() == Seq::<nat>::empty(),
    {
        Table { udev, devices: Vec::new() }
    }

    /// The context that the table belongs to.
    pub fn udev(&self) -> (udev: &'u Udev)
        ensures
            udev == self.context(),
    {
        self.udev
    }

    /// Whether `device` is a live handle of this table, checked at run time.
    pub fn is_live(&self, device: &Device) -> (live: bool)
        ensures
            live == self.holds(device),
    {
        let slot = device_get_dev(device);
        device.udev().same_as(self.udev) && slot < self.devices.len() && self.devices[slot].refs > 0
    }

    /// How many handles are out on the device at `slot`, if there is such a
    /// device.
    pub fn handles_on(&self, slot: usize) -> (count: Option<u64>)
        ensures
            match count {
                Some(count) => slot < self.refs().len() && count == self.refs()[slot as int],
                None => slot >= self.refs().len(),
            },
    {
        if slot < self.devices.len() {
            Some(self.devices[slot].refs)
        } else {
            None
        }
    }

    /// Takes the table out, to be changed and put back.
    fn take(&mut self) -> (devices: Vec<Slot>)
        ensures
            devices == old(self).devices,
            final(self).udev == old(self).udev,
            final(self).devices@.len() == 0,
            forall|i: int| 0 <= i < devices.len() ==> device_fits((#[trigger] devices[i]).record@, i),
    {
        proof {
            use_type_invariant(&*self);
        }
        let mut devices: Vec<Slot> = Vec::new();
        core::mem::swap(&mut self.devices, &mut devices);
        devices
    }

    /// Puts a table back that is in order.
    fn put(&mut self, devices: Vec<Slot>)
        requires
            forall|i: int| 0 <= i < devices.len() ==> device_fits((#[trigger] devices[i]).record@, i),
        ensures
            final(self).udev == old(self).udev,
            final(self).devices == devices,
    {
        let mut devices = devices;
        core::mem::swap(&mut self.devices, &mut devices);
    }

    /// What is known of the device at `slot`.
    pub(crate) fn record_at(&self, slot: usize) -> (record: &DeviceRecord)
        requires
            slot < self.records().len(),
        ensures
            record@ == self.records()[slot as int],
            device_fits(record@, slot as int),
    {
        proof {
            use_type_invariant(self);
        }
        &self.devices[slot].record
    }

    /// Counts one more handle on the device at `slot`, unless its count
    /// stands at its limit.
    pub(crate) fn retain(&mut self, slot: usize) -> (taken: Option<Device<'u>>)
        requires
            slot < old(self).refs().len(),
        ensures
            takes(*old(self), *final(self), Some(slot as int), taken),
    {
        if self.devices[slot].refs == u64::MAX {
            return None;
        }
        let mut devices = self.take();
        devices[slot].refs = devices[slot].refs + 1;
        self.put(devices);
        assert(self.records() =~= old(self).records());
        assert(self.refs() =~= retained(old(self).refs(), slot as int));
        Some(device(self.udev, slot))
    }

    /// Counts one handle less on the device at `slot`.
    pub(crate) fn unref(&mut self, slot: usize)
        requires
            slot < old(self).refs().len(),
            old(self).refs()[slot as int] > 0,
        ensures
            final(self).context() == old(self).context(),
            final(self).records() == old(self).records(),
            final(self).refs() == released(old(self).refs(), slot as int),
    {
        let mut devices = self.take();
        devices[slot].refs = devices[slot].refs - 1;
        self.put(devices);
    }

    /// Notes that `value` was written to the attribute `attr` of the device
    /// at `slot`.
    pub(crate) fn write_value(&mut self, slot: usize, attr: &str, value: &str)
        requires
            slot < old(self).records().len(),
        ensures
            final(self).context() == old(self).context(),
            final(self).refs() == old(self).refs(),
            final(self).records() == old(self).records().update(
                slot as int,
                wrote(old(self).records()[slot as int], attr@, value@),
            ),
    {
        let mut devices = self.take();
        let count = devices[slot].record.values.len();
        let at = find(&devices[slot].record.values, attr);
        let ghost before = devices[slot as int].record@;
        proof {
            lemma_position(before.values, attr@);
        }
        let text = Reading::Text(String::from_str(value));
        if at < count {
            devices[slot].record.values[at].value = text;
        } else {
            devices[slot].record.values.push(SysAttr { name: String::from_str(attr), value: text });
        }
        assert(attrs(devices[slot as int].record.values@) =~= written(before.values, attr@, value@));
        self.put(devices);
        assert(self.records() =~= old(self).records().update(
            slot as int,
            wrote(old(self).records()[slot as int], attr@, value@),
        ));
    }

    /// Takes in what the registry knows of one more device and hands out the
    /// first handle on it.
    ///
    /// The record is refused, and nothing changes, unless it fits the table:
    /// see [`device_fits`].
    pub fn attach(&mut self, record: DeviceRecord) -> (device: Option<Device<'u>>)
        ensures
            final(self).context() == old(self).context(),
            match device {
                Some(device) => {
                    &&& device_fits(record@, old(self).records().len() as int)
                    &&& device.context() == old(self).context()
                    &&& device.slot() == old(self).records().len()
                    &&& final(self).records() == old(self).records().push(record@)
                    &&& final(self).refs() == old(self).refs().push(1)
                },
                None => {
                    &&& !device_fits(record@, old(self).records().len() as int)
                    &&& final(self).records() == old(self).records()
                    &&& final(self).refs() == old(self).refs()
                },
            },
    {
        let slot = self.devices.len();
        if !fits(&record, slot) {
            return None;
        }
        let mut devices = self.take();
        devices.push(Slot { record, refs: 1 });
        self.put(devices);
        Some(device(self.udev, slot))
    }

    /// Looks a device up and counts a handle on the first that answers.
    pub(crate) fn find(&mut self, query: Query) -> (found: Option<Device<'u>>)
        ensures
            takes(*old(self), *final(self), answer(old(self).records(), query), found),
    {
        let mut at: usize = 0;
        while at < self.devices.len()
            invariant
                *self == *old(self),
                at <= self.devices.len(),
                forall|i: int| 0 <= i < at ==> !answers(#[trigger] self.records()[i], query),
            decreases self.devices.len() - at,
        {
            if is_answer(&self.devices[at].record, &query) {
                proof {
                    lemma_first_answer_is(self.records(), query, at as int);
                }
                return self.retain(at);
            }
            at = at + 1;
        }
        proof {
            lemma_first_answer_is(self.records(), query, at as int);
        }
        None
    }
}

} // verus!
