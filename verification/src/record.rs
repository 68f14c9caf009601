//! What the registry knows of one device, as plain values.
//!
//! Whoever talks to the registry reads a device into a [`DeviceRecord`] and
//! hands the record to the context. Everything else in this crate works on
//! records and never asks where they came from.

use crate::iterator::{items, text, text_of, Item, ListEntry};
use crate::util::{enomem, str_eq, Error, ENOMEM};
use libc::c_int;
use vstd::prelude::*;
use vstd::string::*;

verus! {

/// A device number, major and minor packed as the kernel packs them.
pub type Devnum = libc::dev_t;

/// What reading an attribute gives.
#[derive(Debug, PartialEq, Eq)]
pub enum Reading {
    /// The text of the attribute.
    Text(String),
    /// The code with which the operating system refuses the read.
    Refused(c_int),
}

/// What reading an attribute gives: the text, or the code of the refusal.
pub type ReadingView = Result<Seq<char>, c_int>;

impl View for Reading {
    type V = ReadingView;

    open spec fn view(&self) -> ReadingView {
        match self {
            Reading::Text(text) => Ok(text@),
            Reading::Refused(code) => Err(*code),
        }
    }
}

/// One attribute of a device and what reading it gives.
#[derive(Debug, PartialEq, Eq)]
pub struct SysAttr {
    pub name: String,
    pub value: Reading,
}

/// The name of an attribute and what reading it gives.
pub type AttrView = (Seq<char>, ReadingView);

impl View for SysAttr {
    type V = AttrView;

    open spec fn view(&self) -> AttrView {
        (self.name@, self.value@)
    }
}

/// The attributes of a list, in order.
pub open spec fn attrs(values: Seq<SysAttr>) -> Seq<AttrView> {
    values.map_values(|attr: SysAttr| attr@)
}

/// What the registry knows of one device.
#[derive(Debug, PartialEq, Eq)]
pub struct DeviceRecord {
    /// The handle of the parent in the same table, if the device has one.
    pub parent: Option<usize>,
    /// The path of the device, with `/sys` in front.
    pub syspath: String,
    /// The path of the device below `/sys`, without `/sys`.
    pub devpath: String,
    /// The name of the device: the last part of its path.
    pub sysname: String,
    pub subsystem: Option<String>,
    pub devtype: Option<String>,
    pub driver: Option<String>,
    /// The device node, such as `/dev/sda`.
    pub devnode: Option<String>,
    /// The device number; zero where the device has none.
    pub devnum: Devnum,
    /// The symlinks that lead to the device node. Only names count.
    pub devlinks: Vec<ListEntry>,
    /// The tags of the device. Only names count.
    pub tags: Vec<ListEntry>,
    pub properties: Vec<ListEntry>,
    /// The names of the attributes of the device. Only names count.
    pub attributes: Vec<ListEntry>,
    /// What reading each attribute gives.
    pub values: Vec<SysAttr>,
    /// Microseconds since the device was set up; zero where it was not.
    pub usec_since_initialized: u64,
    /// Non-zero once the device was set up.
    pub is_initialized: c_int,
    /// What happened to the device, where it came with an event.
    pub action: Option<String>,
    /// The number of the event that the device came with.
    pub seqnum: u64,
}

/// A record as contracts speak of it: text for strings, sequences for lists.
pub struct RecordView {
    pub parent: Option<int>,
    pub syspath: Seq<char>,
    pub devpath: Seq<char>,
    pub sysname: Seq<char>,
    pub subsystem: Option<Seq<char>>,
    pub devtype: Option<Seq<char>>,
    pub driver: Option<Seq<char>>,
    pub devnode: Option<Seq<char>>,
    pub devnum: Devnum,
    pub devlinks: Seq<Item>,
    pub tags: Seq<Item>,
    pub properties: Seq<Item>,
    pub attributes: Seq<Item>,
    pub values: Seq<AttrView>,
    pub usec_since_initialized: u64,
    pub is_initialized: c_int,
    pub action: Option<Seq<char>>,
    pub seqnum: u64,
}

impl View for DeviceRecord {
    type V = RecordView;

    open spec fn view(&self) -> RecordView {
        RecordView {
            parent: match self.parent {
                Some(parent) => Some(parent as int),
                None => None,
            },
            syspath: self.syspath@,
            devpath: self.devpath@,
            sysname: self.sysname@,
            subsystem: text(self.subsystem),
            devtype: text(self.devtype),
            driver: text(self.driver),
            devnode: text(self.devnode),
            devnum: self.devnum,
            devlinks: items(self.devlinks@),
            tags: items(self.tags@),
            properties: items(self.properties@),
            attributes: items(self.attributes@),
            values: attrs(self.values@),
            usec_since_initialized: self.usec_since_initialized,
            is_initialized: self.is_initialized,
            action: text(self.action),
            seqnum: self.seqnum,
        }
    }
}

/// The record of a device of which only the paths and the name are known:
/// it has no parent, no list of it has a node, and it is not set up.
pub open spec fn bare(syspath: Seq<char>, devpath: Seq<char>, sysname: Seq<char>) -> RecordView {
    RecordView {
        parent: None,
        syspath,
        devpath,
        sysname,
        subsystem: None,
        devtype: None,
        driver: None,
        devnode: None,
        devnum: 0,
        devlinks: Seq::empty(),
        tags: Seq::empty(),
        properties: Seq::empty(),
        attributes: Seq::empty(),
        values: Seq::empty(),
        usec_since_initialized: 0,
        is_initialized: 0,
        action: None,
        seqnum: 0,
    }
}

impl DeviceRecord {
    /// A record of a device of which only the paths and the name are known.
    pub fn new(syspath: &str, devpath: &str, sysname: &str) -> (record: DeviceRecord)
        ensures
            record@ == bare(syspath@, devpath@, sysname@),
    {
        let record = DeviceRecord {
            parent: None,
            syspath: String::from_str(syspath),
            devpath: String::from_str(devpath),
            sysname: String::from_str(sysname),
            subsystem: None,
            devtype: None,
            driver: None,
            devnode: None,
            devnum: 0,
            devlinks: Vec::new(),
            tags: Vec::new(),
            properties: Vec::new(),
            attributes: Vec::new(),
            values: Vec::new(),
            usec_since_initialized: 0,
            is_initialized: 0,
            action: None,
            seqnum: 0,
        };
        assert(record@.devlinks =~= Seq::empty());
        assert(record@.tags =~= Seq::empty());
        assert(record@.properties =~= Seq::empty());
        assert(record@.attributes =~= Seq::empty());
        assert(record@.values =~= Seq::empty());
        record
    }
}

/// Whether a record can stand at `slot` of a table.
///
/// Its parent has to stand before it, so that the way up from any device
/// ends. A read that is refused has to name a code that says so: neither
/// zero, which means that nothing is wrong, nor the code for a lack of
/// memory, after which no record would have been made.
pub open spec fn device_fits(record: RecordView, slot: int) -> bool {
    &&& record.parent matches Some(parent) ==> 0 <= parent < slot
    &&& forall|i: int|
        0 <= i < record.values.len() ==> ((#[trigger] record.values[i]).1 matches Err(code) ==> code
            != 0 && code != ENOMEM)
}

/// Whether `record` can stand at `slot` of a table, checked at run time.
pub fn fits(record: &DeviceRecord, slot: usize) -> (ok: bool)
    ensures
        ok == device_fits(record@, slot as int),
{
    match record.parent {
        Some(parent) => {
            if parent >= slot {
                return false;
            }
        },
        None => {},
    }
    let oom = enomem();
    let mut i: usize = 0;
    while i < record.values.len()
        invariant
            i <= record.values.len(),
            oom == ENOMEM,
            forall|k: int|
                0 <= k < i ==> ((#[trigger] record@.values[k]).1 matches Err(code) ==> code != 0 && code
                    != ENOMEM),
        decreases record.values.len() - i,
    {
        match &record.values[i].value {
            Reading::Refused(code) => {
                if *code == 0 || *code == oom {
                    assert(record@.values[i as int].1 == Err::<Seq<char>, c_int>(*code));
                    return false;
                }
            },
            Reading::Text(_) => {},
        }
        i = i + 1;
    }
    true
}

/// Whether a device is of the given subsystem and, where one is asked for,
/// of the given devtype.
pub open spec fn is_of(record: RecordView, subsystem: Seq<char>, devtype: Option<Seq<char>>) -> bool {
    &&& record.subsystem == Some(subsystem)
    &&& devtype is Some ==> record.devtype == devtype
}

/// Whether a record is of the given subsystem and devtype.
pub(crate) fn matches_filter(record: &DeviceRecord, subsystem: &str, devtype: Option<&str>) -> (ok: bool)
    ensures
        ok == is_of(record@, subsystem@, text_of(devtype)),
{
    let of_subsystem = match &record.subsystem {
        Some(own) => str_eq(own.as_str(), subsystem),
        None => false,
    };
    if !of_subsystem {
        return false;
    }
    match devtype {
        None => true,
        Some(devtype) => match &record.devtype {
            Some(own) => str_eq(own.as_str(), devtype),
            None => false,
        },
    }
}

/// The nearest device above the one at `slot` that is of the given subsystem
/// and devtype: its parent if that one is, else the nearest above its parent.
pub open spec fn ancestor_of(
    records: Seq<RecordView>,
    slot: int,
    subsystem: Seq<char>,
    devtype: Option<Seq<char>>,
) -> Option<int>
    decreases slot,
{
    if 0 <= slot < records.len() && records[slot].parent is Some && 0 <= records[slot].parent->0 < slot {
        let parent = records[slot].parent->0;
        if is_of(records[parent], subsystem, devtype) {
            Some(parent)
        } else {
            ancestor_of(records, parent, subsystem, devtype)
        }
    } else {
        None
    }
}

/// The device that a walk up settles on stands in the table, above the
/// device that the walk began at, and is of the subsystem and devtype that
/// were asked for.
pub proof fn lemma_ancestor(
    records: Seq<RecordView>,
    slot: int,
    subsystem: Seq<char>,
    devtype: Option<Seq<char>>,
)
    ensures
        ancestor_of(records, slot, subsystem, devtype) matches Some(found) ==> 0 <= found < slot
            < records.len() && is_of(records[found], subsystem, devtype),
    decreases slot,
{
    if 0 <= slot < records.len() && records[slot].parent is Some && 0 <= records[slot].parent->0 < slot {
        let parent = records[slot].parent->0;
        if !is_of(records[parent], subsystem, devtype) {
            lemma_ancestor(records, parent, subsystem, devtype);
        }
    }
}

/// Whether a list has a node of the given name.
pub open spec fn has_name(list: Seq<Item>, name: Seq<char>) -> bool {
    exists|i: int| 0 <= i < list.len() && (#[trigger] list[i]).0 == name
}

/// Looks for a node of the given name.
pub(crate) fn has_entry(list: &Vec<ListEntry>, name: &str) -> (found: bool)
    ensures
        found == has_name(items(list@), name@),
{
    let mut i: usize = 0;
    while i < list.len()
        invariant
            i <= list.len(),
            forall|k: int| 0 <= k < i ==> (#[trigger] items(list@)[k]).0 != name@,
        decreases list.len() - i,
    {
        if str_eq(list[i].name.as_str(), name) {
            assert(items(list@)[i as int].0 == name@);
            return true;
        }
        i = i + 1;
    }
    false
}

/// Where the first attribute of the given name stands: the length of the
/// list where there is none.
pub open spec fn position(values: Seq<AttrView>, name: Seq<char>) -> int
    decreases values.len(),
{
    if values.len() == 0 {
        0
    } else if values[0].0 == name {
        0
    } else {
        1 + position(values.drop_first(), name)
    }
}

/// The first attribute of the given name stands where none before it has
/// the name and it has, or where the list ends.
pub proof fn lemma_position(values: Seq<AttrView>, name: Seq<char>)
    ensures
        0 <= position(values, name) <= values.len(),
        forall|i: int| 0 <= i < position(values, name) ==> (#[trigger] values[i]).0 != name,
        position(values, name) < values.len() ==> values[position(values, name)].0 == name,
    decreases values.len(),
{
    if values.len() > 0 && values[0].0 != name {
        let rest = values.drop_first();
        lemma_position(rest, name);
        assert forall|i: int| 0 <= i < position(values, name) implies (#[trigger] values[i]).0
            != name by {
            if i > 0 {
                assert(rest[i - 1] == values[i]);
            }
        }
    }
}

/// The place that has the name and follows only attributes that lack it is
/// the position of the name.
pub proof fn lemma_position_is(values: Seq<AttrView>, name: Seq<char>, at: int)
    requires
        0 <= at <= values.len(),
        forall|i: int| 0 <= i < at ==> (#[trigger] values[i]).0 != name,
        at < values.len() ==> values[at].0 == name,
    ensures
        position(values, name) == at,
    decreases values.len(),
{
    if values.len() > 0 && at > 0 {
        lemma_position_is(values.drop_first(), name, at - 1);
    }
}

/// Looks for the first attribute of the given name.
pub(crate) fn find(values: &Vec<SysAttr>, name: &str) -> (at: usize)
    ensures
        at == position(attrs(values@), name@),
        at <= values.len(),
{
    let mut at: usize = 0;
    while at < values.len()
        invariant
            at <= values.len(),
            forall|i: int| 0 <= i < at ==> (#[trigger] attrs(values@)[i]).0 != name@,
        decreases values.len() - at,
    {
        if str_eq(values[at].name.as_str(), name) {
            proof {
                lemma_position_is(attrs(values@), name@, at as int);
            }
            return at;
        }
        at = at + 1;
    }
    proof {
        lemma_position_is(attrs(values@), name@, at as int);
    }
    at
}

/// What reading the attribute `name` gives: what the first attribute of
/// that name says, if there is one.
pub open spec fn reading(values: Seq<AttrView>, name: Seq<char>) -> Option<ReadingView> {
    if position(values, name) < values.len() {
        Some(values[position(values, name)].1)
    } else {
        None
    }
}

/// What a caller gets of a read: the text, or why there is none.
pub open spec fn read_outcome(values: Seq<AttrView>, name: Seq<char>) -> Result<Seq<char>, Error> {
    match reading(values, name) {
        None => Err(Error::NotFound),
        Some(Ok(text)) => Ok(text),
        Some(Err(code)) => Err(Error::SystemError(code)),
    }
}

/// The attributes after `value` was written to the attribute `name`: the
/// first attribute of that name now reads as that text, or, where there was
/// none, a new attribute at the end does. Nothing else changes.
pub open spec fn written(values: Seq<AttrView>, name: Seq<char>, value: Seq<char>) -> Seq<AttrView> {
    if position(values, name) < values.len() {
        values.update(position(values, name), (name, Ok(value)))
    } else {
        values.push((name, Ok(value)))
    }
}

/// The record after `value` was written to its attribute `attr`: the
/// attributes are those that the write leaves, and nothing else has changed.
pub open spec fn wrote(record: RecordView, attr: Seq<char>, value: Seq<char>) -> RecordView {
    RecordView { values: written(record.values, attr, value), ..record }
}

/// A value that was written is the value that is read, and reading any other
/// attribute gives what it gave before.
pub proof fn lemma_read_after_write(
    values: Seq<AttrView>,
    name: Seq<char>,
    value: Seq<char>,
    other: Seq<char>,
)
    ensures
        read_outcome(written(values, name, value), name) == Ok::<Seq<char>, Error>(value),
        other != name ==> read_outcome(written(values, name, value), other) == read_outcome(
            values,
            other,
        ),
{
    let after = written(values, name, value);
    lemma_position(values, name);
    lemma_position_is(after, name, position(values, name));
    if other != name {
        lemma_position(values, other);
        let there = position(values, other);
        if there < values.len() {
            lemma_position_is(after, other, there);
        } else {
            lemma_position_is(after, other, after.len() as int);
        }
    }
}

} // verus!
