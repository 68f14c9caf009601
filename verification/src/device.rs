//! Devices: the handle by which one is read.

use crate::iterator::{as_text, iterator, step, text_of, Item, UdevIterator};
use crate::record::{
    ancestor_of, find, has_entry, has_name, matches_filter, read_outcome, wrote, Devnum, Reading,
};
use crate::sysnum::{parse_sysnum, sysnum_of};
use crate::table::{released, takes, Table};
use crate::udev::Udev;
use crate::util::{check_errno, Error, Fatal};
use libc::c_int;
use std::path::PathBuf;
use time::Duration;
use vstd::prelude::*;

verus! {

/// The two kinds of device node.
#[derive(Clone, Copy, Debug, PartialEq, Eq, Structural)]
pub enum Type {
    Char,
    Block,
}

/// A counted handle on one device of a context.
///
/// The handle borrows its [`Udev`], so it is not left once the context has
/// ended, and it names the place of the device in a table of that context.
/// It is neither `Clone` nor `Copy`: each handle stands for one count, taken
/// when the handle was made and given back by [`Device::release`].
#[must_use]
#[derive(Debug, PartialEq, Eq)]
pub struct Device<'u> {
    udev: &'u Udev,
    dev: usize,
}

/// Wraps a raw handle, with the reference that the caller holds on it.
///
/// The handle borrows the context, so it cannot outlive it. No count moves:
/// the reference that the handle stands for is the one that is handed over.
pub fn device<'u>(udev: &'u Udev, dev: usize) -> (device: Device<'u>)
    ensures
        device.context() == udev,
        device.slot() == dev,
{
    Device { udev, dev }
}

/// The raw handle inside `device`.
pub fn device_get_dev(device: &Device) -> (dev: usize)
    ensures
        dev == device.slot(),
{
    device.dev
}

/// What the status of a write stands for: zero is success, the negation of
/// a code is that code, and anything else is no answer that the registry can
/// give.
pub open spec fn write_outcome(status: c_int) -> Result<(), Error> {
    if status == 0 {
        Ok(())
    } else if c_int::MIN < status < 0 {
        Err(Error::SystemError((-status) as c_int))
    } else {
        Err(Error::Fatal(Fatal::Bug))
    }
}

/// `std::path::PathBuf`, carried through as it is: nothing here looks into
/// a path.
#[verifier::external_type_specification]
#[verifier::external_body]
pub struct ExPathBuf(PathBuf);

/// The path that `std::path::PathBuf::from` makes of a text.
pub uninterp spec fn path_of(text: Seq<char>) -> PathBuf;

/// `std::path::PathBuf::from`, on a string slice: an owned path that holds
/// the same text.
#[verifier::external_body]
fn path_buf_from(text: &str) -> (path: PathBuf)
    ensures
        path == path_of(text@),
{
    PathBuf::from(text)
}

/// `time::Duration`, carried through as it is: nothing here looks into a
/// duration.
#[verifier::external_type_specification]
#[verifier::external_body]
pub struct ExDuration(Duration);

/// The duration that `time::Duration::microseconds` makes of a count.
pub uninterp spec fn microseconds(count: i64) -> Duration;

/// `time::Duration::microseconds`: the duration of that many microseconds.
/// It takes every count, negative ones too.
#[verifier::external_body]
fn duration_microseconds(count: i64) -> (duration: Duration)
    ensures
        duration == microseconds(count),
{
    Duration::microseconds(count)
}

/// A counter of sixty-four bits read as a signed number: the upper half of
/// its range wraps round to the negative numbers.
pub open spec fn as_signed(count: u64) -> i64 {
    if count <= i64::MAX as u64 {
        count as i64
    } else {
        (count - 0x1_0000_0000_0000_0000) as i64
    }
}

/// A pass over the names of one list of a device: its tags, or the names
/// of its attributes.
pub struct NameIterator<'p> {
    inner: UdevIterator<'p, Device<'p>>,
}

/// A pass over the tags of a device.
pub type TagIterator<'p> = NameIterator<'p>;

/// A pass over the names of the attributes of a device.
pub type AttributeIterator<'p> = NameIterator<'p>;

impl<'p> NameIterator<'p> {
    /// The items that have not been handed out yet, in order.
    pub closed spec fn remaining(&self) -> Seq<Item> {
        self.inner.remaining()
    }

    /// Hands out the next name, or nothing once the list is exhausted.
    pub fn next(&mut self) -> (name: Option<&'p str>)
        ensures
            final(self).remaining() == step(old(self).remaining()).1,
            match name {
                Some(name) => step(old(self).remaining()).0 matches Some(item) && item.0 == name@,
                None => step(old(self).remaining()).0 is None,
            },
    {
        match self.inner.next() {
            Some((_, name, _)) => Some(name),
            None => None,
        }
    }
}

/// A pass over the properties of a device: each name with its value.
pub struct PropertyIterator<'p> {
    inner: UdevIterator<'p, Device<'p>>,
}

impl<'p> PropertyIterator<'p> {
    /// The items that have not been handed out yet, in order.
    pub closed spec fn remaining(&self) -> Seq<Item> {
        self.inner.remaining()
    }

    /// Hands out the next property, or nothing once the list is exhausted.
    pub fn next(&mut self) -> (property: Option<(&'p str, Option<&'p str>)>)
        ensures
            final(self).remaining() == step(old(self).remaining()).1,
            match property {
                Some((name, value)) => step(old(self).remaining()).0 == Some(
                    (name@, text_of(value)),
                ),
                None => step(old(self).remaining()).0 is None,
            },
    {
        match self.inner.next() {
            Some((_, name, value)) => Some((name, value)),
            None => None,
        }
    }
}

/// A pass over the symlinks that lead to the node of a device, as paths.
pub struct DevlinkIterator<'p> {
    inner: UdevIterator<'p, Device<'p>>,
}

impl<'p> DevlinkIterator<'p> {
    /// The items that have not been handed out yet, in order.
    pub closed spec fn remaining(&self) -> Seq<Item> {
        self.inner.remaining()
    }

    /// Hands out the next symlink, or nothing once the list is exhausted.
    pub fn next(&mut self) -> (link: Option<PathBuf>)
        ensures
            final(self).remaining() == step(old(self).remaining()).1,
            match link {
                Some(link) => step(old(self).remaining()).0 matches Some(item) && link == path_of(
                    item.0,
                ),
                None => step(old(self).remaining()).0 is None,
            },
    {
        match self.inner.next() {
            Some((_, name, _)) => Some(path_buf_from(name)),
            None => None,
        }
    }
}

/// The path of a text that may be absent.
pub open spec fn path_of_text(value: Option<Seq<char>>) -> Option<PathBuf> {
    match value {
        Some(value) => Some(path_of(value)),
        None => None,
    }
}

impl<'u> Device<'u> {
    /// The context that the device belongs to.
    pub closed spec fn context(&self) -> &'u Udev {
        self.udev
    }

    /// The place of the device in the table of its context.
    pub closed spec fn slot(&self) -> usize {
        self.dev
    }

    /// The context that the device belongs to.
    pub fn udev(&self) -> (context: &'u Udev)
        ensures
            context == self.context(),
    {
        self.udev
    }

    /// Gives the handle back: the device counts one handle less.
    ///
    /// This is the only way a handle ends. One that is dropped instead keeps
    /// its count for as long as the context lives.
    pub fn release(self, table: &mut Table<'u>)
        requires
            old(table).holds(&self),
        ensures
            final(table).context() == old(table).context(),
            final(table).records() == old(table).records(),
            final(table).refs() == released(old(table).refs(), self.slot() as int),
    {
        table.unref(self.dev);
    }

    /// A handle on the parent of the device, if it has one.
    ///
    /// The parent is looked up anew on every call, and every handle that
    /// comes back is counted for itself. Whatever keeps a handle from being
    /// handed out, the answer is "none": that there is no parent, or that no
    /// more handles can be counted on it.
    pub fn parent(&self, table: &mut Table<'u>) -> (parent: Option<Device<'u>>)
        requires
            old(table).holds(self),
        ensures
            takes(*old(table), *final(table), old(table).record(self).parent, parent),
    {
        match table.record_at(self.dev).parent {
            Some(parent) => table.retain(parent),
            None => None,
        }
    }

    /// Walks up from the device to the nearest one of the given subsystem
    /// and devtype, and counts a handle on it.
    fn ancestor(&self, table: &mut Table<'u>, subsystem: &str, devtype: Option<&str>) -> (found: Option<Device<'u>>)
        requires
            old(table).holds(self),
        ensures
            takes(
                *old(table),
                *final(table),
                ancestor_of(old(table).records(), self.slot() as int, subsystem@, text_of(devtype)),
                found,
            ),
    {
        let mut at = self.dev;
        loop
            invariant
                *table == *old(table),
                at < table.records().len(),
                ancestor_of(table.records(), at as int, subsystem@, text_of(devtype)) == ancestor_of(
                    table.records(),
                    self.slot() as int,
                    subsystem@,
                    text_of(devtype),
                ),
            decreases at,
        {
            match table.record_at(at).parent {
                None => {
                    return None;
                },
                Some(parent) => {
                    if matches_filter(table.record_at(parent), subsystem, devtype) {
                        return table.retain(parent);
                    }
                    at = parent;
                },
            }
        }
    }

    /// A handle on the nearest device above this one that is of the given
    /// subsystem.
    ///
    /// Whatever keeps a handle from being handed out, the answer is "none":
    /// that there is no such device, or that no more handles can be counted
    /// on it.
    pub fn parent_with_subsystem(&self, table: &mut Table<'u>, subsystem: &str) -> (parent: Option<Device<'u>>)
        requires
            old(table).holds(self),
        ensures
            takes(
                *old(table),
                *final(table),
                ancestor_of(old(table).records(), self.slot() as int, subsystem@, None),
                parent,
            ),
    {
        self.ancestor(table, subsystem, None)
    }

    /// A handle on the nearest device above this one that is of the given
    /// subsystem and devtype.
    ///
    /// Whatever keeps a handle from being handed out, the answer is "none":
    /// that there is no such device, or that no more handles can be counted
    /// on it.
    pub fn parent_with_subsystem_devtype(
        &self,
        table: &mut Table<'u>,
        subsystem: &str,
        devtype: &str,
    ) -> (parent: Option<Device<'u>>)
        requires
            old(table).holds(self),
        ensures
            takes(
                *old(table),
                *final(table),
                ancestor_of(old(table).records(), self.slot() as int, subsystem@, Some(devtype@)),
                parent,
            ),
    {
        self.ancestor(table, subsystem, Some(devtype))
    }

    /// Reads one attribute of the device.
    ///
    /// The read fails with [`Error::NotFound`] where the device has no such
    /// attribute, and with [`Error::SystemError`] where the operating system
    /// refuses it. It never fails fatally.
    pub fn attribute<'a>(&self, table: &'a Table<'u>, attr: &str) -> (value: Result<&'a str, Error>)
        requires
            table.holds(self),
        ensures
            match value {
                Ok(text) => read_outcome(table.record(self).values, attr@) == Ok::<Seq<char>, Error>(
                    text@,
                ),
                Err(error) => read_outcome(table.record(self).values, attr@) == Err::<Seq<char>, Error>(
                    error,
                ),
            },
    {
        let values = &table.record_at(self.dev).values;
        let at = find(values, attr);
        let (found, errno): (Option<&'a str>, c_int) = if at < values.len() {
            match &values[at].value {
                Reading::Text(text) => (Some(text.as_str()), 0),
                Reading::Refused(code) => (None, *code),
            }
        } else {
            (None, 0)
        };
        match check_errno(found, errno) {
            Ok(Some(text)) => Ok(text),
            Ok(None) => Err(Error::NotFound),
            Err(error) => Err(error),
        }
    }

    /// Notes the outcome of writing `value` to the attribute `attr`.
    ///
    /// The write itself is the caller's; `status` is what it returned. Where
    /// that is zero the device reads the new value from now on. A negative
    /// status is the negation of the code with which the operating system
    /// refused. No other status can come of a write.
    pub fn set_attribute(
        &self,
        table: &mut Table<'u>,
        attr: &str,
        value: &str,
        status: c_int,
    ) -> (outcome: Result<(), Error>)
        requires
            old(table).holds(self),
        ensures
            outcome == write_outcome(status),
            final(table).context() == old(table).context(),
            final(table).refs() == old(table).refs(),
            final(table).records() == if outcome is Ok {
                old(table).records().update(self.slot() as int, wrote(old(table).record(self), attr@, value@))
            } else {
                old(table).records()
            },
    {
        if status == 0 {
            table.write_value(self.dev, attr, value);
            Ok(())
        } else if status < 0 && status > c_int::MIN {
            Err(Error::SystemError(-status))
        } else {
            Err(Error::Fatal(Fatal::Bug))
        }
    }

    /// Whether the device carries the tag.
    pub fn has_tag(&self, table: &Table<'u>, tag: &str) -> (tagged: bool)
        requires
            table.holds(self),
        ensures
            tagged == has_name(table.record(self).tags, tag@),
    {
        has_entry(&table.record_at(self.dev).tags, tag)
    }

    /// The path of the device below `/sys`, without `/sys`.
    pub fn devpath<'a>(&self, table: &'a Table<'u>) -> (path: &'a str)
        requires
            table.holds(self),
        ensures
            path@ == table.record(self).devpath,
    {
        table.record_at(self.dev).devpath.as_str()
    }

    /// The path of the device, with `/sys` in front.
    pub fn syspath(&self, table: &Table<'u>) -> (path: PathBuf)
        requires
            table.holds(self),
        ensures
            path == path_of(table.record(self).syspath),
    {
        path_buf_from(table.record_at(self.dev).syspath.as_str())
    }

    /// The name of the device, such as `wlan0`.
    pub fn sysname<'a>(&self, table: &'a Table<'u>) -> (name: &'a str)
        requires
            table.holds(self),
        ensures
            name@ == table.record(self).sysname,
    {
        table.record_at(self.dev).sysname.as_str()
    }

    /// The subsystem of the device, if it is in one.
    pub fn subsystem<'a>(&self, table: &'a Table<'u>) -> (subsystem: Option<&'a str>)
        requires
            table.holds(self),
        ensures
            text_of(subsystem) == table.record(self).subsystem,
    {
        as_text(&table.record_at(self.dev).subsystem)
    }

    /// The devtype of the device, if it has one.
    pub fn devtype<'a>(&self, table: &'a Table<'u>) -> (devtype: Option<&'a str>)
        requires
            table.holds(self),
        ensures
            text_of(devtype) == table.record(self).devtype,
    {
        as_text(&table.record_at(self.dev).devtype)
    }

    /// The number that closes the name of the device, if there is one.
    pub fn sysnum(&self, table: &Table<'u>) -> (number: Option<u64>)
        requires
            table.holds(self),
        ensures
            number == sysnum_of(table.record(self).sysname),
    {
        parse_sysnum(table.record_at(self.dev).sysname.as_str())
    }

    /// The device number, unless the device has none.
    pub fn devnum(&self, table: &Table<'u>) -> (devnum: Option<Devnum>)
        requires
            table.holds(self),
        ensures
            devnum == if table.record(self).devnum == 0 {
                None
            } else {
                Some(table.record(self).devnum)
            },
    {
        let n = table.record_at(self.dev).devnum;
        if n == 0 {
            None
        } else {
            Some(n)
        }
    }

    /// The driver of the device, if one is bound to it.
    pub fn driver<'a>(&self, table: &'a Table<'u>) -> (driver: Option<&'a str>)
        requires
            table.holds(self),
        ensures
            text_of(driver) == table.record(self).driver,
    {
        as_text(&table.record_at(self.dev).driver)
    }

    /// The device node, such as `/dev/sda`, if the device has one.
    pub fn devnode(&self, table: &Table<'u>) -> (devnode: Option<PathBuf>)
        requires
            table.holds(self),
        ensures
            devnode == path_of_text(table.record(self).devnode),
    {
        match as_text(&table.record_at(self.dev).devnode) {
            Some(path) => Some(path_buf_from(path)),
            None => None,
        }
    }

    /// A fresh pass over the symlinks that lead to the node of the device.
    pub fn iter_devlinks<'a>(&'a self, table: &'a Table<'u>) -> (links: DevlinkIterator<'a>)
        requires
            table.holds(self),
        ensures
            links.remaining() == table.record(self).devlinks,
    {
        DevlinkIterator { inner: iterator(self, table.record_at(self.dev).devlinks.as_slice()) }
    }

    /// A fresh pass over the tags of the device.
    pub fn iter_tags<'a>(&'a self, table: &'a Table<'u>) -> (tags: TagIterator<'a>)
        requires
            table.holds(self),
        ensures
            tags.remaining() == table.record(self).tags,
    {
        NameIterator { inner: iterator(self, table.record_at(self.dev).tags.as_slice()) }
    }

    /// A fresh pass over the properties of the device.
    pub fn iter_properties<'a>(&'a self, table: &'a Table<'u>) -> (properties: PropertyIterator<'a>)
        requires
            table.holds(self),
        ensures
            properties.remaining() == table.record(self).properties,
    {
        PropertyIterator { inner: iterator(self, table.record_at(self.dev).properties.as_slice()) }
    }

    /// A fresh pass over the names of the attributes of the device.
    pub fn iter_attributes<'a>(&'a self, table: &'a Table<'u>) -> (attributes: AttributeIterator<'a>)
        requires
            table.holds(self),
        ensures
            attributes.remaining() == table.record(self).attributes,
    {
        NameIterator { inner: iterator(self, table.record_at(self.dev).attributes.as_slice()) }
    }

    /// How long ago the device was set up, unless it was not.
    ///
    /// The registry counts microseconds in sixty-four bits without a sign. A
    /// count in the upper half of that range comes out negative.
    pub fn time_since_initialized(&self, table: &Table<'u>) -> (elapsed: Option<Duration>)
        requires
            table.holds(self),
        ensures
            elapsed == if table.record(self).usec_since_initialized == 0 {
                None
            } else {
                Some(microseconds(as_signed(table.record(self).usec_since_initialized)))
            },
    {
        let usec = table.record_at(self.dev).usec_since_initialized;
        if usec == 0 {
            None
        } else {
            assert(usec as i64 == as_signed(usec)) by (bit_vector);
            Some(duration_microseconds(usec as i64))
        }
    }

    /// Whether the device has been set up.
    pub fn is_initialized(&self, table: &Table<'u>) -> (initialized: bool)
        requires
            table.holds(self),
        ensures
            initialized == (table.record(self).is_initialized != 0),
    {
        table.record_at(self.dev).is_initialized != 0
    }
}

impl Type {
    /// The letter by which the registry knows the kind: `c` or `b`.
    pub fn to_char(self) -> (letter: i8)
        ensures
            letter as int == match self {
                Type::Char => 'c' as int,
                Type::Block => 'b' as int,
            },
    {
        match self {
            Type::Char => 'c' as i8,
            Type::Block => 'b' as i8,
        }
    }
}

} // verus!
