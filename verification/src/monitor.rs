//! Monitors: subscriptions to what happens to devices.
//!
//! A monitor is configured first and read afterwards, and there is no way
//! back. The two phases are two types. [`Monitor`] takes filters;
//! [`Monitor::iter`] consumes it and gives a [`MonitorIterator`], which hands
//! out events and has no operation that touches a filter.

use crate::device::Device;
use crate::iterator::{as_text, items, text_of, Item, ListEntry};
use crate::table::Table;
use crate::udev::Udev;
use crate::util::{
    collapse, handle_error, status_outcome, str_eq, Error, Fatal, EINVAL, ENOMEM,
};
use libc::c_int;
use std::str::FromStr;
use vstd::prelude::*;
use vstd::string::*;

verus! {

/// What happened to a device.
#[derive(Debug, PartialEq, Eq)]
pub enum Action {
    Add,
    Remove,
    Change,
    Move,
    Online,
    Offline,
    /// An action this crate has no name for, as the registry spelled it.
    Other(String),
}

/// An action, with text for what it holds.
pub enum ActionView {
    Add,
    Remove,
    Change,
    Move,
    Online,
    Offline,
    Other(Seq<char>),
}

impl View for Action {
    type V = ActionView;

    open spec fn view(&self) -> ActionView {
        match self {
            Action::Add => ActionView::Add,
            Action::Remove => ActionView::Remove,
            Action::Change => ActionView::Change,
            Action::Move => ActionView::Move,
            Action::Online => ActionView::Online,
            Action::Offline => ActionView::Offline,
            Action::Other(name) => ActionView::Other(name@),
        }
    }
}

/// The action that the registry spells as `name`: one of the six it is known
/// to send, or the name itself, kept as it came.
pub open spec fn action_of(name: Seq<char>) -> ActionView {
    if name == "add"@ {
        ActionView::Add
    } else if name == "remove"@ {
        ActionView::Remove
    } else if name == "change"@ {
        ActionView::Change
    } else if name == "move"@ {
        ActionView::Move
    } else if name == "online"@ {
        ActionView::Online
    } else if name == "offline"@ {
        ActionView::Offline
    } else {
        ActionView::Other(name)
    }
}

impl FromStr for Action {
    type Err = Error;

    /// Reads an action as the registry spells it. Every text is an action,
    /// so this never fails.
    fn from_str(s: &str) -> (action: Result<Action, Error>)
        ensures
            action matches Ok(action) && action@ == action_of(s@),
    {
        if str_eq(s, "add") {
            Ok(Action::Add)
        } else if str_eq(s, "remove") {
            Ok(Action::Remove)
        } else if str_eq(s, "change") {
            Ok(Action::Change)
        } else if str_eq(s, "move") {
            Ok(Action::Move)
        } else if str_eq(s, "online") {
            Ok(Action::Online)
        } else if str_eq(s, "offline") {
            Ok(Action::Offline)
        } else {
            Ok(Action::Other(s.to_owned()))
        }
    }
}

/// One change to the tree of devices.
#[derive(Debug, PartialEq, Eq)]
pub struct Event {
    pub action: Action,
    /// The number of the event. The kernel counts events up, so a gap
    /// between two numbers tells of events that were lost.
    pub seqnum: u64,
}

/// The two streams of events.
#[derive(Clone, Copy, Debug, PartialEq, Eq, Structural)]
pub enum Channel {
    /// Events as the device manager sends them out, once it has dealt with
    /// them itself.
    Udev,
    /// Events as they come from the kernel. A device may not be usable yet
    /// when its event comes this way.
    Kernel,
}

/// The name by which the registry knows a stream.
pub open spec fn channel_name(channel: Channel) -> Seq<char> {
    match channel {
        Channel::Udev => "udev"@,
        Channel::Kernel => "kernel"@,
    }
}

impl Channel {
    /// The name by which the registry knows the stream.
    pub fn name(&self) -> (name: &'static str)
        ensures
            name@ == channel_name(*self),
    {
        match self {
            Channel::Udev => "udev",
            Channel::Kernel => "kernel",
        }
    }
}

/// How far the making of a monitor has come. Each state names the call that
/// is due next; its outcome takes the making one step on.
#[derive(Clone, Copy, Debug, PartialEq, Eq, Structural)]
pub enum Setup {
    /// Due: open the stream, by its name.
    Opening(Channel),
    /// Due: read the status flags of the descriptor of this subscription.
    ReadingFlags(usize),
    /// Due: write these status flags to the descriptor of this subscription.
    WritingFlags(usize, c_int),
}

/// What came of the call that was due.
#[derive(Clone, Copy, Debug, PartialEq, Eq, Structural)]
pub enum Reply {
    /// The stream was asked for: the raw handle of the subscription, if one
    /// came back, and the error indicator read after the call.
    Opened(Option<usize>, c_int),
    /// The flags were read or written: what the call returned, and the
    /// error indicator read after it.
    Flags(c_int, c_int),
}

/// Where the making of a monitor stands after a step.
#[derive(Debug, PartialEq, Eq)]
pub enum Progress<'u> {
    /// Another call is due.
    Pending(Setup),
    /// The monitor is made.
    Ready(Monitor<'u>),
}

/// What a failed call on the descriptor comes to. The descriptor and the
/// flags are the registry's own, so a complaint about either is a fault of
/// this side, and so is a lack of memory in a call that needs none.
pub open spec fn flags_failure(errno: c_int) -> Error {
    if errno == ENOMEM || errno == EINVAL {
        Error::Fatal(Fatal::Bug)
    } else {
        Error::SystemError(errno)
    }
}

/// A subscription that is still being configured.
///
/// The monitor keeps the filters that the registry has taken. The registry
/// adds filters of one kind up: it lets a device pass the subsystem filters
/// if the device matches any of them, and likewise the tag filters. With no
/// filter of a kind, every device passes that kind.
#[derive(Debug, PartialEq, Eq)]
pub struct Monitor<'u> {
    udev: &'u Udev,
    monitor: usize,
    subsystems: Vec<ListEntry>,
    tags: Vec<ListEntry>,
}

/// Wraps the raw handle of a subscription that has no filter yet.
pub fn monitor<'u>(udev: &'u Udev, handle: usize) -> (fresh: Monitor<'u>)
    ensures
        fresh.context() == udev,
        fresh.handle() == handle,
        fresh.subsystems() == Seq::<Item>::empty(),
        fresh.tags() == Seq::<Item>::empty(),
{
    Monitor { udev, monitor: handle, subsystems: Vec::new(), tags: Vec::new() }
}

impl<'u> Monitor<'u> {
    /// The context that the subscription belongs to.
    pub closed spec fn context(&self) -> &'u Udev {
        self.udev
    }

    /// The raw handle of the subscription.
    pub closed spec fn handle(&self) -> usize {
        self.monitor
    }

    /// The context that the subscription belongs to.
    pub fn udev(&self) -> (context: &'u Udev)
        ensures
            context == self.context(),
    {
        self.udev
    }

    /// The subsystem filters in the order they were added: each a subsystem
    /// and, where one was given, a devtype.
    pub closed spec fn subsystems(&self) -> Seq<Item> {
        items(self.subsystems@)
    }

    /// The tag filters in the order they were added. Only names count.
    pub closed spec fn tags(&self) -> Seq<Item> {
        items(self.tags@)
    }

    /// The raw handle of the subscription.
    pub fn raw(&self) -> (handle: usize)
        ensures
            handle == self.handle(),
    {
        self.monitor
    }

    /// The subsystem filters in the order they were added.
    pub fn subsystem_filters(&self) -> (filters: &Vec<ListEntry>)
        ensures
            items(filters@) == self.subsystems(),
    {
        &self.subsystems
    }

    /// The tag filters in the order they were added.
    pub fn tag_filters(&self) -> (filters: &Vec<ListEntry>)
        ensures
            items(filters@) == self.tags(),
    {
        &self.tags
    }

    /// Adds a filter and keeps everything else.
    fn with_subsystem(self, subsystem: &str, devtype: Option<&str>) -> (next: Monitor<'u>)
        ensures
            next.context() == self.context(),
            next.handle() == self.handle(),
            next.subsystems() == self.subsystems().push((subsystem@, text_of(devtype))),
            next.tags() == self.tags(),
    {
        let mut next = self;
        let value = match devtype {
            Some(devtype) => Some(devtype.to_owned()),
            None => None,
        };
        next.subsystems.push(ListEntry { name: subsystem.to_owned(), value });
        next
    }

    /// Lets devices of the given subsystem pass.
    ///
    /// `status` is what the registry answered when it was handed the filter.
    /// Anything but zero is fatal, and the monitor is gone.
    pub fn filter_by_subsystem(self, subsystem: &str, status: c_int) -> (next: Result<Monitor<'u>, Error>)
        ensures
            match next {
                Ok(next) => {
                    &&& status_outcome(status) is Ok
                    &&& next.context() == self.context()
                    &&& next.handle() == self.handle()
                    &&& next.subsystems() == self.subsystems().push((subsystem@, None))
                    &&& next.tags() == self.tags()
                },
                Err(error) => status_outcome(status) == Err::<(), Error>(error),
            },
    {
        match handle_error(status) {
            Ok(()) => Ok(self.with_subsystem(subsystem, None)),
            Err(error) => Err(error),
        }
    }

    /// Lets devices of the given subsystem and devtype pass.
    ///
    /// `status` is what the registry answered when it was handed the filter.
    /// Anything but zero is fatal, and the monitor is gone.
    pub fn filter_by_subsystem_devtype(
        self,
        subsystem: &str,
        devtype: &str,
        status: c_int,
    ) -> (next: Result<Monitor<'u>, Error>)
        ensures
            match next {
                Ok(next) => {
                    &&& status_outcome(status) is Ok
                    &&& next.context() == self.context()
                    &&& next.handle() == self.handle()
                    &&& next.subsystems() == self.subsystems().push((subsystem@, Some(devtype@)))
                    &&& next.tags() == self.tags()
                },
                Err(error) => status_outcome(status) == Err::<(), Error>(error),
            },
    {
        match handle_error(status) {
            Ok(()) => Ok(self.with_subsystem(subsystem, Some(devtype))),
            Err(error) => Err(error),
        }
    }

    /// Lets devices that carry the given tag pass.
    ///
    /// `status` is what the registry answered when it was handed the filter.
    /// Anything but zero is fatal, and the monitor is gone.
    pub fn filter_by_tag(self, tag: &str, status: c_int) -> (next: Result<Monitor<'u>, Error>)
        ensures
            match next {
                Ok(next) => {
                    &&& status_outcome(status) is Ok
                    &&& next.context() == self.context()
                    &&& next.handle() == self.handle()
                    &&& next.subsystems() == self.subsystems()
                    &&& next.tags() == self.tags().push((tag@, None))
                },
                Err(error) => status_outcome(status) == Err::<(), Error>(error),
            },
    {
        match handle_error(status) {
            Ok(()) => {
                let mut next = self;
                next.tags.push(ListEntry { name: tag.to_owned(), value: None });
                Ok(next)
            },
            Err(error) => Err(error),
        }
    }

    /// Drops every filter: all devices pass again.
    ///
    /// `status` is what the registry answered when it was told to drop them.
    /// Anything but zero is fatal, and the monitor is gone.
    pub fn clear_filters(self, status: c_int) -> (next: Result<Monitor<'u>, Error>)
        ensures
            match next {
                Ok(next) => {
                    &&& status_outcome(status) is Ok
                    &&& next.context() == self.context()
                    &&& next.handle() == self.handle()
                    &&& next.subsystems() == Seq::<Item>::empty()
                    &&& next.tags() == Seq::<Item>::empty()
                },
                Err(error) => status_outcome(status) == Err::<(), Error>(error),
            },
    {
        match handle_error(status) {
            Ok(()) => {
                let mut next = self;
                next.subsystems.clear();
                next.tags.clear();
                Ok(next)
            },
            Err(error) => Err(error),
        }
    }

    /// Ends the configuration and starts the reading.
    ///
    /// `status` is what the registry answered when it was told to start
    /// receiving. The monitor is consumed: the filters it has now are the
    /// filters the iterator keeps for good.
    pub fn iter(self, status: c_int) -> (events: Result<MonitorIterator<'u>, Error>)
        ensures
            match events {
                Ok(events) => status_outcome(status) is Ok && events.monitor() == self,
                Err(error) => status_outcome(status) == Err::<(), Error>(error),
            },
    {
        match handle_error(status) {
            Ok(()) => Ok(MonitorIterator { monitor: self }),
            Err(error) => Err(error),
        }
    }
}

/// A subscription that is being read. It never ends by itself.
#[derive(Debug, PartialEq, Eq)]
pub struct MonitorIterator<'u> {
    monitor: Monitor<'u>,
}

impl<'u> MonitorIterator<'u> {
    /// The monitor as it was when the reading began.
    pub closed spec fn monitor(&self) -> Monitor<'u> {
        self.monitor
    }

    /// The context that the subscription belongs to.
    pub fn udev(&self) -> (context: &'u Udev)
        ensures
            context == self.monitor().context(),
    {
        self.monitor.udev
    }

    /// The subsystem filters that the reading began with.
    pub fn subsystem_filters(&self) -> (filters: &Vec<ListEntry>)
        ensures
            items(filters@) == self.monitor().subsystems(),
    {
        &self.monitor.subsystems
    }

    /// The tag filters that the reading began with.
    pub fn tag_filters(&self) -> (filters: &Vec<ListEntry>)
        ensures
            items(filters@) == self.monitor().tags(),
    {
        &self.monitor.tags
    }

    /// Turns one attempt to receive into an event, or into the request to
    /// try again.
    ///
    /// The attempt itself is the caller's, and it blocks. `device` is the
    /// handle that came of it, already counted, and `errno` the error
    /// indicator read after it.
    ///
    /// A device becomes an event: its action and its number, with the
    /// handle. A device without an action is nothing the registry sends.
    /// No device is no event yet: `Ok(None)` asks for another attempt,
    /// whatever the indicator says, unless it says that memory ran out.
    /// The caller keeps trying until an event comes, so to its own callers
    /// the sequence has no end.
    pub fn next(
        &mut self,
        table: &Table<'u>,
        device: Option<Device<'u>>,
        errno: c_int,
    ) -> (event: Result<Option<(Event, Device<'u>)>, Error>)
        requires
            device matches Some(device) ==> table.holds(&device),
        ensures
            *final(self) == *old(self),
            match device {
                Some(device) => match table.record(&device).action {
                    Some(name) => event matches Ok(Some((event, handle))) && handle == device
                        && event.action@ == action_of(name) && event.seqnum == table.record(&device).seqnum,
                    None => event == Err::<Option<(Event, Device)>, Error>(
                        Error::Fatal(Fatal::Bug),
                    ),
                },
                None => event == if errno == ENOMEM {
                    Err::<Option<(Event, Device)>, Error>(Error::Fatal(Fatal::OutOfMemory))
                } else {
                    Ok(None)
                },
            },
    {
        match collapse(device, errno) {
            Ok(Some(device)) => {
                let record = table.record_at(crate::device::device_get_dev(&device));
                match as_text(&record.action) {
                    Some(name) => {
                        let action = match Action::from_str(name) {
                            Ok(action) => action,
                            Err(error) => {
                                return Err(error);
                            },
                        };
                        Ok(Some((Event { action, seqnum: record.seqnum }, device)))
                    },
                    None => Err(Error::Fatal(Fatal::Bug)),
                }
            },
            Ok(None) => Ok(None),
            Err(fatal) => Err(Error::Fatal(fatal)),
        }
    }
}

} // verus!
