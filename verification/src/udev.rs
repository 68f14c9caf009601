//! The context: the connection to the registry that everything else
//! borrows.

use crate::device::{Device, Type};
use crate::iterator::Item;
use crate::monitor::{flags_failure, monitor, Channel, Progress, Reply, Setup};
use crate::record::Devnum;
use crate::table::{answer, takes, Query, Table};
use crate::util::{
    check_errno_mut, classify, clear_flag, einval, enomem, o_nonblock, without, Error, Fatal, EINVAL,
};
use libc::c_int;
use vstd::prelude::*;

verus! {

/// The root of everything: the connection to the registry.
///
/// Every [`Device`], every [`Table`] and every monitor borrows its context,
/// so none of them is left once the context has ended. A context is its
/// connection: two values that hold the same connection are one context.
#[derive(Debug, PartialEq, Eq)]
pub struct Udev {
    udev: usize,
}

/// What one step in the making of a monitor comes to, where `nonblock` is
/// the flag that makes a descriptor return at once.
///
/// The stream has to open; that it cannot be had is an error of the system,
/// but that nothing came back with no reason, or that the name of the stream
/// was refused, is a fault. Then the descriptor is made to block: its flags
/// are read and written back without `nonblock`. A reply that does not
/// belong to the call that was due is a fault too.
pub open spec fn steps(
    udev: &Udev,
    state: Setup,
    reply: Reply,
    nonblock: c_int,
    next: Result<Progress, Error>,
) -> bool {
    match (state, reply) {
        (Setup::Opening(_), Reply::Opened(handle, errno)) => match classify(handle, errno) {
            Ok(Some(handle)) => next == Ok::<Progress, Error>(Progress::Pending(Setup::ReadingFlags(handle))),
            Ok(None) => next == Err::<Progress, Error>(Error::Fatal(Fatal::Bug)),
            Err(error) => next == Err::<Progress, Error>(
                if error == Error::SystemError(EINVAL) {
                    Error::Fatal(Fatal::Bug)
                } else {
                    error
                },
            ),
        },
        (Setup::ReadingFlags(handle), Reply::Flags(flags, errno)) => next == if flags == -1 {
            Err::<Progress, Error>(flags_failure(errno))
        } else {
            Ok(Progress::Pending(Setup::WritingFlags(handle, without(flags, nonblock))))
        },
        (Setup::WritingFlags(handle, _), Reply::Flags(status, errno)) => if status == -1 {
            next == Err::<Progress, Error>(flags_failure(errno))
        } else {
            &&& next matches Ok(Progress::Ready(made))
            &&& made.context() == udev
            &&& made.handle() == handle
            &&& made.subsystems() == Seq::<Item>::empty()
            &&& made.tags() == Seq::<Item>::empty()
        },
        _ => next == Err::<Progress, Error>(Error::Fatal(Fatal::Bug)),
    }
}

impl Udev {
    /// The raw handle of the connection to the registry.
    pub closed spec fn handle(&self) -> usize {
        self.udev
    }

    /// A context on the connection that was asked for.
    ///
    /// `connection` is the raw handle that the registry handed out. That it
    /// handed out none has one reason only, a lack of memory, and is fatal.
    pub fn new(connection: Option<usize>) -> (udev: Result<Udev, Error>)
        ensures
            match connection {
                Some(handle) => udev matches Ok(udev) && udev.handle() == handle,
                None => udev == Err::<Udev, Error>(Error::Fatal(Fatal::OutOfMemory)),
            },
    {
        match connection {
            Some(handle) => Ok(Udev { udev: handle }),
            None => Err(Error::Fatal(Fatal::OutOfMemory)),
        }
    }

    /// The raw handle of the connection to the registry.
    pub fn raw(&self) -> (handle: usize)
        ensures
            handle == self.handle(),
    {
        self.udev
    }

    /// Whether two contexts are one: they are where they hold the same
    /// connection.
    pub fn same_as(&self, other: &Udev) -> (same: bool)
        ensures
            same == (self == other),
    {
        self.udev == other.udev
    }

    /// A handle on the device at the given path, `/sys` included, counted in
    /// `table`. The handle is of the context of the table.
    ///
    /// Where several devices answer, the one that was attached first is
    /// taken. Whatever keeps a handle from being handed out, the answer is
    /// "none": that no device answers, or that no more handles can be
    /// counted on the one that does.
    pub fn device<'u>(&'u self, table: &mut Table<'u>, path: &str) -> (found: Option<Device<'u>>)
        ensures
            takes(*old(table), *final(table), answer(old(table).records(), Query::Syspath(path)), found),
    {
        table.find(Query::Syspath(path))
    }

    /// A handle on the device with the given kind of node and device number.
    ///
    /// Where several devices answer, the one that was attached first is
    /// taken. Whatever keeps a handle from being handed out, the answer is
    /// "none".
    pub fn device_from_devnum<'u>(
        &'u self,
        table: &mut Table<'u>,
        ty: Type,
        devnum: Devnum,
    ) -> (found: Option<Device<'u>>)
        ensures
            takes(
                *old(table),
                *final(table),
                answer(old(table).records(), Query::Devnum(ty, devnum)),
                found,
            ),
    {
        table.find(Query::Devnum(ty, devnum))
    }

    /// A handle on the device with the given subsystem and name.
    ///
    /// Where several devices answer, the one that was attached first is
    /// taken. Whatever keeps a handle from being handed out, the answer is
    /// "none".
    pub fn device_from_subsystem_sysname<'u>(
        &'u self,
        table: &mut Table<'u>,
        subsystem: &str,
        sysname: &str,
    ) -> (found: Option<Device<'u>>)
        ensures
            takes(
                *old(table),
                *final(table),
                answer(old(table).records(), Query::SubsystemSysname(subsystem, sysname)),
                found,
            ),
    {
        table.find(Query::SubsystemSysname(subsystem, sysname))
    }

    /// Starts the making of a monitor on the events that the device manager
    /// sends out.
    pub fn monitor(&self) -> (setup: Setup)
        ensures
            setup == Setup::Opening(Channel::Udev),
    {
        Setup::Opening(Channel::Udev)
    }

    /// Starts the making of a monitor on the events of the kernel itself.
    ///
    /// This is rarely what a program wants. The kernel tells of a device
    /// before the device manager has set it up, so its node may be missing
    /// and what is read of it may change under the reader.
    pub fn monitor_kernel(&self) -> (setup: Setup)
        ensures
            setup == Setup::Opening(Channel::Kernel),
    {
        Setup::Opening(Channel::Kernel)
    }

    /// Takes the making of a monitor one step on, with the flag that this
    /// machine has for "return at once".
    ///
    /// `state` says which call was due and `reply` what came of it. The
    /// value of the flag differs from machine to machine, so all that is
    /// said of it here is that there is one: the step is the step of
    /// [`Udev::monitor_step`] for some flag.
    pub fn create_monitor<'u>(&'u self, state: Setup, reply: Reply) -> (next: Result<Progress<'u>, Error>)
        ensures
            exists|flag: c_int| steps(self, state, reply, flag, next),
    {
        let flag = o_nonblock();
        let next = self.monitor_step(state, reply, flag);
        assert(steps(self, state, reply, flag, next));
        next
    }

    /// Takes the making of a monitor one step on, where `nonblock` is the
    /// flag that makes a descriptor return at once.
    ///
    /// `state` says which call was due and `reply` what came of it.
    pub fn monitor_step<'u>(
        &'u self,
        state: Setup,
        reply: Reply,
        nonblock: c_int,
    ) -> (next: Result<Progress<'u>, Error>)
        ensures
            steps(self, state, reply, nonblock, next),
    {
        match (state, reply) {
            (Setup::Opening(_), Reply::Opened(handle, errno)) => {
                match check_errno_mut(handle, errno) {
                    Ok(Some(handle)) => Ok(Progress::Pending(Setup::ReadingFlags(handle))),
                    Ok(None) => Err(Error::Fatal(Fatal::Bug)),
                    Err(Error::SystemError(code)) => {
                        if code == einval() {
                            Err(Error::Fatal(Fatal::Bug))
                        } else {
                            Err(Error::SystemError(code))
                        }
                    },
                    Err(error) => Err(error),
                }
            },
            (Setup::ReadingFlags(handle), Reply::Flags(flags, errno)) => {
                if flags == -1 {
                    Err(Self::flags_error(errno))
                } else {
                    Ok(Progress::Pending(Setup::WritingFlags(handle, clear_flag(flags, nonblock))))
                }
            },
            (Setup::WritingFlags(handle, _), Reply::Flags(status, errno)) => {
                if status == -1 {
                    Err(Self::flags_error(errno))
                } else {
                    Ok(Progress::Ready(monitor(self, handle)))
                }
            },
            _ => Err(Error::Fatal(Fatal::Bug)),
        }
    }

    /// What a failed call on the descriptor comes to.
    fn flags_error(errno: c_int) -> (error: Error)
        ensures
            error == flags_failure(errno),
    {
        if errno == enomem() || errno == einval() {
            Error::Fatal(Fatal::Bug)
        } else {
            Error::SystemError(errno)
        }
    }
}

} // verus!
