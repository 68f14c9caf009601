//! A checked core for clients of the Linux device registry.
//!
//! The registry itself is reached through native calls that this crate never
//! makes. What it holds is everything that has to be decided around those
//! calls: how a failed call is classified, how a list is walked, how handles
//! on devices are counted, and in which order a monitor may be configured
//! and read. A caller performs the native call and hands its plain result
//! to the function here that decides what it means.
//!
//! * [`util`] classifies what a call reports.
//! * [`iterator`] walks the registry's lists.
//! * [`record`] is what is known of one device, as plain values.
//! * [`udev`] is the context: the connection that everything else borrows.
//! * [`table`] is what a context knows of its devices, with the count of the
//!   handles on each.
//! * [`device`] is the handle on one device and all that can be asked of it.
//! * [`sysnum`] reads the number that closes a device name.
//! * [`monitor`] is the subscription to events, first configured, then read.

pub mod device;
pub mod iterator;
pub mod monitor;
pub mod record;
pub mod sysnum;
pub mod table;
pub mod udev;
pub mod util;
