//! The null device: a block device that completes reads and writes
//! without doing anything.

use vstd::prelude::*;
use vstd::string::StringExecFns;
use crate::text::{signed_decimal, signed_decimal_text};

verus! {

/// The name of the module that the null device belongs to.
pub open spec fn module_name() -> Seq<char> {
    "NullNg"@
}

/// The name of the device that the module makes when it starts.
pub open spec fn first_device_name() -> Seq<char> {
    "nullng0"@
}

/// What is to be registered with the storage engine for the null device.
#[derive(Debug, PartialEq, Eq)]
pub struct Registration {
    /// Name of the module.
    pub module: String,
    /// Whether the module has work to do when it starts.
    pub with_module_init: bool,
}

/// What the storage engine is to register for the null device: its module,
/// which makes the first device when it starts.
pub fn register() -> (registration: Registration)
    ensures
        registration.module@ == module_name(),
        registration.with_module_init,
{
    Registration { module: "NullNg".to_owned(), with_module_init: true }
}

/// What the module does when it starts: it makes the first null device,
/// and reports success, which is zero.
pub fn module_init() -> (started: (i32, NullIoDevice, BdevParameters))
    ensures
        started.0 == 0,
        started.1.name@ == first_device_name(),
        started.2.name@ == first_device_name(),
{
    let (device, parameters) = NullIoDevice::create("nullng0");
    (0, device, parameters)
}

/// The kinds of I/O a block device is asked for.
#[derive(Debug, Clone, Copy, PartialEq, Eq, Structural)]
pub enum IoType {
    Invalid,
    Read,
    Write,
    Unmap,
    Flush,
    Reset,
    NvmeAdmin,
    NvmeIo,
    WriteZeros,
    Abort,
}

/// What the null device does with a request.
#[derive(Debug, Clone, Copy, PartialEq, Eq, Structural)]
pub enum Submission {
    /// The request waits for the next poll, which completes it.
    Queue,
    /// The request fails.
    Fail,
}

/// What a channel of the null device knows of itself.
#[derive(Debug, Clone, Copy, PartialEq, Eq, Structural)]
pub struct NullIoChannelData {
    /// The number of the channel's poller.
    pub my_poller: i64,
    /// The number of the channel.
    pub my_data: i64,
}

/// How a channel shows in diagnostics.
pub open spec fn channel_label(channel: NullIoChannelData) -> Seq<char> {
    "NIO.Dat[p '"@ + signed_decimal(channel.my_poller as int) + "' d '"@ + signed_decimal(
        channel.my_data as int,
    ) + "']"@
}

impl NullIoChannelData {
    /// A channel with the numbers `a` and `b`.
    pub fn new(a: i64, b: i64) -> (channel: Self)
        ensures
            channel == (NullIoChannelData { my_poller: a, my_data: b }),
    {
        NullIoChannelData { my_poller: a, my_data: b }
    }

    /// How the channel shows in diagnostics.
    pub fn dbg(&self) -> (label: String)
        ensures
            label@ == channel_label(*self),
    {
        let mut label = String::from_str("NIO.Dat[p '");
        let poller = signed_decimal_text(self.my_poller);
        label.append(poller.as_str());
        label.append("' d '");
        let data = signed_decimal_text(self.my_data);
        label.append(data.as_str());
        label.append("']");
        label
    }

    /// How many of `ready` requests a poll reports as completed: all of
    /// them, as a 32-bit number.
    pub fn polled(ready: usize) -> (count: i32)
        ensures
            count == ready as i32,
    {
        #[verifier::truncate]
        (ready as i32)
    }
}

/// What the storage engine is told of a null device.
#[derive(Debug, PartialEq, Eq)]
pub struct BdevParameters {
    pub name: String,
    pub product_name: String,
    pub block_length: u32,
    pub block_count: u64,
    pub required_alignment: u8,
}

/// The null device.
#[derive(Debug, PartialEq, Eq)]
pub struct NullIoDevice {
    /// Name of the device.
    pub name: String,
    /// A number that shows in diagnostics.
    pub smth: u64,
    /// The number of the channel made last.
    pub next_chan: i64,
}

/// How a device with the identifier `id` shows in diagnostics.
pub open spec fn device_label(device: NullIoDevice, id: Seq<char>) -> Seq<char> {
    "NIO.Dev[id '"@ + id + "' name '"@ + device.name@ + "' smth '"@
        + crate::text::decimal(device.smth as nat) + "']"@
}

impl NullIoDevice {
    /// The null device of the name `name`, and what the storage engine is
    /// told of it: 2^20 blocks of 4096 bytes, aligned to 4096 bytes.
    pub fn create(name: &str) -> (made: (NullIoDevice, BdevParameters))
        ensures
            made.0.name@ == name@,
            made.0.smth == 789,
            made.0.next_chan == 10,
            made.1.name@ == name@,
            made.1.product_name@ == "nullblk thing"@,
            made.1.block_length == 4096,
            made.1.block_count == 1048576,
            made.1.required_alignment == 12,
    {
        (
            NullIoDevice { name: name.to_owned(), smth: 789, next_chan: 10 },
            BdevParameters {
                name: name.to_owned(),
                product_name: "nullblk thing".to_owned(),
                block_length: 4096,
                block_count: 1048576,
                required_alignment: 12,
            },
        )
    }

    /// Makes the next channel of the device: its number is one more than
    /// that of the channel made last, and its poller has the number 123.
    /// There is no next channel once the numbers are used up.
    pub fn io_channel_create(&mut self) -> (channel: Option<NullIoChannelData>)
        ensures
            final(self).name == old(self).name,
            final(self).smth == old(self).smth,
            old(self).next_chan < i64::MAX ==> final(self).next_chan == old(self).next_chan + 1
                && channel == Some(
                NullIoChannelData { my_poller: 123, my_data: (old(self).next_chan + 1) as i64 },
            ),
            old(self).next_chan == i64::MAX ==> final(self).next_chan == old(self).next_chan
                && channel is None,
    {
        if self.next_chan == i64::MAX {
            return None;
        }
        self.next_chan = self.next_chan + 1;
        Some(NullIoChannelData::new(123, self.next_chan))
    }

    /// What the device does with a request of kind `io_type`: reads and
    /// writes wait for the next poll, anything else fails.
    pub fn submit_request(&self, io_type: IoType) -> (submission: Submission)
        ensures
            submission == if io_type == IoType::Read || io_type == IoType::Write {
                Submission::Queue
            } else {
                Submission::Fail
            },
    {
        match io_type {
            IoType::Read | IoType::Write => Submission::Queue,
            _ => Submission::Fail,
        }
    }

    /// Whether the device takes requests of kind `io_type`: reads and
    /// writes.
    pub fn io_type_supported(&self, io_type: IoType) -> (supported: bool)
        ensures
            supported == (io_type == IoType::Read || io_type == IoType::Write),
    {
        match io_type {
            IoType::Read | IoType::Write => true,
            _ => false,
        }
    }

    /// How the device shows in diagnostics, given how its identifier is
    /// written.
    pub fn dbg(&self, id: &str) -> (label: String)
        ensures
            label@ == device_label(*self, id@),
    {
        let mut label = String::from_str("NIO.Dev[id '");
        label.append(id);
        label.append("' name '");
        label.append(self.name.as_str());
        label.append("' smth '");
        let smth = crate::text::decimal_text(self.smth);
        label.append(smth.as_str());
        label.append("']");
        label
    }
}

} // verus!
