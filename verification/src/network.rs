//! Traffic totals and link states of the host's network interfaces.

use vstd::prelude::*;
use vstd::string::*;

verus! {

/// Mathematical content of [`NetworkData`].
pub struct NetworkModel {
    /// Bytes transmitted, over all interfaces.
    pub bytes_sent: nat,
    /// Bytes received, over all interfaces.
    pub bytes_recv: nat,
    /// Name and link state of each interface, in the order recorded.
    pub interfaces: Seq<(Seq<char>, Seq<char>)>,
}

/// The link state shown for an interface: up once it has carried any traffic.
pub open spec fn link_state(received: u64, transmitted: u64) -> Seq<char> {
    if received > 0 || transmitted > 0 {
        "UP"@
    } else {
        "DOWN"@
    }
}

/// The texts of a list of name and state pairs.
pub open spec fn labels(interfaces: Seq<(String, String)>) -> Seq<(Seq<char>, Seq<char>)> {
    interfaces.map_values(|pair: (String, String)| (pair.0@, pair.1@))
}

/// Totals over all interfaces, and each interface with its link state.
pub struct NetworkData {
    bytes_sent: u64,
    bytes_recv: u64,
    interfaces: Vec<(String, String)>,
}

impl View for NetworkData {
    type V = NetworkModel;

    closed spec fn view(&self) -> NetworkModel {
        NetworkModel {
            bytes_sent: self.bytes_sent as nat,
            bytes_recv: self.bytes_recv as nat,
            interfaces: labels(self.interfaces@),
        }
    }
}

impl Default for NetworkData {
    /// No interfaces and no traffic.
    fn default() -> (data: NetworkData)
        ensures
            data@ == (NetworkModel {
                bytes_sent: 0,
                bytes_recv: 0,
                interfaces: Seq::<(Seq<char>, Seq<char>)>::empty(),
            }),
    {
        let data = NetworkData { bytes_sent: 0, bytes_recv: 0, interfaces: Vec::new() };
        assert(labels(data.interfaces@) =~= Seq::<(Seq<char>, Seq<char>)>::empty());
        data
    }
}

impl NetworkData {
    /// Whether one more interface with these counters still fits the totals.
    pub open spec fn has_room(&self, received: u64, transmitted: u64) -> bool {
        self@.bytes_sent + transmitted <= u64::MAX && self@.bytes_recv + received <= u64::MAX
    }

    /// Whether the totals can take one more interface with these counters
    /// without overflowing.
    #[verifier::when_used_as_spec(has_room)]
    pub fn fits(&self, received: u64, transmitted: u64) -> (fits: bool)
        ensures
            fits == self.has_room(received, transmitted),
    {
        transmitted <= u64::MAX - self.bytes_sent && received <= u64::MAX - self.bytes_recv
    }

    /// Adds one interface: its counters go into the totals, and it is listed
    /// as `UP` if either counter is positive, as `DOWN` otherwise.
    pub fn record(&mut self, name: String, received: u64, transmitted: u64)
        requires
            old(self).has_room(received, transmitted),
        ensures
            final(self)@ == (NetworkModel {
                bytes_sent: old(self)@.bytes_sent + transmitted as nat,
                bytes_recv: old(self)@.bytes_recv + received as nat,
                interfaces: old(self)@.interfaces.push((name@, link_state(received, transmitted))),
            }),
    {
        let state = if received > 0 || transmitted > 0 {
            String::from_str("UP")
        } else {
            String::from_str("DOWN")
        };
        let ghost before = self.interfaces@;
        self.bytes_sent = self.bytes_sent + transmitted;
        self.bytes_recv = self.bytes_recv + received;
        self.interfaces.push((name, state));
        assert(labels(self.interfaces@) =~= labels(before).push(
            (name@, link_state(received, transmitted)),
        ));
    }

    /// Adds one interface if the totals have room for its counters, and says
    /// whether it did; without room nothing changes.
    pub fn try_record(&mut self, name: String, received: u64, transmitted: u64) -> (recorded: bool)
        ensures
            recorded == old(self).has_room(received, transmitted),
            recorded ==> final(self)@ == (NetworkModel {
                bytes_sent: old(self)@.bytes_sent + transmitted as nat,
                bytes_recv: old(self)@.bytes_recv + received as nat,
                interfaces: old(self)@.interfaces.push((name@, link_state(received, transmitted))),
            }),
            !recorded ==> final(self)@ == old(self)@,
    {
        if self.fits(received, transmitted) {
            self.record(name, received, transmitted);
            true
        } else {
            false
        }
    }

    /// Bytes transmitted over all interfaces.
    pub fn bytes_sent(&self) -> (total: u64)
        ensures
            total == self@.bytes_sent,
    {
        self.bytes_sent
    }

    /// Bytes received over all interfaces.
    pub fn bytes_recv(&self) -> (total: u64)
        ensures
            total == self@.bytes_recv,
    {
        self.bytes_recv
    }

    /// Name and link state of each interface, in the order recorded.
    pub fn interfaces(&self) -> (list: &Vec<(String, String)>)
        ensures
            labels(list@) == self@.interfaces,
    {
        &self.interfaces
    }

    /// Gives up the totals and hands out the list of interfaces.
    pub fn into_interfaces(self) -> (list: Vec<(String, String)>)
        ensures
            labels(list@) == self@.interfaces,
    {
        self.interfaces
    }
}

/// The unit a byte count is shown in.
#[derive(Clone, Copy, Debug, PartialEq, Eq, Structural)]
pub enum ByteUnit {
    /// Thousands of bytes.
    Kilobytes,
    /// Millions of bytes.
    Megabytes,
}

impl ByteUnit {
    /// The unit for a count: megabytes from one million bytes on.
    pub open spec fn for_count(bytes: u64) -> ByteUnit {
        if bytes >= 1_000_000 {
            ByteUnit::Megabytes
        } else {
            ByteUnit::Kilobytes
        }
    }

    /// Bytes in one unit.
    pub open spec fn divisor_spec(&self) -> u64 {
        match self {
            ByteUnit::Kilobytes => 1_000u64,
            ByteUnit::Megabytes => 1_000_000u64,
        }
    }

    /// The unit a count is shown in: megabytes from one million bytes on,
    /// kilobytes below.
    pub fn of(bytes: u64) -> (unit: ByteUnit)
        ensures
            unit == ByteUnit::for_count(bytes),
    {
        if bytes >= 1_000_000 {
            ByteUnit::Megabytes
        } else {
            ByteUnit::Kilobytes
        }
    }

    /// Bytes in one unit.
    #[verifier::when_used_as_spec(divisor_spec)]
    pub fn divisor(&self) -> (bytes: u64)
        ensures
            bytes == self.divisor_spec(),
    {
        match self {
            ByteUnit::Kilobytes => 1_000,
            ByteUnit::Megabytes => 1_000_000,
        }
    }

    /// The unit's abbreviation.
    pub fn suffix(&self) -> (text: &'static str)
        ensures
            text@ == (match self {
                ByteUnit::Kilobytes => "KB"@,
                ByteUnit::Megabytes => "MB"@,
            }),
    {
        match self {
            ByteUnit::Kilobytes => "KB",
            ByteUnit::Megabytes => "MB",
        }
    }
}

} // verus!
