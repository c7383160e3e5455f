//! The connection lifecycle state machine.
//!
//! A connection walks `Disconnected -> Connecting -> Connected ->
//! ServicesDiscovered -> Subscribed`, never skipping a state, with an
//! absorbing `Failed` state for each setup step the transport rejects.
//! The machine itself performs no I/O: the embedding application calls
//! the transport and reports each outcome back through these methods.

use vstd::prelude::*;

verus! {

/// Bit of the characteristic properties byte that advertises support for
/// notifications, as GATT defines it.
pub const PROP_NOTIFY: u8 = 0x10;

/// One characteristic found during service discovery: its UUID in 128-bit
/// form and its GATT properties byte.
#[derive(Clone, Copy, Debug, PartialEq, Eq, Structural)]
pub struct CharacteristicDescriptor {
    pub uuid: u128,
    pub properties: u8,
}

/// Why a connection setup step failed.
#[derive(Clone, Copy, Debug, PartialEq, Eq, Structural)]
pub enum FailureKind {
    /// The transport rejected or timed out the connect attempt.
    ConnectionError,
    /// The transport failed to enumerate characteristics after connecting.
    ServiceDiscoveryError,
    /// The target characteristic is absent or lacks the notify capability.
    CharacteristicUnsupported,
    /// The transport refused to enable notifications.
    SubscriptionError,
}

/// The lifecycle state of the one connection a run owns.
#[derive(Clone, Copy, Debug, PartialEq, Eq, Structural)]
pub enum ConnState {
    Disconnected,
    Connecting,
    Connected,
    ServicesDiscovered,
    Subscribed,
    Failed(FailureKind),
}

/// Whether a characteristic advertises the notify capability.
pub open spec fn can_notify(c: CharacteristicDescriptor) -> bool {
    c.properties & PROP_NOTIFY != 0
}

/// Whether a characteristic is the one to subscribe to: right UUID and
/// able to notify.
pub open spec fn char_matches(c: CharacteristicDescriptor, uuid: u128) -> bool {
    c.uuid == uuid && can_notify(c)
}

/// Whether the table holds a notifying characteristic with this UUID.
pub open spec fn has_notify_char(table: Seq<CharacteristicDescriptor>, uuid: u128) -> bool {
    exists|j: int| 0 <= j < table.len() && char_matches(table[j], uuid)
}

/// Whether `i` is the index of the first notifying characteristic with
/// this UUID.
pub open spec fn is_first_notify_char(table: Seq<CharacteristicDescriptor>, uuid: u128, i: int) -> bool {
    &&& 0 <= i < table.len()
    &&& char_matches(table[i], uuid)
    &&& forall|j: int| 0 <= j < i ==> !char_matches(table[j], uuid)
}

/// The single connection of a run: the peripheral handle, the lifecycle
/// state, and the characteristic table that service discovery populates.
pub struct Connection {
    /// Opaque handle of the peripheral, carried over from its descriptor.
    pub handle: usize,
    pub state: ConnState,
    pub characteristics: Vec<CharacteristicDescriptor>,
}

impl Connection {
    /// The characteristic table is populated exactly from service
    /// discovery on: before that, and after a teardown, it is empty.
    pub open spec fn wf(self) -> bool {
        self.state is Disconnected || self.state is Connecting || self.state is Connected
            ==> self.characteristics@.len() == 0
    }

    /// A fresh connection for a discovered peripheral: not yet dialled.
    pub fn new(handle: usize) -> (c: Connection)
        ensures
            c.wf(),
            c.handle == handle,
            c.state is Disconnected,
            c.characteristics@.len() == 0,
    {
        Connection { handle, state: ConnState::Disconnected, characteristics: Vec::new() }
    }

    /// Ask to connect. Returns whether the application must actually dial
    /// the transport: from `Disconnected` the state becomes `Connecting`
    /// and a dial is owed; from `Connected` or any later state the call is
    /// an idempotent no-op that never re-dials. `Failed` absorbs the call.
    pub fn start_connect(&mut self) -> (dial: bool)
        requires
            old(self).wf(),
            !(old(self).state is Connecting),
        ensures
            final(self).wf(),
            final(self).handle == old(self).handle,
            final(self).characteristics == old(self).characteristics,
            old(self).state is Disconnected ==> final(self).state is Connecting && dial,
            !(old(self).state is Disconnected) ==> *final(self) == *old(self) && !dial,
    {
        match self.state {
            ConnState::Disconnected => {
                self.state = ConnState::Connecting;
                true
            },
            _ => false,
        }
    }

    /// Record the transport's answer to the dial: acknowledged means
    /// `Connected`, rejection or timeout means `Failed`.
    pub fn connect_outcome(&mut self, ok: bool)
        requires
            old(self).wf(),
            old(self).state is Connecting,
        ensures
            final(self).wf(),
            final(self).handle == old(self).handle,
            final(self).characteristics == old(self).characteristics,
            ok ==> final(self).state is Connected,
            !ok ==> final(self).state == ConnState::Failed(FailureKind::ConnectionError),
    {
        if ok {
            self.state = ConnState::Connected;
        } else {
            self.state = ConnState::Failed(FailureKind::ConnectionError);
        }
    }

    /// Record the outcome of service discovery: `Some` populates the
    /// characteristic table and reaches `ServicesDiscovered`, `None`
    /// means the transport call failed.
    pub fn discovery_outcome(&mut self, result: Option<Vec<CharacteristicDescriptor>>)
        requires
            old(self).wf(),
            old(self).state is Connected,
        ensures
            final(self).wf(),
            final(self).handle == old(self).handle,
            result matches Some(cs) ==> final(self).state is ServicesDiscovered
                && final(self).characteristics@ == cs@,
            result is None ==> final(self).state == ConnState::Failed(
                FailureKind::ServiceDiscoveryError,
            ) && final(self).characteristics == old(self).characteristics,
    {
        match result {
            Some(cs) => {
                self.characteristics = cs;
                self.state = ConnState::ServicesDiscovered;
            },
            None => {
                self.state = ConnState::Failed(FailureKind::ServiceDiscoveryError);
            },
        }
    }

    /// Ask to subscribe to the characteristic with this UUID. When the
    /// table holds a notifying characteristic with that UUID, the first
    /// such entry's index is returned and the application owes the
    /// transport subscribe call; otherwise the connection fails with
    /// `CharacteristicUnsupported` and is in particular never `Subscribed`.
    pub fn subscribe_request(&mut self, characteristic_uuid: u128) -> (r: Option<usize>)
        requires
            old(self).wf(),
            old(self).state is ServicesDiscovered,
        ensures
            final(self).wf(),
            final(self).handle == old(self).handle,
            final(self).characteristics == old(self).characteristics,
            match r {
                Some(i) => {
                    &&& has_notify_char(old(self).characteristics@, characteristic_uuid)
                    &&& is_first_notify_char(
                        old(self).characteristics@,
                        characteristic_uuid,
                        i as int,
                    )
                    &&& final(self).state is ServicesDiscovered
                },
                None => {
                    &&& !has_notify_char(old(self).characteristics@, characteristic_uuid)
                    &&& final(self).state == ConnState::Failed(FailureKind::CharacteristicUnsupported)
                },
            },
    {
        let mut i: usize = 0;
        while i < self.characteristics.len()
            invariant
                *self == *old(self),
                old(self).wf(),
                old(self).state is ServicesDiscovered,
                i <= self.characteristics@.len(),
                forall|j: int|
                    0 <= j < i ==> !char_matches(self.characteristics@[j], characteristic_uuid),
            decreases self.characteristics@.len() - i,
        {
            let c = self.characteristics[i];
            if c.uuid == characteristic_uuid && c.properties & PROP_NOTIFY != 0 {
                assert(char_matches(self.characteristics@[i as int], characteristic_uuid));
                return Some(i);
            }
            i = i + 1;
        }
        assert(!has_notify_char(self.characteristics@, characteristic_uuid));
        self.state = ConnState::Failed(FailureKind::CharacteristicUnsupported);
        None
    }

    /// Record the transport's answer to the subscribe call: acknowledged
    /// means the terminal `Subscribed` state, refusal means `Failed`.
    pub fn subscribe_outcome(&mut self, ok: bool)
        requires
            old(self).wf(),
            old(self).state is ServicesDiscovered,
        ensures
            final(self).wf(),
            final(self).handle == old(self).handle,
            final(self).characteristics == old(self).characteristics,
            ok ==> final(self).state is Subscribed,
            !ok ==> final(self).state == ConnState::Failed(FailureKind::SubscriptionError),
    {
        if ok {
            self.state = ConnState::Subscribed;
        } else {
            self.state = ConnState::Failed(FailureKind::SubscriptionError);
        }
    }

    /// Tear the connection down. Safe from every state and always
    /// succeeds locally; transport errors during teardown are the
    /// application's to swallow, never escalated.
    pub fn disconnect(&mut self)
        requires
            old(self).wf(),
        ensures
            final(self).wf(),
            final(self).handle == old(self).handle,
            final(self).state is Disconnected,
            final(self).characteristics@.len() == 0,
    {
        self.characteristics = Vec::new();
        self.state = ConnState::Disconnected;
    }
}

} // verus!
