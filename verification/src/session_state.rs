//! The session state object: identity, volatile session data, the
//! pending-subscription set, and the packet-identifier allocator with its
//! laws.

use crate::bounded::str_bytes;
use crate::bounded::str_to_bounded;
use crate::bounded::vec_at;
use crate::bounded::vec_clear;
use crate::bounded::vec_elems;
use crate::bounded::vec_len;
use crate::bounded::vec_new;
use crate::bounded::vec_push;
use crate::bounded::vec_remove_at;
use vstd::prelude::*;
use vstd::string::StringSliceAdditionalSpecFns;

verus! {

/// The failures the session state itself can report: both are capacity
/// violations, reported loudly instead of truncating silently.
#[derive(Clone, Copy, Debug, PartialEq, Eq)]
pub enum SessionError {
    /// The client identifier handed to construction exceeds the 32-byte bound.
    InvalidIdentifier,
    /// The pending-subscription set is already at its 32-entry bound.
    Capacity,
}

/// The session record of one client.
///
/// `broker` and `client_id` are identity: set once at construction, never
/// changed afterwards, and in particular untouched by [`SessionState::reset`].
/// The remaining public fields are volatile session data that the protocol
/// engine mutates and every reset restores to the construction defaults.
/// The private `packet_id` is the allocator counter, always in {1..65535}.
pub struct SessionState {
    /// True strictly between a successful handshake acknowledgement and the
    /// detected disconnect; the engine owns the transitions.
    pub connected: bool,
    /// Negotiated keep-alive period in seconds; construction default 10.
    pub keep_alive_interval: u16,
    /// The broker address, fixed at construction.
    pub broker: embedded_nal::IpAddr,
    /// The broker-advertised packet-size limit, if any; default none.
    pub maximum_packet_size: Option<u32>,
    /// The client identifier, fixed at construction, at most 32 bytes.
    pub client_id: heapless::String<32>,
    /// Subscription identifiers sent but not yet acknowledged, at most 32.
    pub pending_subscriptions: heapless::Vec<u16, 32>,
    packet_id: u16,
}

/// The mathematical model of a session record: the plain fields as they are,
/// the client identifier as its byte sequence, the pending set as the
/// sequence of identifiers in insertion order, and the allocator counter.
pub struct SessionView {
    /// Model of [`SessionState::connected`].
    pub connected: bool,
    /// Model of [`SessionState::keep_alive_interval`].
    pub keep_alive_interval: u16,
    /// Model of [`SessionState::broker`].
    pub broker: embedded_nal::IpAddr,
    /// Model of [`SessionState::maximum_packet_size`].
    pub maximum_packet_size: Option<u32>,
    /// The UTF-8 bytes of [`SessionState::client_id`].
    pub client_id: Seq<u8>,
    /// The elements of [`SessionState::pending_subscriptions`].
    pub pending: Seq<u16>,
    /// The private allocator counter.
    pub packet_id: u16,
}

impl View for SessionState {
    type V = SessionView;

    closed spec fn view(&self) -> SessionView {
        SessionView {
            connected: self.connected,
            keep_alive_interval: self.keep_alive_interval,
            broker: self.broker,
            maximum_packet_size: self.maximum_packet_size,
            client_id: str_bytes(self.client_id),
            pending: vec_elems(self.pending_subscriptions),
            packet_id: self.packet_id,
        }
    }
}

/// The successor of a packet identifier: one more than the old value, except
/// that the step which would overflow to zero lands on one instead, because
/// zero is reserved by the protocol.
pub open spec fn spec_advance(id: u16) -> u16 {
    if id == 0xffff {
        1
    } else {
        (id + 1) as u16
    }
}

/// The packet identifier reached after `n` advances from `id`.
pub open spec fn advance_n(id: u16, n: nat) -> u16
    decreases n,
{
    if n == 0 {
        id
    } else {
        advance_n(spec_advance(id), (n - 1) as nat)
    }
}

/// The position of the first occurrence of `id` in `s`, if there is one.
pub open spec fn first_match(s: Seq<u16>, id: u16) -> Option<int>
    decreases s.len(),
{
    if s.len() == 0 {
        None
    } else if s[0] == id {
        Some(0)
    } else {
        match first_match(s.drop_first(), id) {
            Some(i) => Some(i + 1),
            None => None,
        }
    }
}

proof fn lemma_first_match_at(s: Seq<u16>, id: u16, i: int)
    requires
        0 <= i < s.len(),
        s[i] == id,
        forall|j: int| 0 <= j < i ==> s[j] != id,
    ensures
        first_match(s, id) == Some(i),
    decreases i,
{
    if i > 0 {
        assert(s.drop_first()[i - 1] == id);
        assert(forall|j: int| 0 <= j < i - 1 ==> s.drop_first()[j] == s[j + 1]);
        lemma_first_match_at(s.drop_first(), id, i - 1);
    }
}

proof fn lemma_first_match_none(s: Seq<u16>, id: u16)
    requires
        forall|j: int| 0 <= j < s.len() ==> s[j] != id,
    ensures
        first_match(s, id) is None,
    decreases s.len(),
{
    if s.len() > 0 {
        assert(forall|j: int| 0 <= j < s.len() - 1 ==> s.drop_first()[j] == s[j + 1]);
        lemma_first_match_none(s.drop_first(), id);
    }
}

impl SessionState {
    /// Well-formedness: the allocator never holds the reserved identifier
    /// zero, and the pending set never exceeds its 32-entry capacity.
    /// Construction establishes it and every method preserves it.
    pub open spec fn wf(self) -> bool {
        self@.packet_id != 0 && self@.pending.len() <= 32
    }

    /// Constructs the session record for one client.  Fails with
    /// [`SessionError::InvalidIdentifier`] exactly when the identifier does
    /// not fit the 32-byte bound; otherwise every volatile field starts at
    /// its default.
    pub fn new(broker: embedded_nal::IpAddr, id: &str) -> (r: Result<SessionState, SessionError>)
        ensures
            r is Ok <==> id.spec_bytes().len() <= 32,
            r matches Ok(s) ==> s.wf(),
            r matches Ok(s) ==> s@.connected == false,
            r matches Ok(s) ==> s@.keep_alive_interval == 10,
            r matches Ok(s) ==> s@.maximum_packet_size is None,
            r matches Ok(s) ==> s@.packet_id == 1,
            r matches Ok(s) ==> s@.pending == Seq::<u16>::empty(),
            r matches Ok(s) ==> s@.broker == broker,
            r matches Ok(s) ==> s@.client_id == id.spec_bytes(),
            r matches Err(e) ==> e == SessionError::InvalidIdentifier,
    {
        match str_to_bounded(id) {
            Some(client_id) => Ok(SessionState {
                connected: false,
                broker,
                client_id,
                packet_id: 1,
                keep_alive_interval: 10,
                pending_subscriptions: vec_new(),
                maximum_packet_size: None,
            }),
            None => Err(SessionError::InvalidIdentifier),
        }
    }

    /// Restores every volatile field to its construction default; identity
    /// is untouched.  Idempotent and incapable of failure.
    pub fn reset(&mut self)
        ensures
            final(self)@.connected == false,
            final(self)@.packet_id == 1,
            final(self)@.keep_alive_interval == 10,
            final(self)@.maximum_packet_size is None,
            final(self)@.pending == Seq::<u16>::empty(),
            final(self)@.broker == old(self)@.broker,
            final(self)@.client_id == old(self)@.client_id,
            final(self).wf(),
    {
        self.connected = false;
        self.packet_id = 1;
        self.keep_alive_interval = 10;
        self.maximum_packet_size = None;
        vec_clear(&mut self.pending_subscriptions);
    }

    /// The identifier to stamp on the next packet that requires an
    /// acknowledgement.  A pure observer: the state is left as it was, and
    /// on any well-formed state the value is never the reserved zero.
    pub fn get_packet_identifier(&mut self) -> (id: u16)
        ensures
            id == old(self)@.packet_id,
            *final(self) == *old(self),
            old(self).wf() ==> id != 0,
    {
        self.packet_id
    }

    /// Advances the allocator: one more than the old identifier, except that
    /// the step past 65535 lands on 1, never on the reserved 0.  The
    /// allocator is a pure counter: it performs no check against
    /// identifiers still awaiting acknowledgement, so correctness of reuse
    /// rests on the engine retiring identifiers before the cycle wraps.
    pub fn increment_packet_identifier(&mut self)
        ensures
            final(self)@.packet_id == spec_advance(old(self)@.packet_id),
            final(self)@.packet_id != 0,
            final(self)@.connected == old(self)@.connected,
            final(self)@.keep_alive_interval == old(self)@.keep_alive_interval,
            final(self)@.broker == old(self)@.broker,
            final(self)@.maximum_packet_size == old(self)@.maximum_packet_size,
            final(self)@.client_id == old(self)@.client_id,
            final(self)@.pending == old(self)@.pending,
            old(self).wf() ==> final(self).wf(),
    {
        if self.packet_id == 0xffff {
            self.packet_id = 1;
        } else {
            self.packet_id = self.packet_id + 1;
        }
    }

    /// Records a subscription as awaiting acknowledgement.  Appends to the
    /// pending set; fails with [`SessionError::Capacity`] exactly when 32
    /// entries are already present, leaving the state unchanged — never a
    /// silent truncation.
    pub fn insert_pending_subscription(&mut self, id: u16) -> (r: Result<(), SessionError>)
        ensures
            r is Ok <==> old(self)@.pending.len() < 32,
            r is Ok ==> final(self)@.pending == old(self)@.pending.push(id),
            r matches Err(e) ==> e == SessionError::Capacity && *final(self) == *old(self),
            final(self)@.connected == old(self)@.connected,
            final(self)@.keep_alive_interval == old(self)@.keep_alive_interval,
            final(self)@.broker == old(self)@.broker,
            final(self)@.maximum_packet_size == old(self)@.maximum_packet_size,
            final(self)@.client_id == old(self)@.client_id,
            final(self)@.packet_id == old(self)@.packet_id,
            old(self).wf() ==> final(self).wf(),
    {
        match vec_push(&mut self.pending_subscriptions, id) {
            Ok(()) => Ok(()),
            Err(_) => Err(SessionError::Capacity),
        }
    }

    /// Retires the first pending entry matching `id`, upon its
    /// acknowledgement.  Absence of a match is a no-op, not an error, since
    /// acknowledgements may race with concurrent state changes.
    pub fn remove_pending_subscription(&mut self, id: u16)
        ensures
            match first_match(old(self)@.pending, id) {
                Some(i) => final(self)@.pending == old(self)@.pending.remove(i),
                None => final(self)@.pending == old(self)@.pending,
            },
            final(self)@.connected == old(self)@.connected,
            final(self)@.keep_alive_interval == old(self)@.keep_alive_interval,
            final(self)@.broker == old(self)@.broker,
            final(self)@.maximum_packet_size == old(self)@.maximum_packet_size,
            final(self)@.client_id == old(self)@.client_id,
            final(self)@.packet_id == old(self)@.packet_id,
            old(self).wf() ==> final(self).wf(),
    {
        let n: usize = vec_len(&self.pending_subscriptions);
        let mut i: usize = 0;
        while i < n
            invariant
                *self == *old(self),
                n == old(self)@.pending.len(),
                i <= n,
                forall|j: int| 0 <= j < i ==> old(self)@.pending[j] != id,
            decreases n - i,
        {
            if vec_at(&self.pending_subscriptions, i) == id {
                proof {
                    lemma_first_match_at(old(self)@.pending, id, i as int);
                }
                vec_remove_at(&mut self.pending_subscriptions, i);
                return;
            }
            i = i + 1;
        }
        proof {
            lemma_first_match_none(old(self)@.pending, id);
        }
    }

    /// How many subscriptions are still awaiting acknowledgement.
    pub fn pending_count(&self) -> (n: usize)
        ensures
            n == self@.pending.len(),
    {
        vec_len(&self.pending_subscriptions)
    }

    /// Whether any subscription is still awaiting acknowledgement; the
    /// engine gates dependent actions on this.
    pub fn has_pending(&self) -> (b: bool)
        ensures
            b == (self@.pending.len() > 0),
    {
        self.pending_count() > 0
    }
}

/// Law: a single advance never yields zero, so every sequence of advances,
/// from any starting point, stays clear of the reserved identifier.
pub proof fn lemma_advance_never_zero(id: u16)
    ensures
        spec_advance(id) != 0,
{
}

/// Law: the whole identifier sequence produced by advancing `n` times from a
/// non-zero identifier contains no zero.
pub proof fn lemma_sequence_never_zero(id: u16, n: nat)
    requires
        id != 0,
    ensures
        advance_n(id, n) != 0,
    decreases n,
{
    if n > 0 {
        lemma_sequence_never_zero(spec_advance(id), (n - 1) as nat);
    }
}

/// From any identifier in the usable domain {1..65535}, advancing the number
/// of steps that remain before the cycle closes lands back on one.
proof fn lemma_cycle_closes(id: u16)
    requires
        1 <= id,
    ensures
        advance_n(id, (0x10000 - id) as nat) == 1,
    decreases 0x10000 - id,
{
    if id < 0xffff {
        lemma_cycle_closes((id + 1) as u16);
        assert(advance_n(id, (0x10000 - id) as nat) == advance_n(
            (id + 1) as u16,
            (0x10000 - id - 1) as nat,
        ));
    } else {
        assert(advance_n(1, 0) == 1);
        assert(advance_n(0xffff, 1) == advance_n(1, 0));
    }
}

/// Law: after exactly 65535 advances from the initial identifier 1, the
/// allocator returns to 1 — the full cycle walks every usable identifier and
/// skips zero.
pub proof fn lemma_full_cycle()
    ensures
        advance_n(1, 0xffff as nat) == 1,
{
    lemma_cycle_closes(1);
}

} // verus!
