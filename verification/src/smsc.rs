//! The process-wide router: admission control for new sockets, and
//! the registry that maps a pending message id to the bound connection
//! that submitted it, so that an inbound `deliver_sm` reaches the
//! right client.  Connections are named here by plain numeric handles;
//! the surrounding I/O layer owns the sockets those handles stand for.

use vstd::prelude::*;
use vstd::string::StringExecFns;

use crate::message_unique_key::{MessageUniqueKey, MukV};
use crate::operations::spec_extract_receipted_message_id;
use crate::pdu::{Pdu, PduBody, PduBodyV};

verus! {

/// Why an injected PDU could not be routed.
#[derive(Debug, PartialEq, Eq, Structural, Clone, Copy)]
pub enum RouterError {
    /// The PDU's short message names no message this router knows.
    UnknownMessage,
    /// Only `deliver_sm` PDUs can be routed.
    UnexpectedPduType,
}

/// One registry entry: a pending message and the connection that
/// submitted it.
#[derive(Debug, PartialEq, Clone)]
pub struct RegistryEntry {
    pub key: MessageUniqueKey,
    pub connection: u64,
}

/// The mathematical value of a registry entry.
pub struct RegEntryV {
    pub key: MukV,
    pub connection: u64,
}

impl View for RegistryEntry {
    type V = RegEntryV;

    open spec fn view(&self) -> RegEntryV {
        RegEntryV { key: self.key@, connection: self.connection }
    }
}

impl RegistryEntry {
    /// A copy with the same value.
    fn duplicate(&self) -> (r: RegistryEntry)
        ensures
            r@ == self@,
    {
        RegistryEntry {
            key: MessageUniqueKey {
                system_id_namespace: self.key.system_id_namespace.clone(),
                message_id: self.key.message_id.clone(),
                submitter_addr: self.key.submitter_addr.clone(),
            },
            connection: self.connection,
        }
    }
}

/// The connection registered for a message id: the most recent entry
/// wins.
pub open spec fn spec_lookup(entries: Seq<RegEntryV>, message_id: Seq<char>) -> Option<u64>
    decreases entries.len(),
{
    if entries.len() == 0 {
        None
    } else if entries.last().key.message_id == message_id {
        Some(entries.last().connection)
    } else {
        spec_lookup(entries.drop_last(), message_id)
    }
}

/// The registry without any entry for the given message id.
pub open spec fn spec_remove_mid(entries: Seq<RegEntryV>, message_id: Seq<char>) -> Seq<RegEntryV>
    decreases entries.len(),
{
    if entries.len() == 0 {
        Seq::empty()
    } else if entries.last().key.message_id == message_id {
        spec_remove_mid(entries.drop_last(), message_id)
    } else {
        spec_remove_mid(entries.drop_last(), message_id).push(entries.last())
    }
}

/// The registry without any entry for the given connection.
pub open spec fn spec_remove_conn(entries: Seq<RegEntryV>, connection: u64) -> Seq<RegEntryV>
    decreases entries.len(),
{
    if entries.len() == 0 {
        Seq::empty()
    } else if entries.last().connection == connection {
        spec_remove_conn(entries.drop_last(), connection)
    } else {
        spec_remove_conn(entries.drop_last(), connection).push(entries.last())
    }
}

/// Registering a message: any earlier entry for the same id gives way
/// to the new one.
pub open spec fn spec_add(entries: Seq<RegEntryV>, key: MukV, connection: u64) -> Seq<RegEntryV> {
    spec_remove_mid(entries, key.message_id).push(RegEntryV { key, connection })
}

/// Removing entries for one message id leaves every other lookup
/// unchanged and erases that id.
pub proof fn lemma_remove_mid_lookup(entries: Seq<RegEntryV>, message_id: Seq<char>, other: Seq<char>)
    ensures
        other != message_id ==> spec_lookup(spec_remove_mid(entries, message_id), other)
            == spec_lookup(entries, other),
        spec_lookup(spec_remove_mid(entries, message_id), message_id) is None,
    decreases entries.len(),
{
    if entries.len() > 0 {
        lemma_remove_mid_lookup(entries.drop_last(), message_id, other);
        if entries.last().key.message_id != message_id {
            assert(spec_remove_mid(entries, message_id) == spec_remove_mid(
                entries.drop_last(),
                message_id,
            ).push(entries.last()));
            assert(spec_remove_mid(entries, message_id).drop_last() == spec_remove_mid(
                entries.drop_last(),
                message_id,
            ));
        }
    }
}

/// Removing one connection's entries never disturbs a message id that
/// resolved elsewhere, and afterwards no id resolves to that
/// connection.
pub proof fn lemma_remove_conn_lookup(entries: Seq<RegEntryV>, connection: u64, mid: Seq<char>)
    ensures
        spec_lookup(entries, mid) != Some(connection) ==> spec_lookup(
            spec_remove_conn(entries, connection),
            mid,
        ) == spec_lookup(entries, mid),
        spec_lookup(spec_remove_conn(entries, connection), mid) != Some(connection),
    decreases entries.len(),
{
    if entries.len() > 0 {
        lemma_remove_conn_lookup(entries.drop_last(), connection, mid);
        if entries.last().connection != connection {
            assert(spec_remove_conn(entries, connection).drop_last() == spec_remove_conn(
                entries.drop_last(),
                connection,
            ));
            assert(spec_remove_conn(entries, connection).last() == entries.last());
        }
    }
}

/// Router routing: once a message is registered to a connection, a
/// lookup of its id names exactly that connection, and every other id
/// resolves as before.
pub proof fn lemma_router_routing(
    entries: Seq<RegEntryV>,
    key: MukV,
    connection: u64,
    other: Seq<char>,
)
    ensures
        spec_lookup(spec_add(entries, key, connection), key.message_id) == Some(connection),
        other != key.message_id ==> spec_lookup(spec_add(entries, key, connection), other)
            == spec_lookup(entries, other),
{
    let added = spec_add(entries, key, connection);
    assert(added.last() == (RegEntryV { key, connection }));
    assert(added.drop_last() == spec_remove_mid(entries, key.message_id));
    lemma_remove_mid_lookup(entries, key.message_id, other);
}

/// One admission step: granted, with the count raised, exactly while
/// the count is below the bound.
pub open spec fn spec_try_admit(count: nat, max: nat) -> (bool, nat) {
    if count < max {
        (true, count + 1)
    } else {
        (false, count)
    }
}

/// The open count after `k` admission attempts from a fresh router.
pub open spec fn count_after_admits(k: nat, max: nat) -> nat
    decreases k,
{
    if k == 0 {
        0
    } else {
        spec_try_admit(count_after_admits((k - 1) as nat, max), max).1
    }
}

/// While no admission has been refused, the open count is the number
/// of admissions.
proof fn lemma_count_after_admits(max: nat, k: nat)
    requires
        k <= max,
    ensures
        count_after_admits(k, max) == k,
    decreases k,
{
    if k > 0 {
        lemma_count_after_admits(max, (k - 1) as nat);
    }
}

/// Admission control: from a fresh router with bound `max`, each of
/// the first `max` admissions is granted, and the attempt after them
/// is refused while the earlier ones stand.
pub proof fn lemma_admission_control(max: nat, k: nat)
    ensures
        k < max ==> spec_try_admit(count_after_admits(k, max), max).0,
        k <= max ==> count_after_admits(k, max) == k,
        !spec_try_admit(count_after_admits(max, max), max).0,
{
    if k <= max {
        lemma_count_after_admits(max, k);
    }
    lemma_count_after_admits(max, max);
}

/// The router's state: the admission bound and count, and the message
/// registry.
#[derive(Debug)]
pub struct Smsc {
    /// How many connections may be open at once.
    pub max_open_sockets: usize,
    /// How many connections are open now.
    pub open_sockets: usize,
    /// The pending messages and their connections.
    pub registry: Vec<RegistryEntry>,
}

impl Smsc {
    /// The entries as mathematical values.
    pub open spec fn entries(self) -> Seq<RegEntryV> {
        self.registry@.map(|i: int, e: RegistryEntry| e@)
    }

    /// A fresh router: no sockets open, nothing registered.
    pub fn new(max_open_sockets: usize) -> (r: Smsc)
        ensures
            r.max_open_sockets == max_open_sockets,
            r.open_sockets == 0,
            r.entries() =~= Seq::<RegEntryV>::empty(),
    {
        Smsc { max_open_sockets, open_sockets: 0, registry: Vec::new() }
    }

    /// Admit one more connection unless the bound is reached: the
    /// bound is respected exactly.
    pub fn try_admit(&mut self) -> (r: bool)
        ensures
            (r, final(self).open_sockets as nat) == spec_try_admit(
                old(self).open_sockets as nat,
                old(self).max_open_sockets as nat,
            ),
            final(self).max_open_sockets == old(self).max_open_sockets,
            final(self).entries() == old(self).entries(),
    {
        if self.open_sockets < self.max_open_sockets {
            self.open_sockets = self.open_sockets + 1;
            true
        } else {
            false
        }
    }

    /// Give a connection's admission back when it closes.
    pub fn release(&mut self)
        ensures
            final(self).open_sockets == (if old(self).open_sockets > 0 {
                old(self).open_sockets - 1
            } else {
                0
            }),
            final(self).max_open_sockets == old(self).max_open_sockets,
            final(self).entries() == old(self).entries(),
    {
        if self.open_sockets > 0 {
            self.open_sockets = self.open_sockets - 1;
        }
    }

    /// Register a bound connection for a message the logic accepted.
    pub fn add_connection(&mut self, key: MessageUniqueKey, connection: u64)
        ensures
            final(self).entries() == spec_add(old(self).entries(), key@, connection),
            final(self).max_open_sockets == old(self).max_open_sockets,
            final(self).open_sockets == old(self).open_sockets,
    {
        let mut kept: Vec<RegistryEntry> = Vec::new();
        let n = self.registry.len();
        let mut i: usize = 0;
        while i < n
            invariant
                *self == *old(self),
                0 <= i <= n,
                n == self.registry@.len(),
                kept@.map(|k: int, e: RegistryEntry| e@) =~= spec_remove_mid(
                    self.registry@.map(|k: int, e: RegistryEntry| e@).take(i as int),
                    key@.message_id,
                ),
            decreases n - i,
        {
            let ghost pre = self.registry@.map(|k: int, e: RegistryEntry| e@).take(i as int);
            let e = self.registry[i].duplicate();
            proof {
                let cur = self.registry@.map(|k: int, e2: RegistryEntry| e2@).take(i + 1);
                assert(cur.drop_last() =~= pre);
                assert(cur.last() == self.registry@[i as int]@);
            }
            if !(e.key.message_id == key.message_id) {
                proof {
                    assert(e@ == self.registry@[i as int]@);
                }
                kept.push(e);
            } else {
                proof {
                    assert(e@.key.message_id == key@.message_id);
                }
            }
            i += 1;
        }
        proof {
            assert(self.registry@.map(|k: int, e: RegistryEntry| e@).take(n as int) =~= self
                .registry@.map(|k: int, e: RegistryEntry| e@));
        }
        kept.push(RegistryEntry { key, connection });
        self.registry = kept;
        proof {
            assert(final(self).entries() =~= spec_add(old(self).entries(), key@, connection));
        }
    }

    /// Forget one message once its delivery has been emitted: every
    /// delivery is attempted once.
    pub fn remove_message(&mut self, message_id: &str)
        ensures
            final(self).entries() == spec_remove_mid(old(self).entries(), message_id@),
            final(self).max_open_sockets == old(self).max_open_sockets,
            final(self).open_sockets == old(self).open_sockets,
    {
        let mid = String::from_str(message_id);
        let mut kept: Vec<RegistryEntry> = Vec::new();
        let n = self.registry.len();
        let mut i: usize = 0;
        while i < n
            invariant
                *self == *old(self),
                mid@ == message_id@,
                0 <= i <= n,
                n == self.registry@.len(),
                kept@.map(|k: int, e: RegistryEntry| e@) =~= spec_remove_mid(
                    self.registry@.map(|k: int, e: RegistryEntry| e@).take(i as int),
                    message_id@,
                ),
            decreases n - i,
        {
            let ghost pre = self.registry@.map(|k: int, e: RegistryEntry| e@).take(i as int);
            let e = self.registry[i].duplicate();
            proof {
                let cur = self.registry@.map(|k: int, e2: RegistryEntry| e2@).take(i + 1);
                assert(cur.drop_last() =~= pre);
                assert(cur.last() == self.registry@[i as int]@);
            }
            if !(e.key.message_id == mid) {
                proof {
                    assert(e@ == self.registry@[i as int]@);
                }
                kept.push(e);
            }
            i += 1;
        }
        proof {
            assert(self.registry@.map(|k: int, e: RegistryEntry| e@).take(n as int) =~= self
                .registry@.map(|k: int, e: RegistryEntry| e@));
        }
        self.registry = kept;
        proof {
            assert(final(self).entries() =~= spec_remove_mid(old(self).entries(), message_id@));
        }
    }

    /// Drop every registration a closed connection held.
    pub fn remove_connection(&mut self, connection: u64)
        ensures
            final(self).entries() == spec_remove_conn(old(self).entries(), connection),
            final(self).max_open_sockets == old(self).max_open_sockets,
            final(self).open_sockets == old(self).open_sockets,
    {
        let mut kept: Vec<RegistryEntry> = Vec::new();
        let n = self.registry.len();
        let mut i: usize = 0;
        while i < n
            invariant
                *self == *old(self),
                0 <= i <= n,
                n == self.registry@.len(),
                kept@.map(|k: int, e: RegistryEntry| e@) =~= spec_remove_conn(
                    self.registry@.map(|k: int, e: RegistryEntry| e@).take(i as int),
                    connection,
                ),
            decreases n - i,
        {
            let ghost pre = self.registry@.map(|k: int, e: RegistryEntry| e@).take(i as int);
            let e = self.registry[i].duplicate();
            proof {
                let cur = self.registry@.map(|k: int, e2: RegistryEntry| e2@).take(i + 1);
                assert(cur.drop_last() =~= pre);
                assert(cur.last() == self.registry@[i as int]@);
            }
            if e.connection != connection {
                proof {
                    assert(e@ == self.registry@[i as int]@);
                }
                kept.push(e);
            }
            i += 1;
        }
        proof {
            assert(self.registry@.map(|k: int, e: RegistryEntry| e@).take(n as int) =~= self
                .registry@.map(|k: int, e: RegistryEntry| e@));
        }
        self.registry = kept;
        proof {
            assert(final(self).entries() =~= spec_remove_conn(old(self).entries(), connection));
        }
    }

    /// The connection registered for a message id, if any.
    pub fn connection_for_message_id(&self, message_id: &str) -> (r: Option<u64>)
        ensures
            r == spec_lookup(self.entries(), message_id@),
    {
        let mid = String::from_str(message_id);
        let n = self.registry.len();
        proof {
            assert(self.entries().take(n as int) =~= self.entries());
        }
        let mut i: usize = n;
        while i > 0
            invariant
                0 <= i <= n,
                n == self.registry@.len(),
                mid@ == message_id@,
                spec_lookup(self.entries(), message_id@) == spec_lookup(
                    self.entries().take(i as int),
                    message_id@,
                ),
            decreases i,
        {
            proof {
                let cur = self.entries().take(i as int);
                assert(cur.drop_last() =~= self.entries().take(i - 1));
                assert(cur.last() == self.entries()[i - 1]);
            }
            let e = &self.registry[i - 1];
            if e.key.message_id == mid {
                return Some(e.connection);
            }
            i -= 1;
        }
        proof {
            assert(self.entries().take(0) =~= Seq::<RegEntryV>::empty());
        }
        None
    }

    /// The entry point for inbound traffic: decide which connection an
    /// injected PDU must be written to.  Only a `deliver_sm` whose
    /// short message names a registered message can be routed.
    pub fn receive_pdu(&self, pdu: &Pdu) -> (r: Result<u64, RouterError>)
        ensures
            match pdu@.body {
                PduBodyV::DeliverSm(sm) => match spec_extract_receipted_message_id(
                    sm.short_message,
                ) {
                    Some(mid) => match spec_lookup(self.entries(), mid) {
                        Some(c) => r == Ok::<u64, RouterError>(c),
                        None => r == Err::<u64, RouterError>(RouterError::UnknownMessage),
                    },
                    None => r == Err::<u64, RouterError>(RouterError::UnknownMessage),
                },
                _ => r == Err::<u64, RouterError>(RouterError::UnexpectedPduType),
            },
    {
        match pdu.body() {
            PduBody::DeliverSm(body) => match body.extract_receipted_message_id() {
                Some(message_id) => match self.connection_for_message_id(message_id.as_str()) {
                    Some(c) => Ok(c),
                    None => Err(RouterError::UnknownMessage),
                },
                None => Err(RouterError::UnknownMessage),
            },
            _ => Err(RouterError::UnexpectedPduType),
        }
    }
}

} // verus!
