//! The in-memory registry of agent connections, service registrations and
//! outbound senders. `S` is the type of a connection's send endpoint.
use crate::error::IngressError;
use crate::types::{ConnectionInfo, ServiceRegistration};
use std::collections::HashMap;
use vstd::prelude::*;

verus! {

broadcast use vstd::std_specs::hash::group_hash_axioms;

/// The registration table holds each owner id at most once.
pub open spec fn unique_ids(regs: Seq<ServiceRegistration>) -> bool {
    forall|i: int, j: int| 0 <= i < j < regs.len() ==> regs[i].id != regs[j].id
}

/// Some registration in the table is owned by `id`.
pub open spec fn has_registration(regs: Seq<ServiceRegistration>, id: u128) -> bool {
    exists|i: int| 0 <= i < regs.len() && regs[i].id == id
}

/// `new` is `old` with the registration owned by `id`, if any, removed.
pub open spec fn without_owner(old: Seq<ServiceRegistration>, new: Seq<ServiceRegistration>, id: u128) -> bool {
    &&& !has_registration(new, id)
    &&& forall|r: ServiceRegistration| r.id != id ==> (old.contains(r) <==> new.contains(r))
}

pub struct DefaultRegistry<S> {
    pub connections: HashMap<u128, ConnectionInfo>,
    pub registrations: Vec<ServiceRegistration>,
    pub connection_senders: HashMap<u128, S>,
}

impl<S> DefaultRegistry<S> {
    /// Well-formed: owner ids are unique in the registration table.
    pub open spec fn wf(&self) -> bool {
        unique_ids(self.registrations@)
    }

    pub fn new() -> (r: Self)
        ensures
            r.wf(),
            r.connections@ == Map::<u128, ConnectionInfo>::empty(),
            r.registrations@ == Seq::<ServiceRegistration>::empty(),
            r.connection_senders@ == Map::<u128, S>::empty(),
    {
        DefaultRegistry {
            connections: HashMap::new(),
            registrations: Vec::new(),
            connection_senders: HashMap::new(),
        }
    }

    fn position_of(&self, id: u128) -> (r: Option<usize>)
        ensures
            match r {
                Some(i) => i < self.registrations@.len() && self.registrations@[i as int].id == id,
                None => !has_registration(self.registrations@, id),
            },
    {
        let n = self.registrations.len();
        let mut i: usize = 0;
        while i < n
            invariant
                n == self.registrations@.len(),
                i <= n,
                forall|j: int| 0 <= j < i ==> self.registrations@[j].id != id,
            decreases n - i,
        {
            if self.registrations[i].id == id {
                return Some(i);
            }
            i = i + 1;
        }
        None
    }

    fn remove_registration(&mut self, id: u128)
        requires
            old(self).wf(),
        ensures
            final(self).wf(),
            without_owner(old(self).registrations@, final(self).registrations@, id),
            final(self).connections == old(self).connections,
            final(self).connection_senders == old(self).connection_senders,
    {
        match self.position_of(id) {
            Some(i) => {
                let ghost before = self.registrations@;
                self.registrations.remove(i);
                let ghost after = self.registrations@;
                assert(after == before.remove(i as int));
                assert forall|r: ServiceRegistration| r.id != id implies (before.contains(r)
                    <==> after.contains(r)) by {
                    if before.contains(r) {
                        let k = choose|k: int| 0 <= k < before.len() && before[k] == r;
                        if k < i {
                            assert(after[k] == r);
                        } else {
                            assert(k != i);
                            assert(after[k - 1] == r);
                        }
                    }
                    if after.contains(r) {
                        let k = choose|k: int| 0 <= k < after.len() && after[k] == r;
                        if k < i {
                            assert(before[k] == r);
                        } else {
                            assert(before[k + 1] == r);
                        }
                    }
                }
                assert forall|k: int| 0 <= k < after.len() implies after[k].id != id by {
                    if k < i {
                        assert(before[k] == after[k]);
                    } else {
                        assert(before[k + 1] == after[k]);
                    }
                }
            },
            None => {},
        }
    }

    /// Stores the send endpoint of a newly accepted connection.
    pub fn register_connection(&mut self, connection_id: u128, sender: S) -> (r: Result<(), IngressError>)
        requires
            old(self).wf(),
        ensures
            final(self).wf(),
            r is Ok,
            final(self).connection_senders@ == old(self).connection_senders@.insert(connection_id, sender),
            final(self).connections == old(self).connections,
            final(self).registrations == old(self).registrations,
    {
        self.connection_senders.insert(connection_id, sender);
        Ok(())
    }

    /// Purges a connection from all three tables: its info, its
    /// registration, and its sender.
    pub fn remove_connection(&mut self, connection_id: u128) -> (r: Result<(), IngressError>)
        requires
            old(self).wf(),
        ensures
            final(self).wf(),
            r is Ok,
            final(self).connections@ == old(self).connections@.remove(connection_id),
            final(self).connection_senders@ == old(self).connection_senders@.remove(connection_id),
            without_owner(old(self).registrations@, final(self).registrations@, connection_id),
    {
        self.connections.remove(&connection_id);
        self.remove_registration(connection_id);
        self.connection_senders.remove(&connection_id);
        Ok(())
    }

    /// Records a registration under the owning connection id, replacing any
    /// earlier one of that connection, and refreshes the connection's info
    /// with `now` as its last heartbeat.
    pub fn register_service(&mut self, connection_id: u128, registration: ServiceRegistration, now: u64) -> (r: Result<(), IngressError>)
        requires
            old(self).wf(),
        ensures
            final(self).wf(),
            r is Ok,
            final(self).connections@.dom() == old(self).connections@.dom().insert(connection_id),
            forall|k: u128| k != connection_id && #[trigger] old(self).connections@.contains_key(k)
                ==> final(self).connections@[k] == old(self).connections@[k],
            ({
                let info = final(self).connections@[connection_id];
                &&& info.id == connection_id
                &&& info.last_heartbeat == now
                &&& info.host@ == registration.host@
                &&& info.service_name@ == registration.service_name@
                &&& info.port == registration.port
                &&& info.attributes@ == registration.attributes@
            }),
            final(self).connection_senders == old(self).connection_senders,
            exists|i: int|
                0 <= i < final(self).registrations@.len() && #[trigger] final(self).registrations@[i]
                    == (ServiceRegistration { id: connection_id, ..registration }),
            forall|r: ServiceRegistration| r.id != connection_id ==> (old(self).registrations@.contains(r)
                <==> final(self).registrations@.contains(r)),
    {
        let info = ConnectionInfo {
            id: connection_id,
            service_name: registration.service_name.clone(),
            host: registration.host.clone(),
            port: registration.port,
            last_heartbeat: now,
            attributes: registration.attributes.clone(),
        };
        self.connections.insert(connection_id, info);
        let mut reg = registration;
        reg.id = connection_id;
        let ghost before = self.registrations@;
        match self.position_of(connection_id) {
            Some(i) => {
                self.registrations[i] = reg;
                let ghost after = self.registrations@;
                assert(after[i as int] == reg);
                assert forall|r: ServiceRegistration| r.id != connection_id implies (before.contains(r)
                    <==> after.contains(r)) by {
                    if before.contains(r) {
                        let k = choose|k: int| 0 <= k < before.len() && before[k] == r;
                        assert(after[k] == r);
                    }
                    if after.contains(r) {
                        let k = choose|k: int| 0 <= k < after.len() && after[k] == r;
                        assert(before[k] == r);
                    }
                }
            },
            None => {
                self.registrations.push(reg);
                let ghost after = self.registrations@;
                assert(after[before.len() as int] == reg);
                assert forall|r: ServiceRegistration| r.id != connection_id implies (before.contains(r)
                    <==> after.contains(r)) by {
                    if before.contains(r) {
                        let k = choose|k: int| 0 <= k < before.len() && before[k] == r;
                        assert(after[k] == r);
                    }
                    if after.contains(r) {
                        let k = choose|k: int| 0 <= k < after.len() && after[k] == r;
                        assert(k < before.len());
                        assert(before[k] == r);
                    }
                }
            },
        }
        Ok(())
    }

    /// Removes the registration and the connection info of `service_id`.
    pub fn deregister_service(&mut self, service_id: u128) -> (r: Result<(), IngressError>)
        requires
            old(self).wf(),
        ensures
            final(self).wf(),
            r is Ok,
            without_owner(old(self).registrations@, final(self).registrations@, service_id),
            final(self).connections@ == old(self).connections@.remove(service_id),
            final(self).connection_senders == old(self).connection_senders,
    {
        self.remove_registration(service_id);
        self.connections.remove(&service_id);
        Ok(())
    }

    /// Sets the connection's last heartbeat to `now`; an unknown connection
    /// is an error and changes nothing.
    pub fn update_heartbeat(&mut self, connection_id: u128, now: u64) -> (r: Result<(), IngressError>)
        requires
            old(self).wf(),
        ensures
            final(self).wf(),
            final(self).registrations == old(self).registrations,
            final(self).connection_senders == old(self).connection_senders,
            old(self).connections@.contains_key(connection_id) ==> {
                &&& r is Ok
                &&& final(self).connections@ == old(self).connections@.insert(
                    connection_id,
                    ConnectionInfo { last_heartbeat: now, ..old(self).connections@[connection_id] },
                )
                &&& old(self).connections@[connection_id].last_heartbeat < now
                    ==> final(self).connections@[connection_id].last_heartbeat
                    > old(self).connections@[connection_id].last_heartbeat
            },
            !old(self).connections@.contains_key(connection_id) ==> {
                &&& r == Err::<(), IngressError>(IngressError::RegistryNotFound { entity_id: connection_id })
                &&& final(self).connections@ == old(self).connections@
            },
    {
        match self.connections.remove(&connection_id) {
            Some(info) => {
                let mut info = info;
                info.last_heartbeat = now;
                self.connections.insert(connection_id, info);
                Ok(())
            },
            None => Err(IngressError::registry_not_found(connection_id)),
        }
    }

    /// The send endpoint of a connection, if it is registered.
    pub fn get_connection_sender(&self, connection_id: u128) -> (r: Option<&S>)
        ensures
            match r {
                Some(s) => self.connection_senders@.contains_key(connection_id)
                    && *s == self.connection_senders@[connection_id],
                None => !self.connection_senders@.contains_key(connection_id),
            },
    {
        self.connection_senders.get(&connection_id)
    }

    /// All connection infos, by connection id.
    pub fn get_all_connections(&self) -> (r: &HashMap<u128, ConnectionInfo>)
        ensures
            r == &self.connections,
    {
        &self.connections
    }

    /// All registrations, in table order.
    pub fn get_all_registrations(&self) -> (r: &Vec<ServiceRegistration>)
        ensures
            r == &self.registrations,
    {
        &self.registrations
    }
}

impl<S> Default for DefaultRegistry<S> {
    fn default() -> (r: Self)
        ensures
            r.wf(),
            r.connections@ == Map::<u128, ConnectionInfo>::empty(),
            r.registrations@ == Seq::<ServiceRegistration>::empty(),
            r.connection_senders@ == Map::<u128, S>::empty(),
    {
        Self::new()
    }
}

} // verus!
