use vstd::prelude::*;
use crate::errors::RelayError;
use crate::transfer::{Transfer, TransferModel};

verus! {

/// One live registration: a caller-chosen id and its transfer record.
pub struct Registration {
    pub id: String,
    pub transfer: Transfer,
}

/// One line of the status snapshot: a live id and its age in seconds.
pub struct TransferStatus {
    pub id: String,
    pub age_secs: u64,
}

/// The registry of in-flight transfers: at most one live transfer per id.
/// The abstract state is a map from id to `TransferModel`; every
/// operation states exactly how it moves that map. Callers that share the
/// registry across requests serialize access to it; each operation here
/// is one atomic step of the rendezvous protocol, so in particular
/// `register` is a single check-and-insert with no race window between
/// the check and the insert.
pub struct Registry {
    pub entries: Vec<Registration>,
    /// Age ceiling, in seconds, past which the sweeper evicts an entry.
    pub max_wait_secs: u64,
}

impl View for Registry {
    type V = Map<Seq<char>, TransferModel>;

    /// The abstract state: the finite map of live ids to the abstract
    /// state of their transfers.
    open spec fn view(&self) -> Map<Seq<char>, TransferModel> {
        Map::new(|id: Seq<char>| self.contains_id(id), |id: Seq<char>| self.model_of(id))
    }
}

impl Registry {
    /// The view's domain is exactly the set of live ids, and each live
    /// id is bound to the abstract state of its transfer.
    pub broadcast proof fn lemma_view_maps_ids(r: Registry, k: Seq<char>)
        ensures
            #[trigger] r@.contains_key(k) == r.contains_id(k),
            r.contains_id(k) ==> r@[k] == r.model_of(k),
    {
        let fk = |id: Seq<char>| r.contains_id(id);
        let fv = |id: Seq<char>| r.model_of(id);
        assert(Set::new(fk).mk_map(fv).dom() == Set::new(fk));
        assert(Set::new(fk).contains(k) == fk(k));
        if r.contains_id(k) {
            assert(Set::new(fk).mk_map(fv)[k] == fv(k));
        }
    }

    /// Well-formed: no two entries share an id, so the map view loses
    /// nothing.
    pub open spec fn wf(self) -> bool {
        forall|i: int, j: int|
            0 <= i < j < self.entries@.len() ==> self.entries@[i].id@ != self.entries@[j].id@
    }

    /// Whether some live entry holds this id.
    pub open spec fn contains_id(self, id: Seq<char>) -> bool {
        exists|i: int| 0 <= i < self.entries@.len() && self.entries@[i].id@ == id
    }

    /// The position of the entry holding this id (meaningful when
    /// `contains_id` holds and the registry is well-formed).
    pub open spec fn index_of(self, id: Seq<char>) -> int {
        choose|i: int| 0 <= i < self.entries@.len() && self.entries@[i].id@ == id
    }

    /// The abstract state of the entry holding this id.
    pub open spec fn model_of(self, id: Seq<char>) -> TransferModel {
        self.entries@[self.index_of(id)].transfer@
    }

    /// The concrete body handle stored for this id.
    pub open spec fn body_of(self, id: Seq<char>) -> axum::body::Body {
        self.entries@[self.index_of(id)].transfer.body->0
    }

    /// Number of live entries.
    pub open spec fn active_count(self) -> nat {
        self.entries@.len()
    }

    /// In a well-formed registry, an entry's position determines
    /// `index_of` its id: there can be no second entry with the same id.
    pub proof fn lemma_found_index(self, i: int, id: Seq<char>)
        requires
            self.wf(),
            0 <= i < self.entries@.len(),
            self.entries@[i].id@ == id,
        ensures
            self.contains_id(id),
            self.index_of(id) == i,
    {
        assert(self.contains_id(id));
        let j = self.index_of(id);
        assert(0 <= j < self.entries@.len() && self.entries@[j].id@ == id);
        if j < i {
            assert(self.entries@[j].id@ != self.entries@[i].id@);
        } else if i < j {
            assert(self.entries@[i].id@ != self.entries@[j].id@);
        }
    }

    /// An empty registry with the given age ceiling.
    pub fn new(max_wait_secs: u64) -> (r: Registry)
        ensures
            r.wf(),
            r@ == Map::<Seq<char>, TransferModel>::empty(),
            r.active_count() == 0,
            r.max_wait_secs == max_wait_secs,
    {
        let r = Registry { entries: Vec::new(), max_wait_secs };
        proof {
            assert(r@ =~= Map::<Seq<char>, TransferModel>::empty());
        }
        r
    }

    /// Position of the entry holding `id`, or `None` if no entry does.
    fn find_index(&self, id: &String) -> (r: Option<usize>)
        ensures
            match r {
                Some(i) => i < self.entries@.len() && self.entries@[i as int].id@ == id@,
                None => !self.contains_id(id@),
            },
    {
        let n = self.entries.len();
        let mut i: usize = 0;
        while i < n
            invariant
                n == self.entries@.len(),
                i <= n,
                forall|j: int| 0 <= j < i ==> self.entries@[j].id@ != id@,
            decreases n - i,
        {
            if self.entries[i].id == *id {
                return Some(i);
            }
            i += 1;
        }
        None
    }

    /// Whether a live transfer currently holds this id.
    pub fn contains(&self, id: &String) -> (r: bool)
        ensures
            r == self@.contains_key(id@),
    {
        match self.find_index(id) {
            Some(i) => {
                proof {
                    assert(self.contains_id(id@));
                }
                true
            },
            None => false,
        }
    }

    /// Number of live transfers.
    pub fn len(&self) -> (r: usize)
        ensures
            r == self.active_count(),
    {
        self.entries.len()
    }

    /// Registers a transfer under `id` at time `now`. This is the atomic
    /// create-if-absent step: if the id is live the caller gets
    /// `IdConflict` and nothing changes; otherwise a fresh record is
    /// inserted and the caller gets the consuming halves of its two
    /// signals, to be awaited by the sender's supervisor.
    pub fn register(&mut self, id: String, now: u64) -> (r: Result<
        (tokio::sync::oneshot::Receiver<()>, tokio::sync::oneshot::Receiver<u64>),
        RelayError,
    >)
        requires
            old(self).wf(),
        ensures
            final(self).wf(),
            final(self).max_wait_secs == old(self).max_wait_secs,
            old(self)@.contains_key(id@) ==> r == Err::<
                (tokio::sync::oneshot::Receiver<()>, tokio::sync::oneshot::Receiver<u64>),
                RelayError,
            >(RelayError::IdConflict) && *final(self) == *old(self),
            !old(self)@.contains_key(id@) ==> r is Ok && final(self)@ == old(self)@.insert(
                id@,
                TransferModel::fresh(now),
            ) && final(self).active_count() == old(self).active_count() + 1,
    {
        match self.find_index(&id) {
            Some(i) => {
                proof {
                    assert(self.contains_id(id@));
                }
                Err(RelayError::IdConflict)
            },
            None => {
                let (t, ready_rx, done_rx) = Transfer::new(now);
                let ghost old_entries = self.entries@;
                self.entries.push(Registration { id, transfer: t });
                proof {
                    let n = old_entries.len() as int;
                    assert forall|a: int, b: int|
                        0 <= a < b < self.entries@.len() implies self.entries@[a].id@
                        != self.entries@[b].id@ by {
                        if b < n {
                            assert(old(self).entries@[a].id@ != old(self).entries@[b].id@);
                        } else {
                            assert(self.entries@[b].id@ == old_entries[a].id@ ==> old(
                                self,
                            ).contains_id(self.entries@[b].id@));
                        }
                    }
                    assert(self@ =~= old(self)@.insert(id@, TransferModel::fresh(now))) by {
                        self.lemma_found_index(n, self.entries@[n].id@);
                        assert forall|k: Seq<char>| #[trigger] old(self)@.insert(
                            id@,
                            TransferModel::fresh(now),
                        ).contains_key(k) implies self@.contains_key(k) && self@[k] == old(
                            self,
                        )@.insert(id@, TransferModel::fresh(now))[k] by {
                            if k == self.entries@[n].id@ {
                                self.lemma_found_index(n, k);
                            } else {
                                let w = old(self).index_of(k);
                                assert(old(self).entries@[w].id@ == k);
                                old(self).lemma_found_index(w, k);
                                self.lemma_found_index(w, k);
                            }
                        }
                        assert forall|k: Seq<char>| #[trigger] self@.contains_key(k) implies old(
                            self,
                        )@.insert(id@, TransferModel::fresh(now)).contains_key(k) by {
                            let w = self.index_of(k);
                            self.lemma_found_index(w, k);
                            if w < n {
                                old(self).lemma_found_index(w, k);
                            }
                        }
                    }
                }
                Ok((ready_rx, done_rx))
            },
        }
    }

    /// Attaches the sender's inbound byte stream to its registered
    /// transfer. In the intended order this directly follows `register`;
    /// the transfer may nonetheless have been evicted in between, in
    /// which case the caller gets `NotFound` and nothing changes.
    pub fn attach_body(&mut self, id: &String, body: axum::body::Body) -> (r: Result<
        (),
        RelayError,
    >)
        requires
            old(self).wf(),
        ensures
            final(self).wf(),
            final(self).max_wait_secs == old(self).max_wait_secs,
            !old(self)@.contains_key(id@) ==> r == Err::<(), RelayError>(RelayError::NotFound)
                && *final(self) == *old(self),
            old(self)@.contains_key(id@) ==> r == Ok::<(), RelayError>(()) && final(self)@ == old(
                self,
            )@.insert(
                id@,
                TransferModel { body_attached: true, ..old(self)@[id@] },
            ) && final(self).body_of(id@) == body && final(self).active_count() == old(
                self,
            ).active_count(),
    {
        match self.find_index(id) {
            None => Err(RelayError::NotFound),
            Some(i) => {
                proof {
                    self.lemma_found_index(i as int, id@);
                }
                self.entries[i].transfer.body = Some(body);
                proof {
                    self.lemma_same_ids_view(*old(self), i as int, id@);
                }
                Ok(())
            },
        }
    }

    /// Pairs a receiver with the transfer under `id`: consumes the
    /// readiness signal (firing it, so the waiting sender wakes) and
    /// claims the body handle together with the completion producer.
    /// Exactly the first receiver succeeds: once the readiness signal is
    /// gone every later claim gets `AlreadyPaired`. A transfer whose body
    /// was never attached yields `SenderNotReady`.
    pub fn claim(&mut self, id: &String) -> (r: Result<
        (axum::body::Body, Option<tokio::sync::oneshot::Sender<u64>>),
        RelayError,
    >)
        requires
            old(self).wf(),
        ensures
            final(self).wf(),
            final(self).max_wait_secs == old(self).max_wait_secs,
            !old(self)@.contains_key(id@) ==> (r matches Err(e) && e == RelayError::NotFound)
                && *final(self) == *old(self),
            old(self)@.contains_key(id@) && !old(self)@[id@].ready_armed ==> (r matches Err(e)
                && e == RelayError::AlreadyPaired) && *final(self) == *old(self),
            old(self)@.contains_key(id@) && old(self)@[id@].ready_armed && !old(
                self,
            )@[id@].body_attached ==> (r matches Err(e) && e == RelayError::SenderNotReady)
                && final(self)@ == old(self)@.insert(
                id@,
                TransferModel { ready_armed: false, ..old(self)@[id@] },
            ) && final(self).active_count() == old(self).active_count(),
            old(self)@.contains_key(id@) && old(self)@[id@].ready_armed && old(
                self,
            )@[id@].body_attached ==> (r matches Ok(p) && p.0 == old(self).body_of(id@) && (p.1
                is Some <==> old(self)@[id@].done_armed)) && final(self)@ == old(self)@.insert(
                id@,
                TransferModel {
                    ready_armed: false,
                    done_armed: false,
                    body_attached: false,
                    created_at: old(self)@[id@].created_at,
                },
            ) && final(self).active_count() == old(self).active_count(),
    {
        match self.find_index(id) {
            None => Err(RelayError::NotFound),
            Some(i) => {
                proof {
                    self.lemma_found_index(i as int, id@);
                }
                if !self.entries[i].transfer.ready_tx.is_some() {
                    Err(RelayError::AlreadyPaired)
                } else {
                    let tx = self.entries[i].transfer.ready_tx.take().unwrap();
                    let _heard = crate::signal::fire_ready(tx);
                    let claimed = self.entries[i].transfer.body.take();
                    match claimed {
                        None => {
                            proof {
                                self.lemma_same_ids_view(*old(self), i as int, id@);
                            }
                            Err(RelayError::SenderNotReady)
                        },
                        Some(b) => {
                            let done = self.entries[i].transfer.done_tx.take();
                            proof {
                                self.lemma_same_ids_view(*old(self), i as int, id@);
                            }
                            Ok((b, done))
                        },
                    }
                }
            },
        }
    }

    /// Removes the entry under `id`, dropping whatever single-use
    /// resources it still holds; absent ids are left alone, so removal is
    /// idempotent. Dropping an unfired completion producer is what a
    /// waiting sender observes as failure.
    pub fn remove(&mut self, id: &String)
        requires
            old(self).wf(),
        ensures
            final(self).wf(),
            final(self).max_wait_secs == old(self).max_wait_secs,
            final(self)@ == old(self)@.remove(id@),
            old(self)@.contains_key(id@) ==> final(self).active_count() == old(self).active_count()
                - 1,
            !old(self)@.contains_key(id@) ==> *final(self) == *old(self),
    {
        match self.find_index(id) {
            None => {
                proof {
                    assert(self@ =~= old(self)@.remove(id@));
                }
            },
            Some(i) => {
                proof {
                    self.lemma_found_index(i as int, id@);
                }
                let _evicted = self.entries.remove(i);
                proof {
                    self.lemma_remove_at_view(*old(self), i as int);
                }
            },
        }
    }

    /// Removing the entry at position `i` takes exactly its id out of the
    /// map view and leaves every other binding in place.
    proof fn lemma_remove_at_view(self, pre: Registry, i: int)
        requires
            pre.wf(),
            0 <= i < pre.entries@.len(),
            self.entries@ == pre.entries@.remove(i),
        ensures
            self.wf(),
            self@ == pre@.remove(pre.entries@[i].id@),
    {
        let id = pre.entries@[i].id@;
        assert forall|a: int, b: int|
            0 <= a < b < self.entries@.len() implies self.entries@[a].id@
            != self.entries@[b].id@ by {
            let a0 = if a < i { a } else { a + 1 };
            let b0 = if b < i { b } else { b + 1 };
            assert(pre.entries@[a0].id@ != pre.entries@[b0].id@);
        }
        assert(self@ =~= pre@.remove(id)) by {
            assert forall|k: Seq<char>| #[trigger] self@.contains_key(k) implies pre@.remove(
                id,
            ).contains_key(k) && self@[k] == pre@.remove(id)[k] by {
                let w = self.index_of(k);
                self.lemma_found_index(w, k);
                let w0 = if w < i { w } else { w + 1 };
                assert(pre.entries@[w0].id@ == k);
                pre.lemma_found_index(w0, k);
                if w0 == i {
                    pre.lemma_found_index(i, id);
                }
            }
            assert forall|k: Seq<char>| #[trigger] pre@.remove(id).contains_key(
                k,
            ) implies self@.contains_key(k) by {
                let w0 = pre.index_of(k);
                pre.lemma_found_index(w0, k);
                if w0 == i {
                    pre.lemma_found_index(i, id);
                }
                let w = if w0 < i { w0 } else { w0 - 1 };
                assert(self.entries@[w].id@ == k);
                self.lemma_found_index(w, k);
            }
        }
    }

    /// One pass of the expiry sweeper at time `now`: evicts every entry
    /// whose age exceeds the registry's ceiling, in any state, and
    /// reports how many were evicted. Entries that stay are untouched.
    /// This is the backstop for senders whose own timeout path never ran.
    #[verifier::rlimit(100)]
    pub fn sweep(&mut self, now: u64) -> (evicted: usize)
        requires
            old(self).wf(),
        ensures
            final(self).wf(),
            final(self).max_wait_secs == old(self).max_wait_secs,
            forall|k: Seq<char>|
                final(self)@.contains_key(k) <==> (old(self)@.contains_key(k) && !old(
                    self,
                )@[k].is_expired(now, old(self).max_wait_secs)),
            forall|k: Seq<char>| #[trigger]
                final(self)@.contains_key(k) ==> final(self)@[k] == old(self)@[k],
            final(self).active_count() + evicted == old(self).active_count(),
    {
        let ghost pre = *old(self);
        let n0 = self.entries.len();
        let mut i: usize = 0;
        let mut evicted: usize = 0;
        while i < self.entries.len()
            invariant
                self.wf(),
                self.max_wait_secs == pre.max_wait_secs,
                pre.wf(),
                i <= self.entries@.len(),
                n0 == pre.entries@.len(),
                self.entries@.len() + evicted == n0,
                forall|k: Seq<char>| #[trigger]
                    self@.contains_key(k) ==> pre@.contains_key(k) && self@[k] == pre@[k],
                forall|k: Seq<char>| #[trigger]
                    pre@.contains_key(k) && !pre@[k].is_expired(now, pre.max_wait_secs)
                        ==> self@.contains_key(k),
                forall|j: int|
                    0 <= j < i ==> !(#[trigger] self.entries@[j]).transfer@.is_expired(
                        now,
                        pre.max_wait_secs,
                    ),
            decreases self.entries@.len() - i,
        {
            let ghost mid = *self;
            let ghost vid = self.entries@[i as int].id@;
            proof {
                self.lemma_found_index(i as int, vid);
            }
            let expired = self.entries[i].transfer.is_expired(now, self.max_wait_secs);
            if expired {
                let _evicted_entry = self.entries.remove(i);
                evicted = evicted + 1;
                proof {
                    self.lemma_remove_at_view(mid, i as int);
                    assert(self@ == mid@.remove(vid));
                    assert(mid@[vid].is_expired(now, pre.max_wait_secs));
                }
            } else {
                i = i + 1;
            }
        }
        proof {
            assert forall|k: Seq<char>| #[trigger] self@.contains_key(k) implies !pre
                @[k].is_expired(now, pre.max_wait_secs) by {
                let w = self.index_of(k);
                self.lemma_found_index(w, k);
            }
        }
        evicted
    }

    /// A read-only snapshot of the live transfers at time `now`: every
    /// live id, each with its age in seconds. JSON shaping is left to the
    /// boundary.
    pub fn enumerate(&self, now: u64) -> (r: Vec<TransferStatus>)
        requires
            self.wf(),
        ensures
            r@.len() == self.active_count(),
            forall|j: int|
                0 <= j < r@.len() ==> self@.contains_key(#[trigger] r@[j].id@) && r@[j].age_secs
                    == self@[r@[j].id@].age_secs(now),
            forall|k: Seq<char>| #[trigger]
                self@.contains_key(k) ==> exists|j: int| 0 <= j < r@.len() && r@[j].id@ == k,
            forall|j1: int, j2: int| 0 <= j1 < j2 < r@.len() ==> r@[j1].id@ != r@[j2].id@,
    {
        let n = self.entries.len();
        let mut r: Vec<TransferStatus> = Vec::new();
        let mut i: usize = 0;
        while i < n
            invariant
                self.wf(),
                n == self.entries@.len(),
                i <= n,
                r@.len() == i,
                forall|j: int|
                    0 <= j < i ==> (#[trigger] r@[j]).id@ == self.entries@[j].id@ && r@[j].age_secs
                        == self.entries@[j].transfer@.age_secs(now),
            decreases n - i,
        {
            let age = self.entries[i].transfer.age_secs(now);
            r.push(TransferStatus { id: self.entries[i].id.clone(), age_secs: age });
            i += 1;
        }
        proof {
            assert forall|j: int|
                0 <= j < r@.len() implies self@.contains_key(#[trigger] r@[j].id@) && r@[j].age_secs
                == self@[r@[j].id@].age_secs(now) by {
                self.lemma_found_index(j, r@[j].id@);
            }
            assert forall|k: Seq<char>| #[trigger] self@.contains_key(k) implies exists|j: int|
                0 <= j < r@.len() && r@[j].id@ == k by {
                let w = self.index_of(k);
                self.lemma_found_index(w, k);
                assert(r@[w].id@ == k);
            }
        }
        r
    }

    /// Of two registrations of one id, only one can succeed. A
    /// successful `register` leaves the registry in a state (`r1`) where
    /// the id is live — and on a live id, `register`'s contract forces
    /// the `IdConflict` result and an unchanged registry. So the loser of
    /// a race on one id always observes `IdConflict`.
    pub proof fn lemma_registration_single_winner(r0: Registry, r1: Registry, id: Seq<char>, now: u64)
        requires
            !r0@.contains_key(id),
            r1@ == r0@.insert(id, TransferModel::fresh(now)),
        ensures
            r1@.contains_key(id),
    {
        assert(r1@.contains_key(id));
    }

    /// Pairing is single-use. A successful `claim` leaves the registry in
    /// a state (`r1`) where the id is still live but its readiness signal
    /// is disarmed — and on such a transfer, `claim`'s contract forces
    /// the `AlreadyPaired` result and an unchanged registry. So of two
    /// receivers racing on one created transfer, exactly one drains it
    /// and the other observes `AlreadyPaired`.
    pub proof fn lemma_pairing_single_use(r0: Registry, r1: Registry, id: Seq<char>)
        requires
            r0@.contains_key(id),
            r0@[id].is_created(),
            r0@[id].body_attached,
            r1@ == r0@.insert(
                id,
                TransferModel {
                    ready_armed: false,
                    done_armed: false,
                    body_attached: false,
                    created_at: r0@[id].created_at,
                },
            ),
        ensures
            r1@.contains_key(id),
            r1@[id].is_paired(),
    {
        assert(r1@.contains_key(id));
    }

    /// A purged id is fully reusable. After `remove` — however the
    /// transfer ended: timeout, failure, mid-drain abort or sweep — the
    /// id is no longer live, so a later `claim` observes `NotFound` (not
    /// `AlreadyPaired`) and a later `register` of the same id succeeds,
    /// both by the contracts of those operations.
    pub proof fn lemma_removed_id_reusable(r0: Registry, r1: Registry, id: Seq<char>)
        requires
            r1@ == r0@.remove(id),
        ensures
            !r1@.contains_key(id),
    {
        assert(!r1@.contains_key(id));
    }

    /// After an update that leaves every id in place and changes only the
    /// transfer at position `i`, the map view is the old view with that
    /// one id rebound to the new model.
    proof fn lemma_same_ids_view(self, pre: Registry, i: int, id: Seq<char>)
        requires
            pre.wf(),
            self.entries@.len() == pre.entries@.len(),
            forall|j: int| 0 <= j < pre.entries@.len() ==> self.entries@[j].id == pre.entries@[j].id,
            0 <= i < pre.entries@.len(),
            pre.entries@[i].id@ == id,
            forall|j: int|
                0 <= j < pre.entries@.len() && j != i ==> self.entries@[j] == pre.entries@[j],
        ensures
            self.wf(),
            self@ == pre@.insert(id, self.entries@[i].transfer@),
    {
        assert forall|a: int, b: int|
            0 <= a < b < self.entries@.len() implies self.entries@[a].id@
            != self.entries@[b].id@ by {
            assert(pre.entries@[a].id@ != pre.entries@[b].id@);
        }
        assert(self@ =~= pre@.insert(id, self.entries@[i].transfer@)) by {
            assert forall|k: Seq<char>| #[trigger] self@.contains_key(k) implies pre@.insert(
                id,
                self.entries@[i].transfer@,
            ).contains_key(k) && self@[k] == pre@.insert(id, self.entries@[i].transfer@)[k] by {
                let w = self.index_of(k);
                self.lemma_found_index(w, k);
                assert(pre.entries@[w].id@ == k);
                pre.lemma_found_index(w, k);
            }
            assert forall|k: Seq<char>| #[trigger] pre@.insert(
                id,
                self.entries@[i].transfer@,
            ).contains_key(k) implies self@.contains_key(k) by {
                if k == id {
                    self.lemma_found_index(i, k);
                } else {
                    let w = pre.index_of(k);
                    pre.lemma_found_index(w, k);
                    assert(self.entries@[w].id@ == k);
                    self.lemma_found_index(w, k);
                }
            }
        }
    }
}

} // verus!
