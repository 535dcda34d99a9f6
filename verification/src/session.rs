//! Session Registry: the in-memory map of active secure channels.
//!
//! A session pairs a TEE-issued 32-byte id with a wall-clock expiry.
//! Registration assigns `now + default_ttl`; expiry is checked lazily on
//! lookup, and an expired record is removed on the spot so that the caller
//! can notify the TEE exactly once.

use vstd::prelude::*;
use crate::bytes::bytes_eq;
use vstd::slice::slice_to_vec;

verus! {

/// One live secure channel: its id and the instant it expires.
pub struct SessionEntry {
    pub id: Vec<u8>,
    pub expires_at: u64,
}

/// Well-formed registry contents: ids are 32 bytes and pairwise distinct.
pub open spec fn entries_wf(es: Seq<SessionEntry>) -> bool {
    &&& forall|i: int| 0 <= i < es.len() ==> (#[trigger] es[i].id)@.len() == 32
    &&& forall|i: int, j: int| 0 <= i < j < es.len() ==> (#[trigger] es[i].id)@ != (#[trigger] es[j].id)@
}

/// Whether some entry carries the given session id.
pub open spec fn entries_have(es: Seq<SessionEntry>, sid: Seq<u8>) -> bool {
    exists|i: int| 0 <= i < es.len() && (#[trigger] es[i].id)@ == sid
}

/// The expiry recorded for the given session id.
pub open spec fn entries_expiry(es: Seq<SessionEntry>, sid: Seq<u8>) -> u64 {
    es[choose|i: int| 0 <= i < es.len() && (#[trigger] es[i].id)@ == sid].expires_at
}

proof fn lemma_entry_resolves(es: Seq<SessionEntry>, i: int)
    requires
        entries_wf(es),
        0 <= i < es.len(),
    ensures
        entries_have(es, es[i].id@),
        entries_expiry(es, es[i].id@) == es[i].expires_at,
{
    let sid = es[i].id@;
    let j = choose|j: int| 0 <= j < es.len() && (#[trigger] es[j].id)@ == sid;
    if i != j {
        assert(es[i].id@ != es[j].id@);
    }
}

proof fn lemma_remove_frame(es: Seq<SessionEntry>, idx: int, o: Seq<u8>)
    requires
        entries_wf(es),
        0 <= idx < es.len(),
    ensures
        entries_wf(es.remove(idx)),
        o != es[idx].id@ ==> entries_have(es.remove(idx), o) == entries_have(es, o),
        o != es[idx].id@ && entries_have(es, o) ==> entries_expiry(es.remove(idx), o)
            == entries_expiry(es, o),
        !entries_have(es.remove(idx), es[idx].id@),
{
    let r = es.remove(idx);
    assert forall|i: int| 0 <= i < r.len() implies (#[trigger] r[i].id)@.len() == 32 by {
        if i < idx {
            assert(r[i] == es[i]);
        } else {
            assert(r[i] == es[i + 1]);
        }
    }
    if o != es[idx].id@ && entries_have(es, o) {
        let i = choose|i: int| 0 <= i < es.len() && (#[trigger] es[i].id)@ == o;
        lemma_entry_resolves(es, i);
        let k: int = if i < idx { i } else { i - 1 };
        assert(r[k] == es[i]);
        lemma_entry_resolves(r, k);
    }
    if o != es[idx].id@ && entries_have(r, o) {
        let k = choose|k: int| 0 <= k < r.len() && (#[trigger] r[k].id)@ == o;
        let i: int = if k < idx { k } else { k + 1 };
        assert(r[k] == es[i]);
        assert(entries_have(es, o));
    }
    if entries_have(r, es[idx].id@) {
        let k = choose|k: int| 0 <= k < r.len() && (#[trigger] r[k].id)@ == es[idx].id@;
        let i: int = if k < idx { k } else { k + 1 };
        assert(r[k] == es[i]);
        assert(es[i].id@ != es[idx].id@);
        assert(false);
    }
}

proof fn lemma_push_frame(es: Seq<SessionEntry>, e: SessionEntry, o: Seq<u8>)
    requires
        entries_wf(es),
        !entries_have(es, e.id@),
        e.id@.len() == 32,
    ensures
        entries_wf(es.push(e)),
        entries_have(es.push(e), e.id@),
        entries_expiry(es.push(e), e.id@) == e.expires_at,
        o != e.id@ ==> entries_have(es.push(e), o) == entries_have(es, o),
        o != e.id@ && entries_have(es, o) ==> entries_expiry(es.push(e), o) == entries_expiry(
            es,
            o,
        ),
    decreases 0int,
{
    let p = es.push(e);
    assert(p[es.len() as int] == e);
    assert forall|i: int, j: int| 0 <= i < j < p.len() implies (#[trigger] p[i].id)@ != (
    #[trigger] p[j].id)@ by {
        if j < es.len() {
            assert(p[i] == es[i] && p[j] == es[j]);
        } else {
            assert(p[j] == e && p[i] == es[i]);
            if es[i].id@ == e.id@ {
                assert(entries_have(es, e.id@));
            }
        }
    }
    lemma_entry_resolves(p, es.len() as int);
    if o != e.id@ {
        if entries_have(es, o) {
            let i = choose|i: int| 0 <= i < es.len() && (#[trigger] es[i].id)@ == o;
            lemma_entry_resolves(es, i);
            assert(p[i] == es[i]);
            lemma_entry_resolves(p, i);
        }
        if entries_have(p, o) {
            let k = choose|k: int| 0 <= k < p.len() && (#[trigger] p[k].id)@ == o;
            assert(k < es.len());
            assert(p[k] == es[k]);
            assert(entries_have(es, o));
        }
    }
}

/// What a lazy expiry check found: a live record, one just past its
/// expiry (now removed), or no record at all.
pub enum SessionCheck {
    Valid,
    Expired,
    Missing,
}

/// In-memory map of the active secure channels and their expiries.
pub struct SessionRegistry {
    entries: Vec<SessionEntry>,
    ttl: u64,
}

impl SessionRegistry {
    /// Ids are 32 bytes and pairwise distinct.
    pub closed spec fn wf(self) -> bool {
        entries_wf(self.entries@)
    }

    /// Whether a record for the given session id is present.
    pub closed spec fn has_session(self, sid: Seq<u8>) -> bool {
        entries_have(self.entries@, sid)
    }

    /// The expiry instant recorded for the given session id.
    pub closed spec fn expiry_of(self, sid: Seq<u8>) -> u64 {
        entries_expiry(self.entries@, sid)
    }

    /// The TTL every registration is given, fixed at creation.
    pub closed spec fn default_ttl(self) -> u64 {
        self.ttl
    }

    /// An empty registry with the deployment-chosen TTL.
    pub fn new(ttl_secs: u64) -> (r: SessionRegistry)
        ensures
            r.wf(),
            r.default_ttl() == ttl_secs,
            forall|sid: Seq<u8>| !r.has_session(sid),
    {
        SessionRegistry { entries: Vec::new(), ttl: ttl_secs }
    }

    fn find_index(&self, sid: &[u8]) -> (r: Option<usize>)
        ensures
            r matches Some(i) ==> i < self.entries@.len() && self.entries@[i as int].id@ == sid@,
            r is None ==> !self.has_session(sid@),
    {
        let mut i: usize = 0;
        while i < self.entries.len()
            invariant
                i <= self.entries@.len(),
                forall|j: int| 0 <= j < i ==> (#[trigger] self.entries@[j].id)@ != sid@,
            decreases self.entries@.len() - i,
        {
            if bytes_eq(self.entries[i].id.as_slice(), sid) {
                return Some(i);
            }
            i += 1;
        }
        None
    }

    /// Record a freshly exchanged session: it expires `default_ttl` from
    /// now.  A record under the same id (the TEE does not defend against
    /// collisions) is superseded.
    pub fn register_session(&mut self, sid: &[u8], now: u64)
        requires
            old(self).wf(),
            sid@.len() == 32,
            now + old(self).default_ttl() <= u64::MAX,
        ensures
            final(self).wf(),
            final(self).default_ttl() == old(self).default_ttl(),
            final(self).has_session(sid@),
            final(self).expiry_of(sid@) == now + old(self).default_ttl(),
            forall|o: Seq<u8>|
                o != sid@ ==> #[trigger] final(self).has_session(o) == old(self).has_session(o),
            forall|o: Seq<u8>|
                o != sid@ && old(self).has_session(o) ==> #[trigger] final(self).expiry_of(o)
                    == old(self).expiry_of(o),
    {
        let ghost es0 = self.entries@;
        if let Some(i) = self.find_index(sid) {
            proof {
                lemma_entry_resolves(es0, i as int);
            }
            self.entries.remove(i);
            proof {
                assert forall|o: Seq<u8>| o != sid@ implies entries_have(self.entries@, o)
                    == entries_have(es0, o) && (entries_have(es0, o) ==> entries_expiry(
                    self.entries@,
                    o,
                ) == entries_expiry(es0, o)) by {
                    lemma_remove_frame(es0, i as int, o);
                }
                lemma_remove_frame(es0, i as int, sid@);
            }
        }
        let ghost es1 = self.entries@;
        let entry = SessionEntry { id: slice_to_vec(sid), expires_at: now + self.ttl };
        self.entries.push(entry);
        proof {
            assert forall|o: Seq<u8>| true implies entries_wf(self.entries@) && entries_have(
                self.entries@,
                sid@,
            ) && entries_expiry(self.entries@, sid@) == now + old(self).default_ttl() && (o != sid@
                ==> entries_have(self.entries@, o) == entries_have(es1, o)) && (o != sid@
                && entries_have(es1, o) ==> entries_expiry(self.entries@, o) == entries_expiry(
                es1,
                o,
            )) by {
                lemma_push_frame(es1, entry, o);
            }
        }
    }

    /// Lazy expiry check.  A record past its expiry is removed and
    /// reported `Expired`, so the caller both learns that it must notify
    /// the TEE and can never be told so twice for one registration.
    pub fn check_session(&mut self, sid: &[u8], now: u64) -> (r: SessionCheck)
        requires
            old(self).wf(),
        ensures
            final(self).wf(),
            final(self).default_ttl() == old(self).default_ttl(),
            r is Missing <==> !old(self).has_session(sid@),
            r is Valid <==> old(self).has_session(sid@) && now < old(self).expiry_of(sid@),
            r is Expired <==> old(self).has_session(sid@) && now >= old(self).expiry_of(sid@),
            r is Expired ==> !final(self).has_session(sid@),
            !(r is Expired) ==> *final(self) == *old(self),
            forall|o: Seq<u8>|
                o != sid@ ==> #[trigger] final(self).has_session(o) == old(self).has_session(o),
            forall|o: Seq<u8>|
                o != sid@ && old(self).has_session(o) ==> #[trigger] final(self).expiry_of(o)
                    == old(self).expiry_of(o),
    {
        let ghost es0 = self.entries@;
        match self.find_index(sid) {
            None => SessionCheck::Missing,
            Some(i) => {
                proof {
                    lemma_entry_resolves(es0, i as int);
                }
                if now < self.entries[i].expires_at {
                    SessionCheck::Valid
                } else {
                    self.entries.remove(i);
                    proof {
                        assert forall|o: Seq<u8>| o != sid@ implies entries_have(self.entries@, o)
                            == entries_have(es0, o) && (entries_have(es0, o) ==> entries_expiry(
                            self.entries@,
                            o,
                        ) == entries_expiry(es0, o)) by {
                            lemma_remove_frame(es0, i as int, o);
                        }
                        lemma_remove_frame(es0, i as int, sid@);
                    }
                    SessionCheck::Expired
                }
            },
        }
    }

    /// A registered session id is always the TEE's 32-byte form.
    pub proof fn lemma_session_id_len(self, sid: Seq<u8>)
        requires
            self.wf(),
            self.has_session(sid),
        ensures
            sid.len() == 32,
    {
        let i = choose|i: int|
            0 <= i < self.entries@.len() && (#[trigger] self.entries@[i].id)@ == sid;
        assert(self.entries@[i].id@.len() == 32);
    }

    /// Drop a record outright (explicit close).
    pub fn close_session(&mut self, sid: &[u8])
        requires
            old(self).wf(),
        ensures
            final(self).wf(),
            final(self).default_ttl() == old(self).default_ttl(),
            !final(self).has_session(sid@),
            forall|o: Seq<u8>|
                o != sid@ ==> #[trigger] final(self).has_session(o) == old(self).has_session(o),
            forall|o: Seq<u8>|
                o != sid@ && old(self).has_session(o) ==> #[trigger] final(self).expiry_of(o)
                    == old(self).expiry_of(o),
    {
        let ghost es0 = self.entries@;
        if let Some(i) = self.find_index(sid) {
            proof {
                lemma_entry_resolves(es0, i as int);
            }
            self.entries.remove(i);
            proof {
                assert forall|o: Seq<u8>| o != sid@ implies entries_have(self.entries@, o)
                    == entries_have(es0, o) && (entries_have(es0, o) ==> entries_expiry(
                    self.entries@,
                    o,
                ) == entries_expiry(es0, o)) by {
                    lemma_remove_frame(es0, i as int, o);
                }
                lemma_remove_frame(es0, i as int, sid@);
            }
        }
    }
}

} // verus!
