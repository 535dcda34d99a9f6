//! Identity Store: durable accounts and their authentication history.
//!
//! An account is the deterministic 32-byte hash of a proven credential
//! together with its TEE-sealed blob; it is inserted on the first
//! successful proof and never updated.  Each successful token issuance
//! appends one auth record; for a given account the `auth_id`s are dense
//! and strictly increasing, starting at 1.

use vstd::prelude::*;
use crate::bytes::bytes_eq;
use vstd::slice::slice_to_vec;
use vstd::string::*;

verus! {

broadcast use vstd::string::group_string_axioms;

/// How a credential was proven.
#[derive(Clone, Copy, PartialEq, Eq, Structural, Debug)]
pub enum AuthType {
    Email,
    Google,
    Github,
}

/// The provider name as the wire and the sealed plaintext carry it.
pub open spec fn provider_text(t: AuthType) -> Seq<char> {
    match t {
        AuthType::Email => "email"@,
        AuthType::Google => "google"@,
        AuthType::Github => "github"@,
    }
}

/// The integer discriminator the TEE and the auth table use.
pub open spec fn type_code_of(t: AuthType) -> i32 {
    match t {
        AuthType::Email => 0,
        AuthType::Google => 1,
        AuthType::Github => 2,
    }
}

impl AuthType {
    /// Parse the `oauth_type` request field: exactly the two providers.
    pub fn from_str(s: &String) -> (r: Option<AuthType>)
        ensures
            r == Some(AuthType::Google) <==> s@ == "google"@,
            r == Some(AuthType::Github) <==> s@ == "github"@,
            r is None <==> s@ != "google"@ && s@ != "github"@,
    {
        proof {
            reveal_strlit("google");
            reveal_strlit("github");
            assert("google"@[2] != "github"@[2]);
            assert("google"@ != "github"@);
        }
        let google = String::from_str("google");
        let github = String::from_str("github");
        if s.eq(&google) {
            Some(AuthType::Google)
        } else if s.eq(&github) {
            Some(AuthType::Github)
        } else {
            None
        }
    }

    /// The provider name, as composed into the sealed plaintext.
    pub fn provider_name(&self) -> (r: &'static str)
        ensures
            r@ == provider_text(*self),
    {
        match self {
            AuthType::Email => "email",
            AuthType::Google => "google",
            AuthType::Github => "github",
        }
    }

    /// The integer discriminator handed to the TEE and the auth table.
    pub fn type_code(&self) -> (r: i32)
        ensures
            r == type_code_of(*self),
    {
        match self {
            AuthType::Email => 0,
            AuthType::Google => 1,
            AuthType::Github => 2,
        }
    }
}

/// One successful authentication of one account.
#[derive(Clone, Copy, PartialEq, Eq, Structural, Debug)]
pub struct AuthRecord {
    pub auth_id: u32,
    pub auth_type: AuthType,
    pub auth_datetime: u64,
    pub auth_exp: u64,
}

/// A durable account row with its per-account history.
pub struct AccountEntry {
    pub acc_hash: Vec<u8>,
    pub acc_seal: Vec<u8>,
    pub auths: Vec<AuthRecord>,
}

/// Dense history: the record at position `k` carries `auth_id == k + 1`.
pub open spec fn auths_dense(auths: Seq<AuthRecord>) -> bool {
    &&& auths.len() <= u32::MAX
    &&& forall|k: int| 0 <= k < auths.len() ==> (#[trigger] auths[k]).auth_id == k + 1
}

/// Well-formed store contents: 32-byte pairwise-distinct hashes, seals of
/// at most 1024 bytes, dense per-account history.
pub open spec fn accounts_wf(es: Seq<AccountEntry>) -> bool {
    &&& forall|i: int|
        0 <= i < es.len() ==> (#[trigger] es[i].acc_hash)@.len() == 32 && es[i].acc_seal@.len()
            <= 1024 && auths_dense(es[i].auths@)
    &&& forall|i: int, j: int|
        0 <= i < j < es.len() ==> (#[trigger] es[i].acc_hash)@ != (#[trigger] es[j].acc_hash)@
}

/// Whether some entry carries the given account hash.
pub open spec fn accounts_have(es: Seq<AccountEntry>, h: Seq<u8>) -> bool {
    exists|i: int| 0 <= i < es.len() && (#[trigger] es[i].acc_hash)@ == h
}

/// The entry recorded under the given account hash.
pub open spec fn account_at(es: Seq<AccountEntry>, h: Seq<u8>) -> AccountEntry {
    es[choose|i: int| 0 <= i < es.len() && (#[trigger] es[i].acc_hash)@ == h]
}

proof fn lemma_account_resolves(es: Seq<AccountEntry>, i: int)
    requires
        accounts_wf(es),
        0 <= i < es.len(),
    ensures
        accounts_have(es, es[i].acc_hash@),
        account_at(es, es[i].acc_hash@) == es[i],
{
    let h = es[i].acc_hash@;
    let j = choose|j: int| 0 <= j < es.len() && (#[trigger] es[j].acc_hash)@ == h;
    if i != j {
        assert(es[i].acc_hash@ != es[j].acc_hash@);
    }
}

proof fn lemma_account_push(es: Seq<AccountEntry>, e: AccountEntry, o: Seq<u8>)
    requires
        accounts_wf(es),
        !accounts_have(es, e.acc_hash@),
        e.acc_hash@.len() == 32,
        e.acc_seal@.len() <= 1024,
        auths_dense(e.auths@),
    ensures
        accounts_wf(es.push(e)),
        accounts_have(es.push(e), e.acc_hash@),
        account_at(es.push(e), e.acc_hash@) == e,
        o != e.acc_hash@ ==> accounts_have(es.push(e), o) == accounts_have(es, o),
        o != e.acc_hash@ && accounts_have(es, o) ==> account_at(es.push(e), o) == account_at(
            es,
            o,
        ),
{
    let p = es.push(e);
    assert(p[es.len() as int] == e);
    assert forall|i: int|
        0 <= i < p.len() implies (#[trigger] p[i].acc_hash)@.len() == 32 && p[i].acc_seal@.len()
        <= 1024 && auths_dense(p[i].auths@) by {
        if i < es.len() {
            assert(p[i] == es[i]);
            assert(es[i].acc_hash@.len() == 32);
        } else {
            assert(p[i] == e);
        }
    }
    assert forall|i: int, j: int| 0 <= i < j < p.len() implies (#[trigger] p[i].acc_hash)@ != (
    #[trigger] p[j].acc_hash)@ by {
        if j < es.len() {
            assert(p[i] == es[i] && p[j] == es[j]);
        } else {
            assert(p[j] == e && p[i] == es[i]);
            if es[i].acc_hash@ == e.acc_hash@ {
                assert(accounts_have(es, e.acc_hash@));
            }
        }
    }
    lemma_account_resolves(p, es.len() as int);
    if o != e.acc_hash@ {
        if accounts_have(es, o) {
            let i = choose|i: int| 0 <= i < es.len() && (#[trigger] es[i].acc_hash)@ == o;
            lemma_account_resolves(es, i);
            assert(p[i] == es[i]);
            lemma_account_resolves(p, i);
        }
        if accounts_have(p, o) {
            let k = choose|k: int| 0 <= k < p.len() && (#[trigger] p[k].acc_hash)@ == o;
            assert(k < es.len());
            assert(p[k] == es[k]);
            assert(accounts_have(es, o));
        }
    }
}

proof fn lemma_account_update(es: Seq<AccountEntry>, idx: int, e: AccountEntry, o: Seq<u8>)
    requires
        accounts_wf(es),
        0 <= idx < es.len(),
        e.acc_hash@ == es[idx].acc_hash@,
        e.acc_seal@.len() <= 1024,
        auths_dense(e.auths@),
    ensures
        accounts_wf(es.update(idx, e)),
        accounts_have(es.update(idx, e), e.acc_hash@),
        account_at(es.update(idx, e), e.acc_hash@) == e,
        o != e.acc_hash@ ==> accounts_have(es.update(idx, e), o) == accounts_have(es, o),
        o != e.acc_hash@ && accounts_have(es, o) ==> account_at(es.update(idx, e), o)
            == account_at(es, o),
{
    let p = es.update(idx, e);
    assert forall|i: int|
        0 <= i < p.len() implies (#[trigger] p[i].acc_hash)@.len() == 32 && p[i].acc_seal@.len()
        <= 1024 && auths_dense(p[i].auths@) by {
        if i != idx {
            assert(p[i] == es[i]);
            assert(es[i].acc_hash@.len() == 32);
        } else {
            assert(p[i] == e);
            assert(es[idx].acc_hash@.len() == 32);
        }
    }
    assert forall|i: int, j: int| 0 <= i < j < p.len() implies (#[trigger] p[i].acc_hash)@ != (
    #[trigger] p[j].acc_hash)@ by {
        assert(p[i] == if i == idx { e } else { es[i] });
        assert(p[j] == if j == idx { e } else { es[j] });
    }
    assert(p[idx] == e);
    lemma_account_resolves(p, idx);
    lemma_account_resolves(es, idx);
    if o != e.acc_hash@ {
        if accounts_have(es, o) {
            let i = choose|i: int| 0 <= i < es.len() && (#[trigger] es[i].acc_hash)@ == o;
            lemma_account_resolves(es, i);
            assert(p[i] == es[i]);
            lemma_account_resolves(p, i);
        }
        if accounts_have(p, o) {
            let k = choose|k: int| 0 <= k < p.len() && (#[trigger] p[k].acc_hash)@ == o;
            assert(k != idx);
            assert(p[k] == es[k]);
            assert(accounts_have(es, o));
        }
    }
}

/// Durable accounts and auth history, modelled as the relational store
/// holds them: `account(acc_hash, acc_seal)` rows with their
/// `auth(acc_hash, auth_id, ...)` rows.
pub struct IdentityStore {
    entries: Vec<AccountEntry>,
}

impl IdentityStore {
    /// Hashes are 32 bytes and unique; every history is dense.
    pub closed spec fn wf(self) -> bool {
        accounts_wf(self.entries@)
    }

    /// Whether an account row exists for the hash.
    pub closed spec fn has_account(self, h: Seq<u8>) -> bool {
        accounts_have(self.entries@, h)
    }

    /// The sealed blob stored with the account.
    pub closed spec fn seal_of(self, h: Seq<u8>) -> Seq<u8> {
        account_at(self.entries@, h).acc_seal@
    }

    /// The account's auth history, oldest first.
    pub closed spec fn auths_of(self, h: Seq<u8>) -> Seq<AuthRecord> {
        account_at(self.entries@, h).auths@
    }

    /// How many successful authentications the account has.
    pub open spec fn auth_count(self, h: Seq<u8>) -> nat {
        if self.has_account(h) {
            self.auths_of(h).len()
        } else {
            0
        }
    }

    /// The number of account rows.
    pub closed spec fn num_accounts(self) -> nat {
        self.entries@.len()
    }

    /// An empty store.
    pub fn new() -> (r: IdentityStore)
        ensures
            r.wf(),
            forall|h: Seq<u8>| !r.has_account(h),
    {
        IdentityStore { entries: Vec::new() }
    }

    fn find_index(&self, h: &[u8]) -> (r: Option<usize>)
        ensures
            r matches Some(i) ==> i < self.entries@.len() && self.entries@[i as int].acc_hash@
                == h@,
            r is None ==> !self.has_account(h@),
    {
        let mut i: usize = 0;
        while i < self.entries.len()
            invariant
                i <= self.entries@.len(),
                forall|j: int| 0 <= j < i ==> (#[trigger] self.entries@[j].acc_hash)@ != h@,
            decreases self.entries@.len() - i,
        {
            if bytes_eq(self.entries[i].acc_hash.as_slice(), h) {
                return Some(i);
            }
            i += 1;
        }
        None
    }

    /// Whether an account row exists for the hash.
    pub fn contains_account(&self, acc_hash: &[u8]) -> (r: bool)
        ensures
            r == self.has_account(acc_hash@),
    {
        match self.find_index(acc_hash) {
            Some(i) => {
                proof {
                    assert(self.entries@[i as int].acc_hash@ == acc_hash@);
                }
                true
            },
            None => false,
        }
    }

    /// How many account rows the store holds.
    pub fn account_rows(&self) -> (r: usize)
        ensures
            r == self.num_accounts(),
    {
        self.entries.len()
    }

    /// Insert a new account row; if the hash is already present, do
    /// nothing at all.  Idempotent under retry: re-running the flow for
    /// the same credential never creates a duplicate `acc_hash`.
    pub fn insert_account_if_new(&mut self, acc_hash: &[u8], acc_seal: &[u8])
        requires
            old(self).wf(),
            acc_hash@.len() == 32,
            acc_seal@.len() <= 1024,
        ensures
            final(self).wf(),
            final(self).has_account(acc_hash@),
            old(self).has_account(acc_hash@) ==> *final(self) == *old(self),
            !old(self).has_account(acc_hash@) ==> final(self).seal_of(acc_hash@) == acc_seal@
                && final(self).auths_of(acc_hash@) == Seq::<AuthRecord>::empty(),
            forall|o: Seq<u8>|
                o != acc_hash@ ==> #[trigger] final(self).has_account(o) == old(self).has_account(
                    o,
                ),
            forall|o: Seq<u8>|
                o != acc_hash@ && old(self).has_account(o) ==> #[trigger] final(self).auths_of(o)
                    == old(self).auths_of(o) && final(self).seal_of(o) == old(self).seal_of(o),
    {
        let ghost es0 = self.entries@;
        if let Some(_i) = self.find_index(acc_hash) {
            proof {
                lemma_account_resolves(es0, _i as int);
            }
            return ;
        }
        let entry = AccountEntry {
            acc_hash: slice_to_vec(acc_hash),
            acc_seal: slice_to_vec(acc_seal),
            auths: Vec::new(),
        };
        self.entries.push(entry);
        proof {
            assert forall|o: Seq<u8>| true implies accounts_wf(self.entries@) && accounts_have(
                self.entries@,
                acc_hash@,
            ) && account_at(self.entries@, acc_hash@) == entry && (o != acc_hash@
                ==> accounts_have(self.entries@, o) == accounts_have(es0, o)) && (o != acc_hash@
                && accounts_have(es0, o) ==> account_at(self.entries@, o) == account_at(
                es0,
                o,
            )) by {
                lemma_account_push(es0, entry, o);
            }
        }
    }

    /// The greatest `auth_id` recorded for the account, or 0 if it has
    /// none (dense history makes that the record count).
    pub fn query_latest_auth_id(&self, acc_hash: &[u8]) -> (r: u32)
        requires
            self.wf(),
        ensures
            r == self.auth_count(acc_hash@),
    {
        match self.find_index(acc_hash) {
            None => 0,
            Some(i) => {
                proof {
                    lemma_account_resolves(self.entries@, i as int);
                }
                self.entries[i].auths.len() as u32
            },
        }
    }

    /// Append one auth row.  The caller supplies
    /// `auth_id == query_latest_auth_id + 1`; the history stays dense.
    pub fn insert_auth(&mut self, auth: &Auth)
        requires
            old(self).wf(),
            old(self).has_account(auth.acc_hash@),
            auth.auth_id == old(self).auth_count(auth.acc_hash@) + 1,
        ensures
            final(self).wf(),
            final(self).has_account(auth.acc_hash@),
            final(self).seal_of(auth.acc_hash@) == old(self).seal_of(auth.acc_hash@),
            final(self).auths_of(auth.acc_hash@) == old(self).auths_of(auth.acc_hash@).push(
                auth.record(),
            ),
            forall|o: Seq<u8>|
                o != auth.acc_hash@ ==> #[trigger] final(self).has_account(o)
                    == old(self).has_account(o),
            forall|o: Seq<u8>|
                o != auth.acc_hash@ && old(self).has_account(o) ==> #[trigger] final(self).auths_of(
                    o,
                ) == old(self).auths_of(o) && final(self).seal_of(o) == old(self).seal_of(o),
    {
        let ghost es0 = self.entries@;
        let i = match self.find_index(&auth.acc_hash) {
            Some(i) => i,
            None => {
                proof {
                    assert(false);
                }
                0
            },
        };
        proof {
            lemma_account_resolves(es0, i as int);
        }
        let rec = AuthRecord {
            auth_id: auth.auth_id,
            auth_type: auth.auth_type,
            auth_datetime: auth.auth_datetime,
            auth_exp: auth.auth_exp,
        };
        self.entries[i].auths.push(rec);
        proof {
            let e1 = self.entries@[i as int];
            assert(self.entries@ =~= es0.update(i as int, e1));
            assert(e1.auths@ =~= es0[i as int].auths@.push(rec));
            assert forall|o: Seq<u8>| true implies accounts_wf(self.entries@) && accounts_have(
                self.entries@,
                auth.acc_hash@,
            ) && account_at(self.entries@, auth.acc_hash@) == e1 && (o != auth.acc_hash@
                ==> accounts_have(self.entries@, o) == accounts_have(es0, o)) && (o
                != auth.acc_hash@ && accounts_have(es0, o) ==> account_at(self.entries@, o)
                == account_at(es0, o)) by {
                lemma_account_update(es0, i as int, e1, o);
            }
        }
    }
}

/// A record of one successful authentication, as the Token Issuer builds
/// it before signing.
pub struct Auth {
    pub acc_hash: Vec<u8>,
    pub auth_id: u32,
    pub auth_type: AuthType,
    pub auth_datetime: u64,
    pub auth_exp: u64,
}

impl Auth {
    /// The row this record becomes in the store.
    pub open spec fn record(&self) -> AuthRecord {
        AuthRecord {
            auth_id: self.auth_id,
            auth_type: self.auth_type,
            auth_datetime: self.auth_datetime,
            auth_exp: self.auth_exp,
        }
    }
}

/// The set of `auth_id`s an account's history carries.
pub open spec fn auth_id_set(auths: Seq<AuthRecord>) -> Set<u32> {
    Set::new(|id: u32| exists|k: int| 0 <= k < auths.len() && (#[trigger] auths[k]).auth_id == id)
}

/// After N successful authentications of one account, the recorded
/// `auth_id`s form exactly the set `{1, ..., N}`.
pub proof fn lemma_auth_ids_dense(store: IdentityStore, h: Seq<u8>)
    requires
        store.wf(),
        store.has_account(h),
    ensures
        auth_id_set(store.auths_of(h)) =~= Set::new(
            |id: u32| 1 <= id <= store.auth_count(h),
        ),
{
    let es = store.entries@;
    let auths = store.auths_of(h);
    let i = choose|i: int| 0 <= i < es.len() && (#[trigger] es[i].acc_hash)@ == h;
    lemma_account_resolves(es, i);
    assert(es[i].acc_hash@.len() == 32);
    assert(auths_dense(auths));
    assert forall|id: u32| auth_id_set(auths).contains(id) implies 1 <= id <= store.auth_count(
        h,
    ) by {
        let k = choose|k: int| 0 <= k < auths.len() && (#[trigger] auths[k]).auth_id == id;
        assert(auths[k].auth_id == k + 1);
    }
    assert forall|id: u32| 1 <= id <= store.auth_count(h) implies auth_id_set(auths).contains(
        id,
    ) by {
        assert(auths[id - 1].auth_id == id);
    }
}

} // verus!
