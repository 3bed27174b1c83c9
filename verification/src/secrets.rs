//! Encrypted secrets of projects: per-project stores, secrets sealed under
//! the project's master key, and an audit log of every operation.  The
//! storage keeps its tables (stores, secrets, audit entries) in memory.
use vstd::prelude::*;
use vstd::string::*;
use vstd::utf8::*;
use crate::crypto::{
    AES_GCM_P_MAX, CryptoError, EncryptedValue, KEY_SIZE, NONCE_SIZE, aes256_gcm_open, aes256_gcm_seal,
    decrypt_secret, derive_master_key, encrypt_secret, error_text, generate_agent_id, master_key,
};
use crate::text::{chars_of, str_eq, string_views};

verus! {

/// A secret as stored: its value sealed with its nonce.
#[derive(Debug)]
pub struct Secret {
    pub id: String,
    pub store_id: String,
    pub name: String,
    pub value_encrypted: Vec<u8>,
    pub nonce: Vec<u8>,
    pub created_at: i64,
    pub updated_at: i64,
    pub tags: Option<Vec<String>>,
}

/// A secret with its decrypted value.
#[derive(Debug)]
pub struct SecretWithValue {
    pub name: String,
    pub value: String,
    pub created_at: i64,
    pub updated_at: i64,
    pub tags: Option<Vec<String>>,
}

/// A secret without its value.
#[derive(Debug)]
pub struct SecretMetadata {
    pub name: String,
    pub created_at: i64,
    pub updated_at: i64,
    pub tags: Option<Vec<String>>,
}

/// The secret store of a project.
#[derive(Debug)]
pub struct SecretStore {
    pub id: String,
    pub project_id: String,
    pub agent_id: String,
    pub created_at: i64,
    pub updated_at: i64,
}

/// What an audit entry records.
#[derive(Debug, Clone, Copy, PartialEq, Eq, Structural)]
pub enum AuditAction {
    Created,
    Updated,
    Deleted,
    Accessed,
}

/// The name an audit action is recorded under.
pub open spec fn action_name(a: AuditAction) -> Seq<char> {
    match a {
        AuditAction::Created => "created"@,
        AuditAction::Updated => "updated"@,
        AuditAction::Deleted => "deleted"@,
        AuditAction::Accessed => "accessed"@,
    }
}

impl AuditAction {
    /// The name the action is recorded under.
    pub fn as_str(&self) -> (r: &'static str)
        ensures
            r@ == action_name(*self),
    {
        match self {
            AuditAction::Created => "created",
            AuditAction::Updated => "updated",
            AuditAction::Deleted => "deleted",
            AuditAction::Accessed => "accessed",
        }
    }
}

/// The audit action recorded under a name, if any.
pub fn parse_action(t: &str) -> (r: Option<AuditAction>)
    ensures
        match r {
            Some(a) => action_name(a) == t@,
            None => forall|a: AuditAction| action_name(a) != t@,
        },
{
    if str_eq(t, "created") {
        Some(AuditAction::Created)
    } else if str_eq(t, "updated") {
        Some(AuditAction::Updated)
    } else if str_eq(t, "deleted") {
        Some(AuditAction::Deleted)
    } else if str_eq(t, "accessed") {
        Some(AuditAction::Accessed)
    } else {
        None
    }
}

/// An entry of the audit log.
#[derive(Debug)]
pub struct AuditEntry {
    pub id: String,
    pub secret_id: Option<String>,
    pub store_id: String,
    pub action: AuditAction,
    pub secret_name: Option<String>,
    pub performed_by: String,
    pub timestamp: i64,
}

/// The current time in seconds since the Unix epoch
/// (`chrono::Utc::now().timestamp()`).  Nothing is stated of it.
#[verifier::external_body]
pub(crate) fn now_timestamp() -> (r: i64) {
    chrono::Utc::now().timestamp()
}

// ---------------------------------------------------------------------------
// Order of names
// ---------------------------------------------------------------------------

/// `a` sorts before `b`: at the first difference its character is smaller,
/// or it is a proper prefix of `b` (the order of their UTF-8 bytes).
pub open spec fn text_lt(a: Seq<char>, b: Seq<char>) -> bool
    decreases a.len(),
{
    if a.len() == 0 {
        b.len() > 0
    } else if b.len() == 0 {
        false
    } else if a[0] != b[0] {
        (a[0] as u32) < (b[0] as u32)
    } else {
        text_lt(a.drop_first(), b.drop_first())
    }
}

/// Whether `a` sorts before `b`.
pub fn text_less(a: &str, b: &str) -> (r: bool)
    ensures
        r == text_lt(a@, b@),
{
    let x = chars_of(a);
    let y = chars_of(b);
    let mut i: usize = 0;
    assert(x@.subrange(0, x@.len() as int) =~= x@);
    assert(y@.subrange(0, y@.len() as int) =~= y@);
    while i < x.len() && i < y.len() && x[i] == y[i]
        invariant
            i <= x@.len(),
            i <= y@.len(),
            text_lt(x@, y@) == text_lt(x@.subrange(i as int, x@.len() as int), y@.subrange(i as int, y@.len() as int)),
        decreases x@.len() - i,
    {
        proof {
            let xa = x@.subrange(i as int, x@.len() as int);
            let ya = y@.subrange(i as int, y@.len() as int);
            assert(xa.drop_first() =~= x@.subrange(i + 1, x@.len() as int));
            assert(ya.drop_first() =~= y@.subrange(i + 1, y@.len() as int));
        }
        i = i + 1;
    }
    if i == x.len() {
        i < y.len()
    } else if i == y.len() {
        false
    } else {
        (x[i] as u32) < (y[i] as u32)
    }
}

// ---------------------------------------------------------------------------
// The tables
// ---------------------------------------------------------------------------

/// The tables of the secret storage.
pub struct SecretStorage {
    agent_id: String,
    stores: Vec<SecretStore>,
    secrets: Vec<Secret>,
    audit: Vec<AuditEntry>,
}

/// The position of the store of a project, if any.
pub open spec fn store_position(stores: Seq<SecretStore>, project_id: Seq<char>) -> Option<int> {
    if exists|i: int| 0 <= i < stores.len() && stores[i].project_id@ == project_id {
        Some(choose|i: int| 0 <= i < stores.len() && stores[i].project_id@ == project_id)
    } else {
        None
    }
}

/// The store table after an operation on one project's store: every store
/// there was stays at its place with its id, project, agent and creation
/// time, and only the project's own store may get a new update time; the
/// one store added, if any, is the project's, when it had none.
pub open spec fn stores_kept(before: Seq<SecretStore>, after: Seq<SecretStore>, project_id: Seq<char>) -> bool {
    &&& (after.len() == before.len() || (after.len() == before.len() + 1 && store_position(before, project_id) is None
        && after[before.len() as int].project_id@ == project_id))
    &&& forall|j: int|
        0 <= j < before.len() ==> {
            let a = before[j];
            let b = #[trigger] after[j];
            &&& b.id == a.id
            &&& b.project_id == a.project_id
            &&& b.agent_id == a.agent_id
            &&& b.created_at == a.created_at
            &&& (a.project_id@ != project_id ==> b == a)
        }
}

/// The position of a secret of a store, if any.
pub open spec fn secret_position(secrets: Seq<Secret>, store_id: Seq<char>, name: Seq<char>) -> Option<int> {
    if exists|i: int| 0 <= i < secrets.len() && secrets[i].store_id@ == store_id && secrets[i].name@ == name {
        Some(choose|i: int| 0 <= i < secrets.len() && secrets[i].store_id@ == store_id && secrets[i].name@ == name)
    } else {
        None
    }
}

/// No project has two stores, no two stores one id, and no store two
/// secrets of one name.
pub open spec fn tables_unique(stores: Seq<SecretStore>, secrets: Seq<Secret>) -> bool {
    &&& forall|i: int, j: int| 0 <= i < j < stores.len() ==> stores[i].project_id@ != stores[j].project_id@
    &&& forall|i: int, j: int| 0 <= i < j < stores.len() ==> stores[i].id@ != stores[j].id@
    &&& forall|i: int, j: int|
        0 <= i < j < secrets.len() ==> !(secrets[i].store_id@ == secrets[j].store_id@ && secrets[i].name@
            == secrets[j].name@)
}

/// The value a secret decrypts to under a key, if it does.
pub open spec fn opened_value(s: Secret, key: Seq<u8>) -> Option<Seq<char>> {
    if s.nonce@.len() != NONCE_SIZE {
        None
    } else {
        match aes256_gcm_open(key, s.nonce@, s.value_encrypted@) {
            Some(p) => if valid_utf8(p) {
                Some(decode_utf8(p))
            } else {
                None
            },
            None => None,
        }
    }
}

/// The secret holds `value` sealed under `key`.
pub open spec fn seals(s: Secret, key: Seq<u8>, value: Seq<char>) -> bool {
    &&& s.nonce@.len() == NONCE_SIZE
    &&& encode_utf8(value).len() <= AES_GCM_P_MAX
    &&& s.value_encrypted@ == aes256_gcm_seal(key, s.nonce@, encode_utf8(value))
}

/// The storage holds the secret `name` of the project's store, sealing
/// `value` under `key`.
pub open spec fn holds(
    stores: Seq<SecretStore>,
    secrets: Seq<Secret>,
    project_id: Seq<char>,
    name: Seq<char>,
    key: Seq<u8>,
    value: Seq<char>,
) -> bool {
    match store_position(stores, project_id) {
        Some(i) => match secret_position(secrets, stores[i].id@, name) {
            Some(k) => seals(secrets[k], key, value),
            None => false,
        },
        None => false,
    }
}

proof fn lemma_store_position(stores: Seq<SecretStore>, project_id: Seq<char>, i: int)
    requires
        0 <= i < stores.len(),
        stores[i].project_id@ == project_id,
        forall|a: int, b: int| 0 <= a < b < stores.len() ==> stores[a].project_id@ != stores[b].project_id@,
    ensures
        store_position(stores, project_id) == Some(i),
{
    let w = store_position(stores, project_id)->0;
    if w < i {
        assert(stores[w].project_id@ != stores[i].project_id@);
    } else if w > i {
        assert(stores[i].project_id@ != stores[w].project_id@);
    }
}

proof fn lemma_secret_position(secrets: Seq<Secret>, store_id: Seq<char>, name: Seq<char>, i: int)
    requires
        0 <= i < secrets.len(),
        secrets[i].store_id@ == store_id,
        secrets[i].name@ == name,
        forall|a: int, b: int|
            0 <= a < b < secrets.len() ==> !(secrets[a].store_id@ == secrets[b].store_id@ && secrets[a].name@
                == secrets[b].name@),
    ensures
        secret_position(secrets, store_id, name) == Some(i),
{
    let w = secret_position(secrets, store_id, name)->0;
    if w < i {
        assert(!(secrets[w].store_id@ == secrets[i].store_id@ && secrets[w].name@ == secrets[i].name@));
    } else if w > i {
        assert(!(secrets[i].store_id@ == secrets[w].store_id@ && secrets[i].name@ == secrets[w].name@));
    }
}

fn copy_store(s: &SecretStore) -> (r: SecretStore)
    ensures
        r == *s,
{
    SecretStore {
        id: s.id.clone(),
        project_id: s.project_id.clone(),
        agent_id: s.agent_id.clone(),
        created_at: s.created_at,
        updated_at: s.updated_at,
    }
}

fn copy_tags(t: &Option<Vec<String>>) -> (r: Option<Vec<String>>)
    ensures
        (match (t, r) {
            (None, None) => true,
            (Some(a), Some(b)) => string_views(a@) == string_views(b@),
            _ => false,
        }),
{
    match t {
        None => None,
        Some(v) => {
            let mut r: Vec<String> = Vec::new();
            let mut i: usize = 0;
            while i < v.len()
                invariant
                    i <= v@.len(),
                    string_views(r@) == string_views(v@).subrange(0, i as int),
                decreases v@.len() - i,
            {
                crate::text::push_string(&mut r, v[i].clone());
                assert(string_views(r@) =~= string_views(v@).subrange(0, i + 1));
                i = i + 1;
            }
            assert(string_views(v@).subrange(0, v@.len() as int) =~= string_views(v@));
            Some(r)
        },
    }
}

/// The error a secret fails to decrypt with under a key.
pub open spec fn decrypt_failure(s: Secret, key: Seq<u8>) -> CryptoError {
    if s.nonce@.len() != NONCE_SIZE {
        CryptoError::InvalidNonceSize { expected: NONCE_SIZE, got: s.nonce@.len() as usize }
    } else if aes256_gcm_open(key, s.nonce@, s.value_encrypted@) is None {
        CryptoError::DecryptionFailed
    } else {
        CryptoError::InvalidUtf8
    }
}

fn copy_bytes(v: &Vec<u8>) -> (r: Vec<u8>)
    ensures
        r@ == v@,
{
    let mut r: Vec<u8> = Vec::new();
    let mut i: usize = 0;
    while i < v.len()
        invariant
            i <= v@.len(),
            r@ == v@.subrange(0, i as int),
        decreases v@.len() - i,
    {
        r.push(v[i]);
        i = i + 1;
        assert(r@ =~= v@.subrange(0, i as int));
    }
    assert(r@ =~= v@);
    r
}

/// Positions as integers.
pub open spec fn ints(v: Seq<usize>) -> Seq<int> {
    v.map_values(|x: usize| x as int)
}

/// The positions of the secrets of a store, in table order.
pub open spec fn store_secret_positions(secrets: Seq<Secret>, store_id: Seq<char>) -> Seq<int>
    decreases secrets.len(),
{
    if secrets.len() == 0 {
        Seq::empty()
    } else {
        let p = store_secret_positions(secrets.drop_last(), store_id);
        if secrets.last().store_id@ == store_id {
            p.push(secrets.len() - 1)
        } else {
            p
        }
    }
}

/// Where, among the positions `idx`, the first secret with the least name
/// stands.
pub open spec fn least_name_at(idx: Seq<int>, secrets: Seq<Secret>) -> int
    decreases idx.len(),
{
    if idx.len() <= 1 {
        0
    } else {
        let m = least_name_at(idx.drop_last(), secrets);
        if text_lt(secrets[idx.last()].name@, secrets[idx[m]].name@) {
            idx.len() - 1
        } else {
            m
        }
    }
}

proof fn lemma_least_name_in_range(idx: Seq<int>, secrets: Seq<Secret>)
    ensures
        idx.len() > 0 ==> 0 <= least_name_at(idx, secrets) < idx.len(),
    decreases idx.len(),
{
    if idx.len() > 1 {
        lemma_least_name_in_range(idx.drop_last(), secrets);
    }
}

/// The positions `idx` ordered by name (repeatedly the first least name).
pub open spec fn by_name(idx: Seq<int>, secrets: Seq<Secret>) -> Seq<int>
    decreases idx.len(),
{
    if idx.len() == 0 {
        Seq::empty()
    } else {
        let m = least_name_at(idx, secrets);
        if 0 <= m < idx.len() {
            seq![idx[m]] + by_name(idx.remove(m), secrets)
        } else {
            Seq::empty()
        }
    }
}

/// A secret's description as plain values.
pub open spec fn metadata_of(s: Secret) -> (Seq<char>, i64, i64, Option<Seq<Seq<char>>>) {
    (s.name@, s.created_at, s.updated_at, tag_views(s.tags))
}

/// The values the secrets at `idx` decrypt to under a key, skipping those
/// that do not decrypt.
pub open spec fn opened_values(idx: Seq<int>, secrets: Seq<Secret>, key: Seq<u8>) -> Seq<
    (Seq<char>, Seq<char>, i64, i64, Option<Seq<Seq<char>>>),
>
    decreases idx.len(),
{
    if idx.len() == 0 {
        Seq::empty()
    } else {
        let rest = opened_values(idx.drop_last(), secrets, key);
        let s = secrets[idx.last()];
        match opened_value(s, key) {
            Some(v) => rest.push((s.name@, v, s.created_at, s.updated_at, tag_views(s.tags))),
            None => rest,
        }
    }
}

/// The positions of a store's audit entries, in log order.
pub open spec fn store_entry_positions(audit: Seq<AuditEntry>, store_id: Seq<char>) -> Seq<int>
    decreases audit.len(),
{
    if audit.len() == 0 {
        Seq::empty()
    } else {
        let p = store_entry_positions(audit.drop_last(), store_id);
        if audit.last().store_id@ == store_id {
            p.push(audit.len() - 1)
        } else {
            p
        }
    }
}

/// Where, among the positions `idx`, the first latest entry stands.
pub open spec fn latest_at(idx: Seq<int>, audit: Seq<AuditEntry>) -> int
    decreases idx.len(),
{
    if idx.len() <= 1 {
        0
    } else {
        let m = latest_at(idx.drop_last(), audit);
        if audit[idx.last()].timestamp > audit[idx[m]].timestamp {
            idx.len() - 1
        } else {
            m
        }
    }
}

proof fn lemma_latest_in_range(idx: Seq<int>, audit: Seq<AuditEntry>)
    ensures
        idx.len() > 0 ==> 0 <= latest_at(idx, audit) < idx.len(),
    decreases idx.len(),
{
    if idx.len() > 1 {
        lemma_latest_in_range(idx.drop_last(), audit);
    }
}

/// The positions `idx` newest first (repeatedly the first latest entry).
pub open spec fn newest_first(idx: Seq<int>, audit: Seq<AuditEntry>) -> Seq<int>
    decreases idx.len(),
{
    if idx.len() == 0 {
        Seq::empty()
    } else {
        let m = latest_at(idx, audit);
        if 0 <= m < idx.len() {
            seq![idx[m]] + newest_first(idx.remove(m), audit)
        } else {
            Seq::empty()
        }
    }
}

proof fn lemma_latest_max(idx: Seq<int>, audit: Seq<AuditEntry>)
    requires
        idx.len() > 0,
    ensures
        forall|t: int|
            0 <= t < idx.len() ==> audit[idx[latest_at(idx, audit)]].timestamp >= #[trigger] audit[idx[t]].timestamp,
    decreases idx.len(),
{
    lemma_latest_in_range(idx, audit);
    if idx.len() > 1 {
        let d = idx.drop_last();
        lemma_latest_max(d, audit);
        lemma_latest_in_range(d, audit);
        assert forall|t: int| 0 <= t < idx.len() implies audit[idx[latest_at(idx, audit)]].timestamp
            >= #[trigger] audit[idx[t]].timestamp by {
            if t < idx.len() - 1 {
                assert(idx[t] == d[t]);
            }
            assert(idx[latest_at(d, audit)] == d[latest_at(d, audit)]);
        }
    }
}

/// The positions newest first are the same positions, ordered by time,
/// newest first.
pub proof fn lemma_newest_first(idx: Seq<int>, audit: Seq<AuditEntry>)
    ensures
        newest_first(idx, audit).len() == idx.len(),
        forall|t: int| 0 <= t < idx.len() ==> newest_first(idx, audit).contains(#[trigger] idx[t]),
        forall|k: int| 0 <= k < idx.len() ==> idx.contains(#[trigger] newest_first(idx, audit)[k]),
        forall|j: int, k: int|
            0 <= j < k < idx.len() ==> audit[newest_first(idx, audit)[j]].timestamp >= audit[newest_first(
                idx,
                audit,
            )[k]].timestamp,
    decreases idx.len(),
{
    if idx.len() > 0 {
        let m = latest_at(idx, audit);
        lemma_latest_in_range(idx, audit);
        lemma_latest_max(idx, audit);
        let rest = idx.remove(m);
        lemma_newest_first(rest, audit);
        let nr = newest_first(rest, audit);
        let nf = newest_first(idx, audit);
        assert(nf == seq![idx[m]] + nr);
        assert forall|t: int| 0 <= t < idx.len() implies nf.contains(#[trigger] idx[t]) by {
            if t == m {
                assert(nf[0] == idx[m]);
            } else {
                let u = if t < m { t } else { t - 1 };
                assert(rest[u] == idx[t]);
                assert(nr.contains(rest[u]));
                let w = choose|w: int| 0 <= w < nr.len() && nr[w] == rest[u];
                assert(nf[w + 1] == nr[w]);
            }
        }
        assert forall|k: int| 0 <= k < idx.len() implies idx.contains(#[trigger] nf[k]) by {
            if k == 0 {
                assert(idx[m] == nf[0]);
            } else {
                assert(nf[k] == nr[k - 1]);
                assert(rest.contains(nr[k - 1]));
                let w = choose|w: int| 0 <= w < rest.len() && rest[w] == nr[k - 1];
                if w < m {
                    assert(idx[w] == rest[w]);
                } else {
                    assert(idx[w + 1] == rest[w]);
                }
            }
        }
        assert forall|j: int, k: int| 0 <= j < k < idx.len() implies audit[nf[j]].timestamp >= audit[nf[k]].timestamp by {
            assert(nf[k] == nr[k - 1]);
            if j == 0 {
                assert(rest.contains(nr[k - 1]));
                let w = choose|w: int| 0 <= w < rest.len() && rest[w] == nr[k - 1];
                let t = if w < m { w } else { w + 1 };
                assert(idx[t] == rest[w]);
                assert(audit[idx[m]].timestamp >= audit[idx[t]].timestamp);
            } else {
                assert(nf[j] == nr[j - 1]);
            }
        }
    }
}

/// Every audit entry of a store is among the store's entry positions.
pub proof fn lemma_store_entries(audit: Seq<AuditEntry>, store_id: Seq<char>)
    ensures
        forall|p: int|
            0 <= p < audit.len() && audit[p].store_id@ == store_id ==> store_entry_positions(audit, store_id).contains(p),
    decreases audit.len(),
{
    if audit.len() > 0 {
        let d = audit.drop_last();
        lemma_store_entries(d, store_id);
        let q = store_entry_positions(d, store_id);
        assert forall|p: int| 0 <= p < audit.len() && audit[p].store_id@ == store_id implies store_entry_positions(
            audit,
            store_id,
        ).contains(p) by {
            if p == audit.len() - 1 {
                assert(store_entry_positions(audit, store_id) == q.push(p));
                assert(q.push(p)[q.len() as int] == p);
            } else {
                assert(d[p] == audit[p]);
                assert(q.contains(p));
                let w = choose|w: int| 0 <= w < q.len() && q[w] == p;
                if audit.last().store_id@ == store_id {
                    assert(q.push(audit.len() - 1)[w] == p);
                }
            }
        }
    }
}

/// The audit log of a store as reported, with at most `n` entries: times
/// never increase along it, and no entry of the store left out is newer
/// than one reported.
pub proof fn lemma_audit_log_newest(audit: Seq<AuditEntry>, store_id: Seq<char>, n: int)
    requires
        0 <= n <= store_entry_positions(audit, store_id).len(),
    ensures
        ({
            let shown = newest_first(store_entry_positions(audit, store_id), audit).subrange(0, n);
            &&& forall|j: int, k: int| 0 <= j < k < n ==> audit[shown[j]].timestamp >= audit[shown[k]].timestamp
            &&& forall|j: int, p: int|
                0 <= j < n && 0 <= p < audit.len() && audit[p].store_id@ == store_id && !shown.contains(p)
                    ==> audit[shown[j]].timestamp >= audit[p].timestamp
        }),
{
    let idx = store_entry_positions(audit, store_id);
    let all = newest_first(idx, audit);
    let shown = all.subrange(0, n);
    lemma_newest_first(idx, audit);
    lemma_store_entries(audit, store_id);
    assert forall|j: int, k: int| 0 <= j < k < n implies audit[shown[j]].timestamp >= audit[shown[k]].timestamp by {
        assert(shown[j] == all[j]);
        assert(shown[k] == all[k]);
    }
    assert forall|j: int, p: int|
        0 <= j < n && 0 <= p < audit.len() && audit[p].store_id@ == store_id && !shown.contains(p) implies audit[shown[j]].timestamp
        >= audit[p].timestamp by {
        assert(idx.contains(p));
        let t = choose|t: int| 0 <= t < idx.len() && idx[t] == p;
        assert(all.contains(idx[t]));
        let k = choose|k: int| 0 <= k < all.len() && all[k] == idx[t];
        if k < n {
            assert(shown[k] == p);
        }
        assert(shown[j] == all[j]);
    }
}

/// An audit entry as reported: action, secret name, who, when.
#[derive(Debug)]
pub struct AuditRecord {
    pub action: String,
    pub secret_name: Option<String>,
    pub performed_by: String,
    pub timestamp: i64,
}

/// Optional tags as plain values.
pub open spec fn tag_views(t: Option<Vec<String>>) -> Option<Seq<Seq<char>>> {
    match t {
        Some(v) => Some(string_views(v@)),
        None => None,
    }
}

impl SecretStorage {
    /// The agent the storage belongs to.
    pub closed spec fn agent(self) -> Seq<char> {
        self.agent_id@
    }

    /// The stores, in creation order.
    pub closed spec fn store_table(self) -> Seq<SecretStore> {
        self.stores@
    }

    /// The secrets, in creation order.
    pub closed spec fn secret_table(self) -> Seq<Secret> {
        self.secrets@
    }

    /// The audit log, oldest first.
    pub closed spec fn audit_table(self) -> Seq<AuditEntry> {
        self.audit@
    }

    /// The tables are consistent: one store per project, one secret per
    /// name in a store.
    pub open spec fn wf(self) -> bool {
        tables_unique(self.store_table(), self.secret_table())
    }

    /// Empty tables for an agent.
    pub fn new(agent_id: String) -> (r: SecretStorage)
        ensures
            r.wf(),
            r.agent() == agent_id@,
            r.store_table().len() == 0,
            r.secret_table().len() == 0,
            r.audit_table().len() == 0,
    {
        SecretStorage { agent_id, stores: Vec::new(), secrets: Vec::new(), audit: Vec::new() }
    }

    /// Tables read back from the agent's database; refused (`None`) unless
    /// they are consistent (see `tables_unique`).
    pub fn restore(agent_id: String, stores: Vec<SecretStore>, secrets: Vec<Secret>, audit: Vec<AuditEntry>) -> (r:
        Option<SecretStorage>)
        ensures
            match r {
                Some(t) => {
                    &&& t.wf()
                    &&& t.agent() == agent_id@
                    &&& t.store_table() == stores@
                    &&& t.secret_table() == secrets@
                    &&& t.audit_table() == audit@
                },
                None => !tables_unique(stores@, secrets@),
            },
    {
        let mut i: usize = 0;
        while i < stores.len()
            invariant
                i <= stores@.len(),
                forall|a: int, b: int|
                    0 <= a < i && a < b < stores@.len() ==> stores@[a].project_id@ != stores@[b].project_id@
                        && stores@[a].id@ != stores@[b].id@,
            decreases stores@.len() - i,
        {
            let mut j: usize = i + 1;
            while j < stores.len()
                invariant
                    i < j <= stores@.len(),
                    forall|a: int, b: int|
                        0 <= a < i && a < b < stores@.len() ==> stores@[a].project_id@ != stores@[b].project_id@
                            && stores@[a].id@ != stores@[b].id@,
                    forall|b: int|
                        i < b < j ==> stores@[i as int].project_id@ != stores@[b].project_id@ && stores@[i as int].id@
                            != stores@[b].id@,
                decreases stores@.len() - j,
            {
                if str_eq(stores[i].project_id.as_str(), stores[j].project_id.as_str()) || str_eq(
                    stores[i].id.as_str(),
                    stores[j].id.as_str(),
                ) {
                    return None;
                }
                j = j + 1;
            }
            i = i + 1;
        }
        let mut k: usize = 0;
        while k < secrets.len()
            invariant
                k <= secrets@.len(),
                forall|a: int, b: int|
                    0 <= a < stores@.len() && a < b < stores@.len() ==> stores@[a].project_id@ != stores@[b].project_id@
                        && stores@[a].id@ != stores@[b].id@,
                forall|a: int, b: int|
                    0 <= a < k && a < b < secrets@.len() ==> !(secrets@[a].store_id@ == secrets@[b].store_id@
                        && secrets@[a].name@ == secrets@[b].name@),
            decreases secrets@.len() - k,
        {
            let mut m: usize = k + 1;
            while m < secrets.len()
                invariant
                    k < m <= secrets@.len(),
                    forall|a: int, b: int|
                        0 <= a < k && a < b < secrets@.len() ==> !(secrets@[a].store_id@ == secrets@[b].store_id@
                            && secrets@[a].name@ == secrets@[b].name@),
                    forall|b: int|
                        k < b < m ==> !(secrets@[k as int].store_id@ == secrets@[b].store_id@ && secrets@[k as int].name@
                            == secrets@[b].name@),
                decreases secrets@.len() - m,
            {
                if str_eq(secrets[k].store_id.as_str(), secrets[m].store_id.as_str()) && str_eq(
                    secrets[k].name.as_str(),
                    secrets[m].name.as_str(),
                ) {
                    return None;
                }
                m = m + 1;
            }
            k = k + 1;
        }
        Some(SecretStorage { agent_id, stores, secrets, audit })
    }

    /// The stores, in creation order.
    pub fn stores(&self) -> (r: &Vec<SecretStore>)
        ensures
            r@ == self.store_table(),
    {
        &self.stores
    }

    /// The secrets, in creation order.
    pub fn secrets(&self) -> (r: &Vec<Secret>)
        ensures
            r@ == self.secret_table(),
    {
        &self.secrets
    }

    /// The audit log, oldest first.
    pub fn audit_entries(&self) -> (r: &Vec<AuditEntry>)
        ensures
            r@ == self.audit_table(),
    {
        &self.audit
    }

    fn find_store(&self, project_id: &str) -> (r: Option<usize>)
        requires
            self.wf(),
        ensures
            r matches Some(i) ==> i < self.stores@.len() && store_position(self.stores@, project_id@) == Some(
                i as int,
            ),
            r is None ==> store_position(self.stores@, project_id@) is None,
    {
        let mut i: usize = 0;
        while i < self.stores.len()
            invariant
                tables_unique(self.stores@, self.secrets@),
                i <= self.stores@.len(),
                forall|j: int| 0 <= j < i ==> self.stores@[j].project_id@ != project_id@,
            decreases self.stores@.len() - i,
        {
            if str_eq(self.stores[i].project_id.as_str(), project_id) {
                proof {
                    lemma_store_position(self.stores@, project_id@, i as int);
                }
                return Some(i);
            }
            i = i + 1;
        }
        None
    }

    fn find_secret(&self, store_id: &str, name: &str) -> (r: Option<usize>)
        requires
            self.wf(),
        ensures
            r matches Some(i) ==> i < self.secrets@.len() && secret_position(self.secrets@, store_id@, name@)
                == Some(i as int),
            r is None ==> secret_position(self.secrets@, store_id@, name@) is None,
    {
        let mut i: usize = 0;
        while i < self.secrets.len()
            invariant
                tables_unique(self.stores@, self.secrets@),
                i <= self.secrets@.len(),
                forall|j: int|
                    0 <= j < i ==> !(self.secrets@[j].store_id@ == store_id@ && self.secrets@[j].name@ == name@),
            decreases self.secrets@.len() - i,
        {
            if str_eq(self.secrets[i].store_id.as_str(), store_id) && str_eq(self.secrets[i].name.as_str(), name) {
                proof {
                    lemma_secret_position(self.secrets@, store_id@, name@, i as int);
                }
                return Some(i);
            }
            i = i + 1;
        }
        None
    }

    fn store_id_taken(&self, id: &str) -> (r: bool)
        ensures
            r == exists|j: int| 0 <= j < self.stores@.len() && self.stores@[j].id@ == id@,
    {
        let mut i: usize = 0;
        while i < self.stores.len()
            invariant
                i <= self.stores@.len(),
                forall|j: int| 0 <= j < i ==> self.stores@[j].id@ != id@,
            decreases self.stores@.len() - i,
        {
            if str_eq(self.stores[i].id.as_str(), id) {
                return true;
            }
            i = i + 1;
        }
        false
    }

    /// The store of a project, created with the given id and time when the
    /// project has none; refused when a new store's id is already taken.
    pub fn get_or_create_store_with(&mut self, project_id: &str, id: String, now: i64) -> (r: Result<
        SecretStore,
        String,
    >)
        requires
            old(self).wf(),
        ensures
            final(self).wf(),
            final(self).agent() == old(self).agent(),
            final(self).secret_table() == old(self).secret_table(),
            final(self).audit_table() == old(self).audit_table(),
            (match store_position(old(self).store_table(), project_id@) {
                Some(i) => r == Ok::<SecretStore, String>(old(self).store_table()[i]) && final(self).store_table()
                    == old(self).store_table(),
                None => if exists|j: int| 0 <= j < old(self).store_table().len() && (#[trigger] old(self).store_table()[j]).id@ == id@ {
                    r matches Err(e) && final(self).store_table() == old(self).store_table() && e@
                        == "UNIQUE constraint failed: secret_stores.id"@
                } else {
                    r matches Ok(st) && final(self).store_table() == old(self).store_table().push(st) && st.id@ == id@
                        && st.project_id@ == project_id@ && st.agent_id@ == old(self).agent() && st.created_at == now
                        && st.updated_at == now
                },
            }),
            r matches Ok(st) ==> store_position(final(self).store_table(), project_id@) matches Some(i)
                && final(self).store_table()[i] == st,
    {
        match self.find_store(project_id) {
            Some(i) => {
                proof {
                    lemma_store_position(self.stores@, project_id@, i as int);
                }
                Ok(copy_store(&self.stores[i]))
            },
            None => {
                if self.store_id_taken(id.as_str()) {
                    return Err(String::from_str("UNIQUE constraint failed: secret_stores.id"));
                }
                let store = SecretStore {
                    id,
                    project_id: String::from_str(project_id),
                    agent_id: self.agent_id.clone(),
                    created_at: now,
                    updated_at: now,
                };
                let copy = copy_store(&store);
                let ghost s0 = self.stores@;
                self.stores.push(store);
                proof {
                    assert(forall|j: int| 0 <= j < s0.len() ==> s0[j].project_id@ != project_id@);
                    assert(self.stores@ == s0.push(copy));
                    lemma_store_position(self.stores@, project_id@, s0.len() as int);
                }
                Ok(copy)
            },
        }
    }

    /// The store of a project, created (with a fresh id, at the current
    /// time) when the project has none; creating fails when the fresh id is
    /// already a store's.
    pub fn get_or_create_store(&mut self, project_id: &str) -> (r: Result<SecretStore, String>)
        requires
            old(self).wf(),
        ensures
            final(self).wf(),
            final(self).agent() == old(self).agent(),
            final(self).secret_table() == old(self).secret_table(),
            final(self).audit_table() == old(self).audit_table(),
            (match store_position(old(self).store_table(), project_id@) {
                Some(i) => r == Ok::<SecretStore, String>(old(self).store_table()[i]) && final(self).store_table()
                    == old(self).store_table(),
                None => match r {
                    Ok(st) => final(self).store_table() == old(self).store_table().push(st) && st.project_id@
                        == project_id@ && st.agent_id@ == old(self).agent() && st.created_at == st.updated_at,
                    Err(e) => final(self).store_table() == old(self).store_table() && e@
                        == "UNIQUE constraint failed: secret_stores.id"@,
                },
            }),
            r matches Ok(st) ==> store_position(final(self).store_table(), project_id@) matches Some(i)
                && final(self).store_table()[i] == st,
    {
        let id = generate_agent_id();
        let now = now_timestamp();
        self.get_or_create_store_with(project_id, id, now)
    }

    fn log_audit(
        &mut self,
        secret_id: Option<String>,
        store_id: &str,
        secret_name: Option<String>,
        action: AuditAction,
        performed_by: &str,
    )
        ensures
            final(self).agent() == old(self).agent(),
            final(self).store_table() == old(self).store_table(),
            final(self).secret_table() == old(self).secret_table(),
            final(self).audit_table().len() == old(self).audit_table().len() + 1,
            final(self).audit_table().drop_last() == old(self).audit_table(),
            final(self).audit_table().last().secret_id == secret_id,
            final(self).audit_table().last().store_id@ == store_id@,
            final(self).audit_table().last().action == action,
            final(self).audit_table().last().secret_name == secret_name,
            final(self).audit_table().last().performed_by@ == performed_by@,
    {
        let entry = AuditEntry {
            id: generate_agent_id(),
            secret_id,
            store_id: String::from_str(store_id),
            action,
            secret_name,
            performed_by: String::from_str(performed_by),
            timestamp: now_timestamp(),
        };
        let ghost a0 = self.audit@;
        self.audit.push(entry);
        assert(self.audit@.drop_last() =~= a0);
    }

    fn touch_store(&mut self, store_id: &str, now: i64)
        ensures
            final(self).agent() == old(self).agent(),
            final(self).secret_table() == old(self).secret_table(),
            final(self).audit_table() == old(self).audit_table(),
            final(self).store_table().len() == old(self).store_table().len(),
            forall|j: int|
                0 <= j < old(self).store_table().len() ==> {
                    let a = old(self).store_table()[j];
                    let b = #[trigger] final(self).store_table()[j];
                    &&& b.id == a.id
                    &&& b.project_id == a.project_id
                    &&& b.agent_id == a.agent_id
                    &&& b.created_at == a.created_at
                    &&& b.updated_at == (if a.id@ == store_id@ {
                        now
                    } else {
                        a.updated_at
                    })
                },
    {
        let mut i: usize = 0;
        let ghost s0 = self.stores@;
        while i < self.stores.len()
            invariant
                i <= self.stores@.len(),
                self.stores@.len() == s0.len(),
                self.agent_id == old(self).agent_id,
                self.secrets == old(self).secrets,
                self.audit == old(self).audit,
                s0 == old(self).stores@,
                forall|j: int|
                    0 <= j < s0.len() ==> {
                        let a = s0[j];
                        let b = #[trigger] self.stores@[j];
                        &&& b.id == a.id
                        &&& b.project_id == a.project_id
                        &&& b.agent_id == a.agent_id
                        &&& b.created_at == a.created_at
                        &&& b.updated_at == (if j < i && a.id@ == store_id@ {
                            now
                        } else {
                            a.updated_at
                        })
                    },
            decreases self.stores@.len() - i,
        {
            if str_eq(self.stores[i].id.as_str(), store_id) {
                let st = self.stores.remove(i);
                let SecretStore { id, project_id, agent_id, created_at, updated_at: _ } = st;
                self.stores.insert(i, SecretStore { id, project_id, agent_id, created_at, updated_at: now });
            }
            i = i + 1;
        }
    }

    /// Writes a sealed value under `name` in a store: the existing secret
    /// is updated in place, or a new one (with a fresh id) is added.
    fn put_secret(
        &mut self,
        store_id: &str,
        name: &str,
        enc: EncryptedValue,
        tags: Option<Vec<String>>,
        now: i64,
    ) -> (r: (String, bool))
        requires
            old(self).wf(),
        ensures
            final(self).wf(),
            final(self).agent() == old(self).agent(),
            final(self).store_table() == old(self).store_table(),
            final(self).audit_table() == old(self).audit_table(),
            r.1 == secret_position(old(self).secret_table(), store_id@, name@) is Some,
            secret_position(final(self).secret_table(), store_id@, name@) matches Some(k) && {
                let s = final(self).secret_table()[k];
                &&& s.id == r.0
                &&& s.value_encrypted@ == enc.ciphertext@
                &&& s.nonce@ == enc.nonce@
                &&& s.updated_at == now
                &&& tag_views(s.tags) == tag_views(tags)
            },
            (match secret_position(old(self).secret_table(), store_id@, name@) {
                Some(k) => final(self).secret_table().len() == old(self).secret_table().len() && (forall|j: int|
                    0 <= j < old(self).secret_table().len() && j != k ==> #[trigger] final(self).secret_table()[j]
                        == old(self).secret_table()[j])
                    && final(self).secret_table()[k].id == old(self).secret_table()[k].id
                    && final(self).secret_table()[k].created_at == old(self).secret_table()[k].created_at,
                None => final(self).secret_table().drop_last() == old(self).secret_table()
                    && final(self).secret_table().last().created_at == now,
            }),
    {
        let ghost s0 = self.secrets@;
        match self.find_secret(store_id, name) {
            Some(k) => {
                let old_secret = self.secrets.remove(k);
                let Secret { id, store_id: sid, name: nm, value_encrypted: _, nonce: _, created_at, updated_at: _, tags: _ } =
                    old_secret;
                let id_copy = id.clone();
                let EncryptedValue { ciphertext, nonce } = enc;
                self.secrets.insert(
                    k,
                    Secret { id, store_id: sid, name: nm, value_encrypted: ciphertext, nonce, created_at, updated_at: now, tags },
                );
                proof {
                    assert forall|a: int, b: int|
                        0 <= a < b < self.secrets@.len() implies !(self.secrets@[a].store_id@ == self.secrets@[b].store_id@
                        && self.secrets@[a].name@ == self.secrets@[b].name@) by {
                        assert(self.secrets@[a].store_id@ == s0[a].store_id@ && self.secrets@[a].name@ == s0[a].name@);
                        assert(self.secrets@[b].store_id@ == s0[b].store_id@ && self.secrets@[b].name@ == s0[b].name@);
                    }
                    lemma_secret_position(self.secrets@, store_id@, name@, k as int);
                }
                (id_copy, true)
            },
            None => {
                let id = generate_agent_id();
                let id_copy = id.clone();
                let EncryptedValue { ciphertext, nonce } = enc;
                let secret = Secret {
                    id,
                    store_id: String::from_str(store_id),
                    name: String::from_str(name),
                    value_encrypted: ciphertext,
                    nonce,
                    created_at: now,
                    updated_at: now,
                    tags,
                };
                self.secrets.push(secret);
                proof {
                    assert(self.secrets@.drop_last() =~= s0);
                    assert(forall|j: int| 0 <= j < s0.len() ==> !(s0[j].store_id@ == store_id@ && s0[j].name@ == name@));
                    lemma_secret_position(self.secrets@, store_id@, name@, s0.len() as int);
                }
                (id_copy, false)
            },
        }
    }

    /// Seals `value` under the project's master key and stores it as the
    /// secret `name` of the project's store (creating the store when
    /// needed), updating the secret when it exists; the audit log records
    /// the creation or update.  Fails when the store cannot be created or
    /// the value is too long to seal.
    pub fn set_secret(
        &mut self,
        project_id: &str,
        project_name: &str,
        name: &str,
        value: &str,
        tags: Option<Vec<String>>,
        performed_by: &str,
    ) -> (r: Result<(), String>)
        requires
            old(self).wf(),
        ensures
            final(self).wf(),
            final(self).agent() == old(self).agent(),
            stores_kept(old(self).store_table(), final(self).store_table(), project_id@),
            r matches Err(e) ==> (e@ == "UNIQUE constraint failed: secret_stores.id"@ && store_position(
                old(self).store_table(),
                project_id@,
            ) is None) || (e@ == error_text(CryptoError::EncryptionFailed) && encode_utf8(value@).len()
                > AES_GCM_P_MAX),
            r is Err ==> final(self).secret_table() == old(self).secret_table() && final(self).audit_table() == old(self).audit_table(),
            store_position(old(self).store_table(), project_id@) is Some && encode_utf8(value@).len()
                <= AES_GCM_P_MAX ==> r is Ok,
            r is Ok ==> holds(
                final(self).store_table(),
                final(self).secret_table(),
                project_id@,
                name@,
                master_key(project_name@, old(self).agent(), None),
                value@,
            ),
            r is Ok ==> (store_position(final(self).store_table(), project_id@) matches Some(i) && {
                let sid = final(self).store_table()[i].id@;
                let had = secret_position(old(self).secret_table(), sid, name@) is Some;
                &&& (secret_position(final(self).secret_table(), sid, name@) matches Some(k) && tag_views(
                    final(self).secret_table()[k].tags,
                ) == tag_views(tags))
                &&& final(self).secret_table().len() >= old(self).secret_table().len()
                &&& forall|j: int|
                    0 <= j < old(self).secret_table().len() && !(old(self).secret_table()[j].store_id@ == sid
                        && old(self).secret_table()[j].name@ == name@) ==> #[trigger] final(self).secret_table()[j]
                        == old(self).secret_table()[j]
                &&& final(self).audit_table().drop_last() == old(self).audit_table()
                &&& final(self).audit_table().len() == old(self).audit_table().len() + 1
                &&& final(self).audit_table().last().action == (if had {
                    AuditAction::Updated
                } else {
                    AuditAction::Created
                })
                &&& final(self).audit_table().last().store_id@ == sid
                &&& (final(self).audit_table().last().secret_name matches Some(n) && n@ == name@)
                &&& final(self).audit_table().last().performed_by@ == performed_by@
            }),
    {
        let store = match self.get_or_create_store(project_id) {
            Ok(st) => st,
            Err(e) => return Err(e),
        };
        let key = match derive_master_key(project_name, self.agent_id.as_str(), None) {
            Ok(k) => k,
            Err(e) => return Err(e.message()),
        };
        let enc = match encrypt_secret(value, key.as_slice()) {
            Ok(e) => e,
            Err(e) => return Err(e.message()),
        };
        let ghost enc_view = (enc.ciphertext@, enc.nonce@);
        let now = now_timestamp();
        let ghost secrets0 = self.secrets@;
        let ghost stores1 = self.stores@;
        let (sid, existed) = self.put_secret(store.id.as_str(), name, enc, tags, now);
        let action = if existed {
            AuditAction::Updated
        } else {
            AuditAction::Created
        };
        self.log_audit(Some(sid), store.id.as_str(), Some(String::from_str(name)), action, performed_by);
        let ghost secrets2 = self.secrets@;
        self.touch_store(store.id.as_str(), now);
        proof {
            let st = self.stores@;
            let i = store_position(stores1, project_id@)->0;
            assert forall|a: int, b: int| 0 <= a < b < st.len() implies st[a].project_id@ != st[b].project_id@ by {
                assert(st[a].project_id == stores1[a].project_id);
                assert(st[b].project_id == stores1[b].project_id);
            }
            assert forall|a: int, b: int| 0 <= a < b < st.len() implies st[a].id@ != st[b].id@ by {
                assert(st[a].id == stores1[a].id);
                assert(st[b].id == stores1[b].id);
            }
            assert(st[i].id == stores1[i].id);
            lemma_store_position(st, project_id@, i);
        }
        Ok(())
    }

    /// The decrypted value of the secret `name` of the project's store
    /// (creating the store when needed); the audit log records the access.
    /// Fails when the store cannot be created, the secret does not exist,
    /// or it does not decrypt under the project's master key.
    pub fn get_secret(&mut self, project_id: &str, project_name: &str, name: &str, performed_by: &str) -> (r: Result<
        SecretWithValue,
        String,
    >)
        requires
            old(self).wf(),
        ensures
            final(self).wf(),
            final(self).agent() == old(self).agent(),
            stores_kept(old(self).store_table(), final(self).store_table(), project_id@),
            store_position(old(self).store_table(), project_id@) is Some ==> final(self).store_table() == old(
                self,
            ).store_table(),
            final(self).secret_table() == old(self).secret_table(),
            ({
                let key = master_key(project_name@, old(self).agent(), None);
                match store_position(final(self).store_table(), project_id@) {
                    None => r matches Err(e) && e@ == "UNIQUE constraint failed: secret_stores.id"@ && store_position(
                        old(self).store_table(),
                        project_id@,
                    ) is None,
                    Some(i) => match secret_position(old(self).secret_table(), final(self).store_table()[i].id@, name@) {
                        None => r matches Err(e) && e@ == "Secret '"@ + name@ + "' not found"@ && final(self).audit_table() == old(self).audit_table(),
                        Some(k) => {
                            let sec = old(self).secret_table()[k];
                            match opened_value(sec, key) {
                                Some(v) => r matches Ok(sv) && sv.value@ == v && sv.name@ == sec.name@
                                    && sv.created_at == sec.created_at && sv.updated_at == sec.updated_at
                                    && tag_views(sv.tags) == tag_views(sec.tags) && final(self).audit_table().drop_last()
                                    == old(self).audit_table() && final(self).audit_table().last().action
                                    == AuditAction::Accessed && final(self).audit_table().last().performed_by@
                                    == performed_by@ && (final(self).audit_table().last().secret_name matches Some(n) && n@ == name@)
                                    && (final(self).audit_table().last().secret_id matches Some(x) && x@ == sec.id@)
                                    && final(self).audit_table().last().store_id@ == final(self).store_table()[i].id@,
                                None => r matches Err(e) && e@ == error_text(decrypt_failure(sec, key)) && final(self).audit_table() == old(self).audit_table(),
                            }
                        },
                    },
                }
            }),
            forall|v: Seq<char>|
                holds(
                    old(self).store_table(),
                    old(self).secret_table(),
                    project_id@,
                    name@,
                    master_key(project_name@, old(self).agent(), None),
                    v,
                ) ==> (r matches Ok(sv) && sv.value@ == v),
    {
        let ghost stores0 = self.stores@;
        let store = match self.get_or_create_store(project_id) {
            Ok(st) => st,
            Err(e) => return Err(e),
        };
        let key = match derive_master_key(project_name, self.agent_id.as_str(), None) {
            Ok(k) => k,
            Err(e) => return Err(e.message()),
        };
        let k = match self.find_secret(store.id.as_str(), name) {
            None => {
                let mut m = String::from_str("Secret '");
                m.append(name);
                m.append("' not found");
                return Err(m);
            },
            Some(k) => k,
        };
        let enc = EncryptedValue {
            ciphertext: copy_bytes(&self.secrets[k].value_encrypted),
            nonce: copy_bytes(&self.secrets[k].nonce),
        };
        let value = match decrypt_secret(&enc, key.as_slice()) {
            Ok(v) => v,
            Err(e) => return Err(e.message()),
        };
        let sid = self.secrets[k].id.clone();
        let result = SecretWithValue {
            name: self.secrets[k].name.clone(),
            value,
            created_at: self.secrets[k].created_at,
            updated_at: self.secrets[k].updated_at,
            tags: copy_tags(&self.secrets[k].tags),
        };
        self.log_audit(Some(sid), store.id.as_str(), Some(String::from_str(name)), AuditAction::Accessed, performed_by);
        Ok(result)
    }

    /// Removes the secret `name` of the project's store (creating the store
    /// when needed); the audit log records the deletion.  Fails when the
    /// store cannot be created or the secret does not exist.
    pub fn delete_secret(&mut self, project_id: &str, name: &str, performed_by: &str) -> (r: Result<(), String>)
        requires
            old(self).wf(),
        ensures
            final(self).wf(),
            final(self).agent() == old(self).agent(),
            stores_kept(old(self).store_table(), final(self).store_table(), project_id@),
            match store_position(final(self).store_table(), project_id@) {
                None => r matches Err(e) && e@ == "UNIQUE constraint failed: secret_stores.id"@ && final(self).secret_table() == old(self).secret_table(),
                Some(i) => match secret_position(old(self).secret_table(), final(self).store_table()[i].id@, name@) {
                    None => r matches Err(e) && e@ == "Secret '"@ + name@ + "' not found"@ && final(self).secret_table()
                        == old(self).secret_table() && final(self).audit_table() == old(self).audit_table(),
                    Some(k) => r is Ok && final(self).secret_table() == old(self).secret_table().remove(k) && final(self).audit_table().drop_last() == old(self).audit_table() && final(self).audit_table().last().action
                        == AuditAction::Deleted && final(self).audit_table().last().secret_id is None
                        && final(self).audit_table().last().performed_by@ == performed_by@
                        && (final(self).audit_table().last().secret_name matches Some(n) && n@ == name@)
                        && final(self).audit_table().last().store_id@ == final(self).store_table()[i].id@ && secret_position(
                        final(self).secret_table(),
                        final(self).store_table()[i].id@,
                        name@,
                    ) is None,
                },
            },
    {
        let store = match self.get_or_create_store(project_id) {
            Ok(st) => st,
            Err(e) => return Err(e),
        };
        let k = match self.find_secret(store.id.as_str(), name) {
            None => {
                let mut m = String::from_str("Secret '");
                m.append(name);
                m.append("' not found");
                return Err(m);
            },
            Some(k) => k,
        };
        let ghost s0 = self.secrets@;
        let ghost stores1 = self.stores@;
        let _ = self.secrets.remove(k);
        proof {
            assert forall|a: int, b: int|
                0 <= a < b < self.secrets@.len() implies !(self.secrets@[a].store_id@ == self.secrets@[b].store_id@
                && self.secrets@[a].name@ == self.secrets@[b].name@) by {
                let x = if a < k { a } else { a + 1 };
                let y = if b < k { b } else { b + 1 };
                assert(self.secrets@[a] == s0[x]);
                assert(self.secrets@[b] == s0[y]);
            }
            if secret_position(self.secrets@, store.id@, name@) is Some {
                let w = secret_position(self.secrets@, store.id@, name@)->0;
                let x = if w < k { w } else { w + 1 };
                assert(self.secrets@[w] == s0[x]);
                assert(x != k);
            }
        }
        let ghost s1 = self.secrets@;
        self.log_audit(None, store.id.as_str(), Some(String::from_str(name)), AuditAction::Deleted, performed_by);
        let now = now_timestamp();
        self.touch_store(store.id.as_str(), now);
        proof {
            let st = self.stores@;
            let i = store_position(stores1, project_id@)->0;
            assert forall|a: int, b: int| 0 <= a < b < st.len() implies st[a].project_id@ != st[b].project_id@ by {
                assert(st[a].project_id == stores1[a].project_id);
                assert(st[b].project_id == stores1[b].project_id);
            }
            assert forall|a: int, b: int| 0 <= a < b < st.len() implies st[a].id@ != st[b].id@ by {
                assert(st[a].id == stores1[a].id);
                assert(st[b].id == stores1[b].id);
            }
            assert(st[i].id == stores1[i].id);
            lemma_store_position(st, project_id@, i);
        }
        Ok(())
    }

    fn store_positions(&self, store_id: &str) -> (r: Vec<usize>)
        ensures
            ints(r@) == store_secret_positions(self.secrets@, store_id@),
            forall|j: int| 0 <= j < r@.len() ==> r@[j] < self.secrets@.len(),
    {
        let mut r: Vec<usize> = Vec::new();
        let mut i: usize = 0;
        while i < self.secrets.len()
            invariant
                i <= self.secrets@.len(),
                ints(r@) == store_secret_positions(self.secrets@.subrange(0, i as int), store_id@),
                forall|j: int| 0 <= j < r@.len() ==> r@[j] < i,
            decreases self.secrets@.len() - i,
        {
            let ghost next = self.secrets@.subrange(0, i + 1);
            proof {
                assert(next.drop_last() =~= self.secrets@.subrange(0, i as int));
                assert(next.last() == self.secrets@[i as int]);
            }
            if str_eq(self.secrets[i].store_id.as_str(), store_id) {
                let ghost r0 = r@;
                r.push(i);
                assert(ints(r@) =~= ints(r0).push(i as int));
            }
            i = i + 1;
        }
        assert(self.secrets@.subrange(0, self.secrets@.len() as int) =~= self.secrets@);
        r
    }

    fn least_name(&self, rem: &Vec<usize>) -> (m: usize)
        requires
            rem@.len() > 0,
            forall|j: int| 0 <= j < rem@.len() ==> rem@[j] < self.secrets@.len(),
        ensures
            m == least_name_at(ints(rem@), self.secrets@),
            m < rem@.len(),
    {
        let mut m: usize = 0;
        let mut j: usize = 1;
        while j < rem.len()
            invariant
                1 <= j <= rem@.len(),
                m < j,
                forall|t: int| 0 <= t < rem@.len() ==> rem@[t] < self.secrets@.len(),
                m == least_name_at(ints(rem@).subrange(0, j as int), self.secrets@),
            decreases rem@.len() - j,
        {
            let ghost next = ints(rem@).subrange(0, j + 1);
            proof {
                assert(next.drop_last() =~= ints(rem@).subrange(0, j as int));
                assert(next.last() == rem@[j as int] as int);
                assert(next[m as int] == rem@[m as int] as int);
            }
            if text_less(self.secrets[rem[j]].name.as_str(), self.secrets[rem[m]].name.as_str()) {
                m = j;
            }
            j = j + 1;
        }
        assert(ints(rem@).subrange(0, rem@.len() as int) =~= ints(rem@));
        m
    }

    fn positions_by_name(&self, store_id: &str) -> (r: Vec<usize>)
        ensures
            ints(r@) == by_name(store_secret_positions(self.secrets@, store_id@), self.secrets@),
            forall|j: int| 0 <= j < r@.len() ==> r@[j] < self.secrets@.len(),
    {
        let mut rem = self.store_positions(store_id);
        let ghost all = ints(rem@);
        let mut out: Vec<usize> = Vec::new();
        assert(ints(out@) + by_name(ints(rem@), self.secrets@) =~= by_name(all, self.secrets@));
        while rem.len() > 0
            invariant
                forall|j: int| 0 <= j < rem@.len() ==> rem@[j] < self.secrets@.len(),
                forall|j: int| 0 <= j < out@.len() ==> out@[j] < self.secrets@.len(),
                ints(out@) + by_name(ints(rem@), self.secrets@) == by_name(all, self.secrets@),
            decreases rem@.len(),
        {
            let m = self.least_name(&rem);
            let ghost r0 = ints(rem@);
            let ghost o0 = ints(out@);
            let x = rem.remove(m);
            out.push(x);
            proof {
                lemma_least_name_in_range(r0, self.secrets@);
                assert(ints(rem@) =~= r0.remove(m as int));
                assert(ints(out@) =~= o0.push(x as int));
                assert(by_name(r0, self.secrets@) == seq![r0[m as int]] + by_name(r0.remove(m as int), self.secrets@));
                assert(ints(out@) + by_name(ints(rem@), self.secrets@) =~= o0 + by_name(r0, self.secrets@));
            }
        }
        assert(ints(out@) + by_name(ints(rem@), self.secrets@) =~= ints(out@));
        out
    }

    /// The secrets of the project's store without their values, ordered by
    /// name (creating the store when needed).
    pub fn list_secrets(&mut self, project_id: &str) -> (r: Result<Vec<SecretMetadata>, String>)
        requires
            old(self).wf(),
        ensures
            final(self).wf(),
            final(self).agent() == old(self).agent(),
            stores_kept(old(self).store_table(), final(self).store_table(), project_id@),
            store_position(old(self).store_table(), project_id@) is Some ==> final(self).store_table() == old(
                self,
            ).store_table(),
            final(self).secret_table() == old(self).secret_table(),
            final(self).audit_table() == old(self).audit_table(),
            match store_position(final(self).store_table(), project_id@) {
                None => r matches Err(e) && e@ == "UNIQUE constraint failed: secret_stores.id"@,
                Some(i) => r matches Ok(v) && {
                    let order = by_name(
                        store_secret_positions(old(self).secret_table(), final(self).store_table()[i].id@),
                        old(self).secret_table(),
                    );
                    &&& v@.len() == order.len()
                    &&& forall|j: int|
                        0 <= j < v@.len() ==> (#[trigger] v@[j].name@, v@[j].created_at, v@[j].updated_at, tag_views(
                            v@[j].tags,
                        )) == metadata_of(old(self).secret_table()[order[j]])
                },
            },
    {
        let store = match self.get_or_create_store(project_id) {
            Ok(st) => st,
            Err(e) => return Err(e),
        };
        let order = self.positions_by_name(store.id.as_str());
        let mut v: Vec<SecretMetadata> = Vec::new();
        let mut j: usize = 0;
        while j < order.len()
            invariant
                j <= order@.len(),
                forall|t: int| 0 <= t < order@.len() ==> order@[t] < self.secrets@.len(),
                v@.len() == j,
                forall|t: int|
                    0 <= t < j ==> (#[trigger] v@[t].name@, v@[t].created_at, v@[t].updated_at, tag_views(v@[t].tags))
                        == metadata_of(self.secrets@[order@[t] as int]),
            decreases order@.len() - j,
        {
            let sec = &self.secrets[order[j]];
            v.push(
                SecretMetadata {
                    name: sec.name.clone(),
                    created_at: sec.created_at,
                    updated_at: sec.updated_at,
                    tags: copy_tags(&sec.tags),
                },
            );
            j = j + 1;
        }
        proof {
            let ghost want = by_name(
                store_secret_positions(old(self).secret_table(), store.id@),
                old(self).secret_table(),
            );
            assert(want == ints(order@));
            assert(want.len() == v@.len());
            assert(store_position(self.stores@, project_id@) matches Some(i) && self.stores@[i] == store);
            assert forall|t: int| 0 <= t < v@.len() implies (#[trigger] v@[t].name@, v@[t].created_at,
                v@[t].updated_at, tag_views(v@[t].tags)) == metadata_of(old(self).secret_table()[want[t]]) by {
                assert(want[t] == order@[t] as int);
            }
        }
        Ok(v)
    }

    /// The decrypted secrets of the project's store, ordered by name, those
    /// that do not decrypt left out (creating the store when needed); the
    /// audit log records each access.
    pub fn get_all_secrets(&mut self, project_id: &str, project_name: &str, performed_by: &str) -> (r: Result<
        Vec<SecretWithValue>,
        String,
    >)
        requires
            old(self).wf(),
        ensures
            final(self).wf(),
            final(self).agent() == old(self).agent(),
            stores_kept(old(self).store_table(), final(self).store_table(), project_id@),
            store_position(old(self).store_table(), project_id@) is Some ==> final(self).store_table() == old(
                self,
            ).store_table(),
            final(self).secret_table() == old(self).secret_table(),
            match store_position(final(self).store_table(), project_id@) {
                None => r matches Err(e) && e@ == "UNIQUE constraint failed: secret_stores.id"@,
                Some(i) => r matches Ok(v) && {
                    let order = by_name(
                        store_secret_positions(old(self).secret_table(), final(self).store_table()[i].id@),
                        old(self).secret_table(),
                    );
                    let expected = opened_values(
                        order,
                        old(self).secret_table(),
                        master_key(project_name@, old(self).agent(), None),
                    );
                    &&& v@.len() == expected.len()
                    &&& forall|j: int|
                        0 <= j < v@.len() ==> (#[trigger] v@[j].name@, v@[j].value@, v@[j].created_at, v@[j].updated_at,
                        tag_views(v@[j].tags)) == expected[j]
                    &&& final(self).audit_table().len() == old(self).audit_table().len() + expected.len()
                },
            },
    {
        let store = match self.get_or_create_store(project_id) {
            Ok(st) => st,
            Err(e) => return Err(e),
        };
        let key = match derive_master_key(project_name, self.agent_id.as_str(), None) {
            Ok(k) => k,
            Err(e) => return Err(e.message()),
        };
        let order = self.positions_by_name(store.id.as_str());
        let ghost stores1 = self.stores@;
        let ghost secrets0 = self.secrets@;
        let ghost audit0 = self.audit@;
        let ghost ord = ints(order@);
        let mut v: Vec<SecretWithValue> = Vec::new();
        let mut j: usize = 0;
        while j < order.len()
            invariant
                j <= order@.len(),
                ord == ints(order@),
                self.secrets@ == secrets0,
                self.agent_id@ == old(self).agent_id@,
                tables_unique(self.stores@, self.secrets@),
                self.stores@ == stores1,
                store_position(stores1, project_id@) matches Some(i) && stores1[i] == store,
                key@ == master_key(project_name@, old(self).agent_id@, None),
                key@.len() == KEY_SIZE,
                forall|t: int| 0 <= t < order@.len() ==> order@[t] < self.secrets@.len(),
                v@.len() == opened_values(ord.subrange(0, j as int), secrets0, key@).len(),
                self.audit@.len() == audit0.len() + v@.len(),
                forall|t: int|
                    0 <= t < v@.len() ==> (#[trigger] v@[t].name@, v@[t].value@, v@[t].created_at, v@[t].updated_at,
                    tag_views(v@[t].tags)) == opened_values(ord.subrange(0, j as int), secrets0, key@)[t],
            decreases order@.len() - j,
        {
            let ghost next = ord.subrange(0, j + 1);
            proof {
                assert(next.drop_last() =~= ord.subrange(0, j as int));
                assert(next.last() == order@[j as int] as int);
            }
            let p = order[j];
            let enc = EncryptedValue {
                ciphertext: copy_bytes(&self.secrets[p].value_encrypted),
                nonce: copy_bytes(&self.secrets[p].nonce),
            };
            match decrypt_secret(&enc, key.as_slice()) {
                Ok(value) => {
                    let sid = self.secrets[p].id.clone();
                    let name = self.secrets[p].name.clone();
                    let item = SecretWithValue {
                        name: self.secrets[p].name.clone(),
                        value,
                        created_at: self.secrets[p].created_at,
                        updated_at: self.secrets[p].updated_at,
                        tags: copy_tags(&self.secrets[p].tags),
                    };
                    self.log_audit(Some(sid), store.id.as_str(), Some(name), AuditAction::Accessed, performed_by);
                    v.push(item);
                },
                Err(_) => {},
            }
            j = j + 1;
        }
        assert(ord.subrange(0, ord.len() as int) =~= ord);
        Ok(v)
    }

    fn entry_positions(&self, store_id: &str) -> (r: Vec<usize>)
        ensures
            ints(r@) == store_entry_positions(self.audit@, store_id@),
            forall|j: int| 0 <= j < r@.len() ==> r@[j] < self.audit@.len(),
    {
        let mut r: Vec<usize> = Vec::new();
        let mut i: usize = 0;
        while i < self.audit.len()
            invariant
                i <= self.audit@.len(),
                ints(r@) == store_entry_positions(self.audit@.subrange(0, i as int), store_id@),
                forall|j: int| 0 <= j < r@.len() ==> r@[j] < i,
            decreases self.audit@.len() - i,
        {
            let ghost next = self.audit@.subrange(0, i + 1);
            proof {
                assert(next.drop_last() =~= self.audit@.subrange(0, i as int));
                assert(next.last() == self.audit@[i as int]);
            }
            if str_eq(self.audit[i].store_id.as_str(), store_id) {
                let ghost r0 = r@;
                r.push(i);
                assert(ints(r@) =~= ints(r0).push(i as int));
            }
            i = i + 1;
        }
        assert(self.audit@.subrange(0, self.audit@.len() as int) =~= self.audit@);
        r
    }

    fn latest(&self, rem: &Vec<usize>) -> (m: usize)
        requires
            rem@.len() > 0,
            forall|j: int| 0 <= j < rem@.len() ==> rem@[j] < self.audit@.len(),
        ensures
            m == latest_at(ints(rem@), self.audit@),
            m < rem@.len(),
    {
        let mut m: usize = 0;
        let mut j: usize = 1;
        while j < rem.len()
            invariant
                1 <= j <= rem@.len(),
                m < j,
                forall|t: int| 0 <= t < rem@.len() ==> rem@[t] < self.audit@.len(),
                m == latest_at(ints(rem@).subrange(0, j as int), self.audit@),
            decreases rem@.len() - j,
        {
            let ghost next = ints(rem@).subrange(0, j + 1);
            proof {
                assert(next.drop_last() =~= ints(rem@).subrange(0, j as int));
                assert(next.last() == rem@[j as int] as int);
                assert(next[m as int] == rem@[m as int] as int);
            }
            if self.audit[rem[j]].timestamp > self.audit[rem[m]].timestamp {
                m = j;
            }
            j = j + 1;
        }
        assert(ints(rem@).subrange(0, rem@.len() as int) =~= ints(rem@));
        m
    }

    /// The audit log of the project's store, newest first (entries of the
    /// same second in log order), at most `limit` entries when a limit is
    /// given (creating the store when needed).
    pub fn get_audit_log(&mut self, project_id: &str, limit: Option<usize>) -> (r: Result<Vec<AuditRecord>, String>)
        requires
            old(self).wf(),
        ensures
            final(self).wf(),
            final(self).agent() == old(self).agent(),
            final(self).secret_table() == old(self).secret_table(),
            final(self).audit_table() == old(self).audit_table(),
            match store_position(final(self).store_table(), project_id@) {
                None => r matches Err(e) && e@ == "UNIQUE constraint failed: secret_stores.id"@,
                Some(i) => r matches Ok(v) && {
                    let all = newest_first(
                        store_entry_positions(old(self).audit_table(), final(self).store_table()[i].id@),
                        old(self).audit_table(),
                    );
                    let order = match limit {
                        Some(n) => if n < all.len() {
                            all.subrange(0, n as int)
                        } else {
                            all
                        },
                        None => all,
                    };
                    &&& v@.len() == order.len()
                    &&& forall|j: int|
                        0 <= j < v@.len() ==> {
                            let e = old(self).audit_table()[order[j]];
                            &&& (#[trigger] v@[j]).action@ == action_name(e.action)
                            &&& v@[j].secret_name == e.secret_name
                            &&& v@[j].performed_by == e.performed_by
                            &&& v@[j].timestamp == e.timestamp
                        }
                },
            },
            r matches Ok(v) ==> forall|j: int, k: int| 0 <= j < k < v@.len() ==> v@[j].timestamp >= v@[k].timestamp,
            r matches Ok(v) ==> (store_position(final(self).store_table(), project_id@) matches Some(i) && forall|
                j: int,
                p: int,
            |
                0 <= j < v@.len() && 0 <= p < old(self).audit_table().len() && old(self).audit_table()[p].store_id@
                    == final(self).store_table()[i].id@ && !newest_first(
                    store_entry_positions(old(self).audit_table(), final(self).store_table()[i].id@),
                    old(self).audit_table(),
                ).subrange(0, v@.len() as int).contains(p) ==> v@[j].timestamp >= old(
                    self,
                ).audit_table()[p].timestamp),
    {
        let store = match self.get_or_create_store(project_id) {
            Ok(st) => st,
            Err(e) => return Err(e),
        };
        let mut rem = self.entry_positions(store.id.as_str());
        let ghost all0 = ints(rem@);
        let mut out: Vec<usize> = Vec::new();
        assert(ints(out@) + newest_first(ints(rem@), self.audit@) =~= newest_first(all0, self.audit@));
        while rem.len() > 0
            invariant
                forall|j: int| 0 <= j < rem@.len() ==> rem@[j] < self.audit@.len(),
                forall|j: int| 0 <= j < out@.len() ==> out@[j] < self.audit@.len(),
                ints(out@) + newest_first(ints(rem@), self.audit@) == newest_first(all0, self.audit@),
            decreases rem@.len(),
        {
            let m = self.latest(&rem);
            let ghost r0 = ints(rem@);
            let ghost o0 = ints(out@);
            let x = rem.remove(m);
            out.push(x);
            proof {
                lemma_latest_in_range(r0, self.audit@);
                assert(ints(rem@) =~= r0.remove(m as int));
                assert(ints(out@) =~= o0.push(x as int));
                assert(newest_first(r0, self.audit@) == seq![r0[m as int]] + newest_first(r0.remove(m as int), self.audit@));
                assert(ints(out@) + newest_first(ints(rem@), self.audit@) =~= o0 + newest_first(r0, self.audit@));
            }
        }
        assert(ints(out@) + newest_first(ints(rem@), self.audit@) =~= ints(out@));
        let n = match limit {
            Some(n) => if n < out.len() {
                n
            } else {
                out.len()
            },
            None => out.len(),
        };
        let mut v: Vec<AuditRecord> = Vec::new();
        let mut j: usize = 0;
        while j < n
            invariant
                n <= out@.len(),
                j <= n,
                forall|t: int| 0 <= t < out@.len() ==> out@[t] < self.audit@.len(),
                v@.len() == j,
                forall|t: int|
                    0 <= t < j ==> {
                        let e = self.audit@[out@[t] as int];
                        &&& (#[trigger] v@[t]).action@ == action_name(e.action)
                        &&& v@[t].secret_name == e.secret_name
                        &&& v@[t].performed_by == e.performed_by
                        &&& v@[t].timestamp == e.timestamp
                    },
            decreases n - j,
        {
            let e = &self.audit[out[j]];
            let secret_name = match &e.secret_name {
                Some(s) => Some(s.clone()),
                None => None,
            };
            v.push(
                AuditRecord {
                    action: String::from_str(e.action.as_str()),
                    secret_name,
                    performed_by: e.performed_by.clone(),
                    timestamp: e.timestamp,
                },
            );
            j = j + 1;
        }
        proof {
            lemma_newest_first(all0, self.audit@);
            lemma_audit_log_newest(self.audit@, store.id@, n as int);
            let shown = newest_first(all0, self.audit@).subrange(0, n as int);
            assert forall|t: int| 0 <= t < n implies shown[t] == out@[t] as int && v@[t].timestamp
                == self.audit@[shown[t]].timestamp by {
                assert(ints(out@)[t] == out@[t] as int);
                assert(v@[t].timestamp == self.audit@[out@[t] as int].timestamp);
            }
            assert(all0 == store_entry_positions(self.audit@, store.id@));
            assert(store_position(self.stores@, project_id@) matches Some(i) && self.stores@[i] == store);
            assert forall|j: int, k: int| 0 <= j < k < v@.len() implies v@[j].timestamp >= v@[k].timestamp by {
                assert(v@[j].timestamp == self.audit@[shown[j]].timestamp);
                assert(v@[k].timestamp == self.audit@[shown[k]].timestamp);
            }
            assert forall|j: int, p: int|
                0 <= j < v@.len() && 0 <= p < self.audit@.len() && self.audit@[p].store_id@ == store.id@
                    && !shown.contains(p) implies v@[j].timestamp >= self.audit@[p].timestamp by {
                assert(v@[j].timestamp == self.audit@[shown[j]].timestamp);
            }
        }
        Ok(v)
    }
}

} // verus!
