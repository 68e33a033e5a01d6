//! The records of identity storage, and the decisions of the file system layer: random local
//! IDs, the retry rule for creating an identity's folder, and the order in which stored
//! identities are listed. Reading and writing the files is the caller's part.
use vstd::prelude::*;
use vstd::string::StringExecFns;
use vstd::utf8::encode_utf8;
use super::password_kdf::PasswordKdfMetadata;
use super::vault::VaultCiphertext;
use super::vault_key::WrappedVaultKey;
use crate::identity::{is_lower_hex_digit, lemma_hex_lower_digits};
use crate::primitives::{hex_encode, hex_lower, io_error_text, json_error_text, os_random_bytes};

verus! {

/// The number of random bytes of a local identity ID.
pub const LOCAL_ID_LEN: usize = 16;

/// The number of local IDs tried before giving up on creating an identity's folder.
pub const MAX_LOCAL_ID_ATTEMPTS: usize = 16;

/// The file, in an identity's folder, that holds its record.
pub const IDENTITY_RECORD_FILE: &'static str = "identity_record.json";

/// The file, in an identity's folder, that holds its encrypted vault.
pub const VAULT_FILE: &'static str = "vault.enc";

/// What is stored in the clear about an identity: a hint for its owner, the metadata of
/// its password key and its wrapped vault key.
pub struct IdentityRecord {
    pub local_hint: String,
    pub password_kdf: PasswordKdfMetadata,
    pub wrapped_vault_key: WrappedVaultKey,
}

/// A stored identity as listed: its local ID and its hint.
#[derive(Debug, PartialEq, Eq)]
pub struct ListedIdentityStorage {
    pub local_id: String,
    pub local_hint: String,
}

/// Everything stored about one identity.
pub struct RetrievedIdentityStorage {
    pub identity_record: IdentityRecord,
    pub vault_ciphertext: VaultCiphertext,
}

/// Why identity storage failed.
#[derive(Debug)]
pub enum IdentityStorageError {
    Io(std::io::Error),
    Json(serde_json::Error),
    LocalIdCollision,
}

/// A fresh local identity ID: the hexadecimal text of 16 random bytes, so 32 lower-case
/// hexadecimal digits.
pub fn generate_random_id() -> (id: String)
    ensures
        exists|bytes: Seq<u8>| bytes.len() == LOCAL_ID_LEN && id@ == hex_lower(bytes),
        id@.len() == 2 * LOCAL_ID_LEN,
        forall|i: int| 0 <= i < id@.len() ==> is_lower_hex_digit(#[trigger] id@[i]),
{
    let id = os_random_bytes::<LOCAL_ID_LEN>();
    let text = hex_encode(id.as_slice());
    proof {
        lemma_hex_lower_digits(id@);
    }
    text
}

// ---------------------------------------------------------------------------------------------
// Creating an identity's folder
// ---------------------------------------------------------------------------------------------

/// How an attempt to create an identity's folder under a fresh local ID ended.
pub enum CreateDirOutcome {
    /// The folder was created.
    Created,
    /// A folder of that name already existed.
    AlreadyExists,
    /// Creating the folder failed for another reason.
    Failed,
}

/// What to do after an attempt to create an identity's folder.
#[derive(Debug, PartialEq, Eq)]
pub enum LocalIdStep {
    /// Keep the folder and its local ID.
    Accept,
    /// Try again with a new local ID.
    Retry,
    /// Stop: every attempt met an existing folder (`LocalIdCollision`).
    GiveUp,
    /// Stop with the error of the failed attempt.
    Fail,
}

/// The step after attempt number `attempt` (counting from 1) ended with `outcome`: a
/// collision is retried until `MAX_LOCAL_ID_ATTEMPTS` attempts were made, and any other
/// failure ends the search.
pub open spec fn local_id_step(attempt: nat, outcome: CreateDirOutcome) -> LocalIdStep {
    match outcome {
        CreateDirOutcome::Created => LocalIdStep::Accept,
        CreateDirOutcome::Failed => LocalIdStep::Fail,
        CreateDirOutcome::AlreadyExists => if attempt < MAX_LOCAL_ID_ATTEMPTS {
            LocalIdStep::Retry
        } else {
            LocalIdStep::GiveUp
        },
    }
}

/// Decides what follows attempt number `attempt` at creating an identity's folder.
pub fn next_local_id_step(attempt: usize, outcome: CreateDirOutcome) -> (step: LocalIdStep)
    requires
        1 <= attempt <= MAX_LOCAL_ID_ATTEMPTS,
    ensures
        step == local_id_step(attempt as nat, outcome),
{
    match outcome {
        CreateDirOutcome::Created => LocalIdStep::Accept,
        CreateDirOutcome::Failed => LocalIdStep::Fail,
        CreateDirOutcome::AlreadyExists => {
            if attempt < MAX_LOCAL_ID_ATTEMPTS {
                LocalIdStep::Retry
            } else {
                LocalIdStep::GiveUp
            }
        },
    }
}

/// No more than `MAX_LOCAL_ID_ATTEMPTS` attempts are ever made: after the last one, a
/// collision gives up instead of retrying.
pub proof fn lemma_attempts_are_bounded(attempt: nat, outcome: CreateDirOutcome)
    requires
        local_id_step(attempt, outcome) == LocalIdStep::Retry,
    ensures
        attempt + 1 <= MAX_LOCAL_ID_ATTEMPTS,
{
}

// ---------------------------------------------------------------------------------------------
// The order of listed identities
// ---------------------------------------------------------------------------------------------

/// The lexicographic order of byte strings (the order of `str`): `a` comes at or before `b`.
pub open spec fn bytes_le(a: Seq<u8>, b: Seq<u8>) -> bool
    decreases a.len(),
{
    if a.len() == 0 {
        true
    } else if b.len() == 0 {
        false
    } else if a[0] != b[0] {
        a[0] < b[0]
    } else {
        bytes_le(a.drop_first(), b.drop_first())
    }
}

/// The order of byte strings is decided at the first index where they differ: there the
/// string with the smaller byte comes first, whatever their lengths.
pub proof fn lemma_bytes_le_first_difference(a: Seq<u8>, b: Seq<u8>, i: int)
    requires
        0 <= i < a.len(),
        i < b.len(),
        forall|j: int| 0 <= j < i ==> a[j] == b[j],
        a[i] != b[i],
    ensures
        bytes_le(a, b) == (a[i] < b[i]),
    decreases i,
{
    if i > 0 {
        lemma_bytes_le_first_difference(a.drop_first(), b.drop_first(), i - 1);
    }
}

/// A byte string comes before every longer string that it begins, and not after it.
pub proof fn lemma_bytes_le_prefix(a: Seq<u8>, b: Seq<u8>)
    requires
        a.len() <= b.len(),
        forall|j: int| 0 <= j < a.len() ==> a[j] == b[j],
    ensures
        bytes_le(a, b),
        a.len() < b.len() ==> !bytes_le(b, a),
    decreases a.len(),
{
    if a.len() > 0 {
        lemma_bytes_le_prefix(a.drop_first(), b.drop_first());
    }
}

/// Any two byte strings are ordered one way or the other.
pub proof fn lemma_bytes_le_total(a: Seq<u8>, b: Seq<u8>)
    ensures
        bytes_le(a, b) || bytes_le(b, a),
    decreases a.len(),
{
    if a.len() > 0 && b.len() > 0 && a[0] == b[0] {
        lemma_bytes_le_total(a.drop_first(), b.drop_first());
    }
}

/// Byte strings ordered both ways are equal.
pub proof fn lemma_bytes_le_antisymmetric(a: Seq<u8>, b: Seq<u8>)
    requires
        bytes_le(a, b),
        bytes_le(b, a),
    ensures
        a == b,
    decreases a.len(),
{
    if a.len() > 0 {
        lemma_bytes_le_antisymmetric(a.drop_first(), b.drop_first());
        assert(a =~= seq![a[0]] + a.drop_first());
        assert(b =~= seq![b[0]] + b.drop_first());
    } else {
        assert(b.len() == 0);
        assert(a =~= b);
    }
}

/// The order of byte strings is transitive.
pub proof fn lemma_bytes_le_transitive(a: Seq<u8>, b: Seq<u8>, c: Seq<u8>)
    requires
        bytes_le(a, b),
        bytes_le(b, c),
    ensures
        bytes_le(a, c),
    decreases a.len(),
{
    if a.len() > 0 && b.len() > 0 && c.len() > 0 && a[0] == b[0] && b[0] == c[0] {
        lemma_bytes_le_transitive(a.drop_first(), b.drop_first(), c.drop_first());
    }
}

/// The bytes by which a listed identity is ordered: its hint, then its local ID.
pub open spec fn listed_key(listed: ListedIdentityStorage) -> (Seq<u8>, Seq<u8>) {
    (encode_utf8(listed.local_hint@), encode_utf8(listed.local_id@))
}

/// The order of listed identities: by hint, and by local ID between equal hints.
pub open spec fn key_le(a: (Seq<u8>, Seq<u8>), b: (Seq<u8>, Seq<u8>)) -> bool {
    if a.0 == b.0 {
        bytes_le(a.1, b.1)
    } else {
        bytes_le(a.0, b.0)
    }
}

/// Any two keys are ordered one way or the other.
pub proof fn lemma_key_le_total(a: (Seq<u8>, Seq<u8>), b: (Seq<u8>, Seq<u8>))
    ensures
        key_le(a, b) || key_le(b, a),
{
    lemma_bytes_le_total(a.0, b.0);
    lemma_bytes_le_total(a.1, b.1);
}

/// The order of keys is transitive.
pub proof fn lemma_key_le_transitive(a: (Seq<u8>, Seq<u8>), b: (Seq<u8>, Seq<u8>), c: (Seq<u8>, Seq<u8>))
    requires
        key_le(a, b),
        key_le(b, c),
    ensures
        key_le(a, c),
{
    if a.0 == b.0 && b.0 == c.0 {
        lemma_bytes_le_transitive(a.1, b.1, c.1);
    } else if a.0 == b.0 {
        assert(bytes_le(a.0, c.0));
    } else if b.0 == c.0 {
        assert(bytes_le(a.0, c.0));
    } else {
        lemma_bytes_le_transitive(a.0, b.0, c.0);
        if a.0 == c.0 {
            lemma_bytes_le_antisymmetric(a.0, b.0);
        }
    }
}

/// Whether `listed` is in the order of `list_identities`: by hint, then by local ID.
pub open spec fn is_listed_in_order(listed: Seq<ListedIdentityStorage>) -> bool {
    forall|i: int, j: int| 0 <= i < j < listed.len() ==> key_le(listed_key(#[trigger] listed[i]), listed_key(#[trigger] listed[j]))
}

/// Whether the byte string `a` comes at or before `b`.
fn bytes_at_or_before(a: &[u8], b: &[u8]) -> (r: bool)
    ensures
        r == bytes_le(a@, b@),
{
    let mut i: usize = 0;
    assert(a@.skip(0) =~= a@);
    assert(b@.skip(0) =~= b@);
    while i < a.len() && i < b.len() && a[i] == b[i]
        invariant
            i <= a@.len(),
            i <= b@.len(),
            bytes_le(a@, b@) == bytes_le(a@.skip(i as int), b@.skip(i as int)),
        decreases a@.len() - i,
    {
        assert(a@.skip(i as int).drop_first() =~= a@.skip(i + 1));
        assert(b@.skip(i as int).drop_first() =~= b@.skip(i + 1));
        i = i + 1;
    }
    if i == a.len() {
        true
    } else if i == b.len() {
        false
    } else {
        a[i] < b[i]
    }
}

/// Whether two byte strings are equal.
fn bytes_equal(a: &[u8], b: &[u8]) -> (r: bool)
    ensures
        r == (a@ == b@),
{
    let le = bytes_at_or_before(a, b);
    let ge = bytes_at_or_before(b, a);
    proof {
        if le && ge {
            lemma_bytes_le_antisymmetric(a@, b@);
        }
        if a@ == b@ {
            lemma_bytes_le_total(a@, b@);
        }
    }
    le && ge
}

/// Whether `a` is listed at or before `b`.
fn listed_at_or_before(a: &ListedIdentityStorage, b: &ListedIdentityStorage) -> (r: bool)
    ensures
        r == key_le(listed_key(*a), listed_key(*b)),
{
    let a_hint = a.local_hint.as_str().as_bytes();
    let b_hint = b.local_hint.as_str().as_bytes();
    if bytes_equal(a_hint, b_hint) {
        bytes_at_or_before(a.local_id.as_str().as_bytes(), b.local_id.as_str().as_bytes())
    } else {
        bytes_at_or_before(a_hint, b_hint)
    }
}

/// Inserting an element at any position adds it to the multiset of a sequence.
proof fn lemma_insert_to_multiset<A>(s: Seq<A>, i: int, x: A)
    requires
        0 <= i <= s.len(),
    ensures
        s.insert(i, x).to_multiset() =~= s.to_multiset().insert(x),
{
    broadcast use vstd::seq_lib::group_to_multiset_ensures;
    let t = s.insert(i, x);
    assert(t.remove(i) =~= s);
    assert(t.to_multiset().remove(x) =~= s.to_multiset());
    assert(t.to_multiset().count(x) > 0) by {
        assert(t[i] == x);
        assert(t.contains(x));
    }
}

/// Puts listed identities in the order of `list_identities`: by hint, then by local ID,
/// keeping every entry.
pub fn sort_listed_identities(identities: Vec<ListedIdentityStorage>) -> (sorted: Vec<ListedIdentityStorage>)
    ensures
        sorted@.to_multiset() == identities@.to_multiset(),
        is_listed_in_order(sorted@),
{
    broadcast use vstd::seq_lib::group_to_multiset_ensures;
    let ghost original = identities@;
    let mut rest = identities;
    let mut sorted: Vec<ListedIdentityStorage> = Vec::new();
    while rest.len() > 0
        invariant
            sorted@.to_multiset().add(rest@.to_multiset()) =~= original.to_multiset(),
            is_listed_in_order(sorted@),
        decreases rest@.len(),
    {
        let ghost before = rest@;
        let x = rest.pop().unwrap();
        assert(before =~= rest@.push(x));
        let mut pos: usize = 0;
        while pos < sorted.len() && listed_at_or_before(&sorted[pos], &x)
            invariant
                pos <= sorted@.len(),
                forall|k: int| 0 <= k < pos ==> key_le(listed_key(#[trigger] sorted@[k]), listed_key(x)),
            decreases sorted@.len() - pos,
        {
            pos = pos + 1;
        }
        proof {
            if pos < sorted@.len() {
                lemma_key_le_total(listed_key(sorted@[pos as int]), listed_key(x));
            }
            lemma_insert_to_multiset(sorted@, pos as int, x);
        }
        let ghost old_sorted = sorted@;
        sorted.insert(pos, x);
        proof {
            vstd::seq_lib::to_multiset_build(rest@, x);
            assert(before.to_multiset() =~= rest@.to_multiset().insert(x));
            assert(sorted@.to_multiset() =~= old_sorted.to_multiset().insert(x));
            assert(sorted@.to_multiset().add(rest@.to_multiset()) =~= old_sorted.to_multiset().add(before.to_multiset()));
            let s = sorted@;
            assert forall|i: int, j: int| 0 <= i < j < s.len() implies key_le(listed_key(#[trigger] s[i]), listed_key(#[trigger] s[j])) by {
                if i < pos && j == pos {
                } else if i < pos && j > pos {
                    assert(s[j] == old_sorted[j - 1]);
                    assert(key_le(listed_key(old_sorted[i]), listed_key(old_sorted[j - 1])));
                } else if i == pos {
                    assert(s[j] == old_sorted[j - 1]);
                    if j - 1 > pos {
                        assert(key_le(listed_key(old_sorted[pos as int]), listed_key(old_sorted[j - 1])));
                        lemma_key_le_transitive(listed_key(x), listed_key(old_sorted[pos as int]), listed_key(old_sorted[j - 1]));
                    }
                } else if i > pos {
                    assert(s[i] == old_sorted[i - 1]);
                    assert(s[j] == old_sorted[j - 1]);
                    assert(key_le(listed_key(old_sorted[i - 1]), listed_key(old_sorted[j - 1])));
                } else {
                    assert(s[i] == old_sorted[i]);
                    assert(s[j] == old_sorted[j]);
                }
            }
        }
    }
    sorted
}

// ---------------------------------------------------------------------------------------------
// Messages
// ---------------------------------------------------------------------------------------------

impl IdentityStorageError {
    /// The beginning of the error's message that the library determines.
    pub open spec fn text_prefix(self) -> Seq<char> {
        match self {
            IdentityStorageError::Io(_) => "identity storage IO failed: "@,
            IdentityStorageError::Json(_) => "identity storage serialization failed: "@,
            IdentityStorageError::LocalIdCollision => "could not create a unique local identity ID"@,
        }
    }

    /// Whether the message is the prefix alone (no message of an outside error follows it).
    pub open spec fn text_is_complete(self) -> bool {
        self is LocalIdCollision
    }

    /// The message of the error, as `Display` would write it: the prefix, followed for `Io`
    /// and `Json` by the message of the underlying error.
    pub fn to_display_string(&self) -> (text: String)
        ensures
            text@.len() >= self.text_prefix().len(),
            text@.take(self.text_prefix().len() as int) == self.text_prefix(),
            self.text_is_complete() ==> text@ == self.text_prefix(),
    {
        match self {
            IdentityStorageError::Io(err) => {
                let mut text = String::from_str("identity storage IO failed: ");
                let inner = io_error_text(err);
                let ghost prefix = text@;
                text.append(inner.as_str());
                assert(text@.take(prefix.len() as int) =~= prefix);
                text
            },
            IdentityStorageError::Json(err) => {
                let mut text = String::from_str("identity storage serialization failed: ");
                let inner = json_error_text(err);
                let ghost prefix = text@;
                text.append(inner.as_str());
                assert(text@.take(prefix.len() as int) =~= prefix);
                text
            },
            IdentityStorageError::LocalIdCollision => {
                let text = String::from_str("could not create a unique local identity ID");
                assert(text@.take(text@.len() as int) =~= text@);
                text
            },
        }
    }
}

} // verus!
