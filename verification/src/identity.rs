//! The identity-source model and its on-disk persisted forms.
//!
//! An `IdentityBlob` is the richer persisted representation of a node's key
//! material: a human-readable UTF-8 text document of named fields, one line
//! per present field, each key encoded as lower-case hex.  The raw key file
//! behind `Identity::load_identity` instead holds exactly the 32 raw bytes of
//! a network private key.  Emitting and parsing the document are both
//! verified here, with a proved round-trip law; reading and writing the files
//! themselves is ordinary I/O that callers perform around these functions.

use vstd::prelude::*;

verus! {

use crate::account_address::AccountAddress;
use crate::account_address::derived_address_of;
use crate::crypto::Ed25519PrivateKey;
use crate::crypto::push_all;
use crate::crypto::KEY_LENGTH;
use crate::crypto::X25519PrivateKey;
use crate::crypto::x25519_public_of;
use crate::hex::hex_encode;
use crate::hex::hex_decode;
use crate::hex::hex_of;
use crate::hex::is_hex_seq;
use crate::hex::lemma_unhex_hex;
use crate::hex::unhex;

/// The mathematical content of an identity blob: each key as its raw bytes.
pub ghost struct BlobView {
    pub account_address: Option<Seq<u8>>,
    pub account_private_key: Option<Seq<u8>>,
    pub consensus_private_key: Option<Seq<u8>>,
    pub network_private_key: Seq<u8>,
}

impl BlobView {
    /// Every present field holds exactly `KEY_LENGTH` bytes.
    pub open spec fn wf(self) -> bool {
        &&& (self.account_address matches Some(b) ==> b.len() == KEY_LENGTH)
        &&& (self.account_private_key matches Some(b) ==> b.len() == KEY_LENGTH)
        &&& (self.consensus_private_key matches Some(b) ==> b.len() == KEY_LENGTH)
        &&& self.network_private_key.len() == KEY_LENGTH
    }
}

/// The bytes of `"account_address: "`.
pub open spec fn aa_prefix() -> Seq<u8> {
    seq![97u8, 99, 99, 111, 117, 110, 116, 95, 97, 100, 100, 114, 101, 115, 115, 58, 32]
}

/// The bytes of `"account_private_key: "`.
pub open spec fn apk_prefix() -> Seq<u8> {
    seq![97u8, 99, 99, 111, 117, 110, 116, 95, 112, 114, 105, 118, 97, 116, 101, 95, 107, 101, 121, 58, 32]
}

/// The bytes of `"consensus_private_key: "`.
pub open spec fn cpk_prefix() -> Seq<u8> {
    seq![99u8, 111, 110, 115, 101, 110, 115, 117, 115, 95, 112, 114, 105, 118, 97, 116, 101, 95, 107, 101, 121, 58, 32]
}

/// The bytes of `"network_private_key: "`.
pub open spec fn npk_prefix() -> Seq<u8> {
    seq![110u8, 101, 116, 119, 111, 114, 107, 95, 112, 114, 105, 118, 97, 116, 101, 95, 107, 101, 121, 58, 32]
}

/// One document line: the field name with its separator, the hex-encoded
/// key, a newline.
pub open spec fn field_line(prefix: Seq<u8>, bytes: Seq<u8>) -> Seq<u8> {
    prefix + hex_of(bytes) + seq![10u8]
}

/// The line of an optional field: absent fields are omitted entirely.
pub open spec fn opt_field_line(prefix: Seq<u8>, bytes: Option<Seq<u8>>) -> Seq<u8> {
    match bytes {
        Some(b) => field_line(prefix, b),
        None => Seq::empty(),
    }
}

/// The serialized document of a blob: present fields in a fixed order, the
/// mandatory network key last.
pub open spec fn doc_of(b: BlobView) -> Seq<u8> {
    opt_field_line(aa_prefix(), b.account_address) + opt_field_line(
        apk_prefix(),
        b.account_private_key,
    ) + opt_field_line(cpk_prefix(), b.consensus_private_key) + field_line(
        npk_prefix(),
        b.network_private_key,
    )
}

/// Tries to read one field line off the front of `s`: the given name, 64
/// hex digits, a newline.  Yields the decoded bytes and the remainder.
pub open spec fn try_field(s: Seq<u8>, prefix: Seq<u8>) -> Option<(Seq<u8>, Seq<u8>)> {
    let n = prefix.len() as int;
    if s.len() >= n + 65 && s.take(n) == prefix && is_hex_seq(s.subrange(n, n + 64)) && s[n + 64]
        == 10u8 {
        Some((unhex(s.subrange(n, n + 64)), s.skip(n + 65)))
    } else {
        None
    }
}

/// Reads an optional field: absence leaves the input untouched.
pub open spec fn opt_step(s: Seq<u8>, prefix: Seq<u8>) -> (Option<Seq<u8>>, Seq<u8>) {
    match try_field(s, prefix) {
        Some((v, rest)) => (Some(v), rest),
        None => (None, s),
    }
}

/// Parses a whole document: the three optional fields in order, then the
/// mandatory network key, then nothing.  Anything else is malformed.
pub open spec fn parse_doc(s: Seq<u8>) -> Option<BlobView> {
    let (aa, s1) = opt_step(s, aa_prefix());
    let (apk, s2) = opt_step(s1, apk_prefix());
    let (cpk, s3) = opt_step(s2, cpk_prefix());
    match try_field(s3, npk_prefix()) {
        Some((npk, rest)) => if rest.len() == 0 {
            Some(
                BlobView {
                    account_address: aa,
                    account_private_key: apk,
                    consensus_private_key: cpk,
                    network_private_key: npk,
                },
            )
        } else {
            Option::None
        },
        None => Option::None,
    }
}

/// Reading a line that was just printed yields its bytes and the remainder.
proof fn lemma_try_field_hit(prefix: Seq<u8>, bytes: Seq<u8>, rest: Seq<u8>)
    requires
        bytes.len() == KEY_LENGTH,
    ensures
        try_field(field_line(prefix, bytes) + rest, prefix) == Some((bytes, rest)),
{
    let s = field_line(prefix, bytes) + rest;
    let n = prefix.len() as int;
    lemma_unhex_hex(bytes);
    assert(s.len() >= n + 65);
    assert(s.take(n) =~= prefix);
    assert(s.subrange(n, n + 64) =~= hex_of(bytes));
    assert(s[n + 64] == 10u8);
    assert(s.skip(n + 65) =~= rest);
}

/// A field whose name differs at some index is not read.
proof fn lemma_try_field_miss(s: Seq<u8>, prefix: Seq<u8>, k: int)
    requires
        0 <= k < prefix.len(),
        k < s.len(),
        s[k] != prefix[k],
    ensures
        try_field(s, prefix) is None,
{
    let n = prefix.len() as int;
    if s.len() >= n + 65 && s.take(n) == prefix {
        assert(s.take(n)[k] == s[k]);
        assert(false);
    }
}

/// A document starting with a differently named line is not read as `p1`.
proof fn lemma_try_field_miss_line(p1: Seq<u8>, p2: Seq<u8>, v2: Seq<u8>, rest: Seq<u8>, k: int)
    requires
        0 <= k < p1.len(),
        k < p2.len(),
        p1[k] != p2[k],
    ensures
        try_field(field_line(p2, v2) + rest, p1) is None,
{
    let s = field_line(p2, v2) + rest;
    assert(s[k] == p2[k]);
    lemma_try_field_miss(s, p1, k);
}

/// Round-trip law: parsing the printed document of any well-formed blob
/// reproduces the blob exactly, optional-absent fields staying absent.
pub proof fn lemma_parse_doc_of(b: BlobView)
    requires
        b.wf(),
    ensures
        parse_doc(doc_of(b)) == Some(b),
{
    let l2 = opt_field_line(apk_prefix(), b.account_private_key);
    let l3 = opt_field_line(cpk_prefix(), b.consensus_private_key);
    let l4 = field_line(npk_prefix(), b.network_private_key);
    let s = doc_of(b);
    let t1 = l2 + (l3 + l4);
    let t2 = l3 + l4;

    // stage 1: the optional account address
    match b.account_address {
        Some(aa) => {
            assert(s =~= field_line(aa_prefix(), aa) + t1);
            lemma_try_field_hit(aa_prefix(), aa, t1);
            assert(opt_step(s, aa_prefix()) == (Some(aa), t1));
        },
        None => {
            assert(s =~= t1);
            match b.account_private_key {
                Some(apk) => {
                    assert(s =~= field_line(apk_prefix(), apk) + t2);
                    assert(aa_prefix()[8] == 97u8 && apk_prefix()[8] == 112u8);
                    lemma_try_field_miss_line(aa_prefix(), apk_prefix(), apk, t2, 8);
                },
                None => {
                    match b.consensus_private_key {
                        Some(cpk) => {
                            assert(s =~= field_line(cpk_prefix(), cpk) + l4);
                            assert(aa_prefix()[0] == 97u8 && cpk_prefix()[0] == 99u8);
                            lemma_try_field_miss_line(aa_prefix(), cpk_prefix(), cpk, l4, 0);
                        },
                        None => {
                            assert(s =~= l4 + Seq::<u8>::empty());
                            assert(aa_prefix()[0] == 97u8 && npk_prefix()[0] == 110u8);
                            lemma_try_field_miss_line(
                                aa_prefix(),
                                npk_prefix(),
                                b.network_private_key,
                                Seq::<u8>::empty(),
                                0,
                            );
                        },
                    }
                },
            }
            assert(opt_step(s, aa_prefix()) == (Option::<Seq<u8>>::None, s));
        },
    }
    let s1 = opt_step(s, aa_prefix()).1;
    assert(s1 =~= t1);

    // stage 2: the optional account private key
    match b.account_private_key {
        Some(apk) => {
            assert(s1 =~= field_line(apk_prefix(), apk) + t2);
            lemma_try_field_hit(apk_prefix(), apk, t2);
            assert(opt_step(s1, apk_prefix()) == (Some(apk), t2));
        },
        None => {
            assert(s1 =~= t2);
            match b.consensus_private_key {
                Some(cpk) => {
                    assert(s1 =~= field_line(cpk_prefix(), cpk) + l4);
                    assert(apk_prefix()[0] == 97u8 && cpk_prefix()[0] == 99u8);
                    lemma_try_field_miss_line(apk_prefix(), cpk_prefix(), cpk, l4, 0);
                },
                None => {
                    assert(s1 =~= l4 + Seq::<u8>::empty());
                    assert(apk_prefix()[0] == 97u8 && npk_prefix()[0] == 110u8);
                    lemma_try_field_miss_line(
                        apk_prefix(),
                        npk_prefix(),
                        b.network_private_key,
                        Seq::<u8>::empty(),
                        0,
                    );
                },
            }
            assert(opt_step(s1, apk_prefix()) == (Option::<Seq<u8>>::None, s1));
        },
    }
    let s2 = opt_step(s1, apk_prefix()).1;
    assert(s2 =~= t2);

    // stage 3: the optional consensus private key
    match b.consensus_private_key {
        Some(cpk) => {
            assert(s2 =~= field_line(cpk_prefix(), cpk) + l4);
            lemma_try_field_hit(cpk_prefix(), cpk, l4);
            assert(opt_step(s2, cpk_prefix()) == (Some(cpk), l4));
        },
        None => {
            assert(s2 =~= l4 + Seq::<u8>::empty());
            assert(cpk_prefix()[0] == 99u8 && npk_prefix()[0] == 110u8);
            lemma_try_field_miss_line(
                cpk_prefix(),
                npk_prefix(),
                b.network_private_key,
                Seq::<u8>::empty(),
                0,
            );
            assert(opt_step(s2, cpk_prefix()) == (Option::<Seq<u8>>::None, s2));
        },
    }
    let s3 = opt_step(s2, cpk_prefix()).1;
    assert(s3 =~= l4);

    // stage 4: the mandatory network private key, then the end
    assert(s3 =~= field_line(npk_prefix(), b.network_private_key) + Seq::<u8>::empty());
    lemma_try_field_hit(npk_prefix(), b.network_private_key, Seq::<u8>::empty());
    assert(try_field(s3, npk_prefix()) == Some(
        (b.network_private_key, Seq::<u8>::empty()),
    ));
}

/// The bytes of `"account_address: "`, as a vector.
fn aa_prefix_vec() -> (r: Vec<u8>)
    ensures
        r@ == aa_prefix(),
{
    let a: [u8; 17] = [97, 99, 99, 111, 117, 110, 116, 95, 97, 100, 100, 114, 101, 115, 115, 58, 32];
    let v = vstd::slice::slice_to_vec(a.as_slice());
    proof {
        assert(v@ =~= aa_prefix());
    }
    v
}

/// The bytes of `"account_private_key: "`, as a vector.
fn apk_prefix_vec() -> (r: Vec<u8>)
    ensures
        r@ == apk_prefix(),
{
    let a: [u8; 21] = [
        97,
        99,
        99,
        111,
        117,
        110,
        116,
        95,
        112,
        114,
        105,
        118,
        97,
        116,
        101,
        95,
        107,
        101,
        121,
        58,
        32,
    ];
    let v = vstd::slice::slice_to_vec(a.as_slice());
    proof {
        assert(v@ =~= apk_prefix());
    }
    v
}

/// The bytes of `"consensus_private_key: "`, as a vector.
fn cpk_prefix_vec() -> (r: Vec<u8>)
    ensures
        r@ == cpk_prefix(),
{
    let a: [u8; 23] = [
        99,
        111,
        110,
        115,
        101,
        110,
        115,
        117,
        115,
        95,
        112,
        114,
        105,
        118,
        97,
        116,
        101,
        95,
        107,
        101,
        121,
        58,
        32,
    ];
    let v = vstd::slice::slice_to_vec(a.as_slice());
    proof {
        assert(v@ =~= cpk_prefix());
    }
    v
}

/// The bytes of `"network_private_key: "`, as a vector.
fn npk_prefix_vec() -> (r: Vec<u8>)
    ensures
        r@ == npk_prefix(),
{
    let a: [u8; 21] = [
        110,
        101,
        116,
        119,
        111,
        114,
        107,
        95,
        112,
        114,
        105,
        118,
        97,
        116,
        101,
        95,
        107,
        101,
        121,
        58,
        32,
    ];
    let v = vstd::slice::slice_to_vec(a.as_slice());
    proof {
        assert(v@ =~= npk_prefix());
    }
    v
}

/// Appends one field line to `out`.
fn push_line(out: &mut Vec<u8>, prefix: &Vec<u8>, bytes: &Vec<u8>)
    ensures
        final(out)@ == old(out)@ + field_line(prefix@, bytes@),
{
    push_all(out, prefix.as_slice());
    let h = hex_encode(bytes.as_slice());
    push_all(out, h.as_slice());
    out.push(10);
    proof {
        assert(out@ =~= old(out)@ + field_line(prefix@, bytes@));
    }
}

/// Tries to read one field line of `doc` starting at `pos`, mirroring
/// `try_field` on the remaining suffix.
fn try_field_at(doc: &Vec<u8>, pos: usize, prefix: &Vec<u8>) -> (r: Option<(Vec<u8>, usize)>)
    requires
        pos <= doc@.len(),
        prefix@.len() < 100,
    ensures
        r matches Some(p) ==> (try_field(doc@.skip(pos as int), prefix@) == Some(
            (p.0@, doc@.skip(p.1 as int)),
        ) && pos <= p.1 <= doc@.len()),
        r is None ==> try_field(doc@.skip(pos as int), prefix@) is None,
{
    let ghost s = doc@.skip(pos as int);
    let n = prefix.len();
    if doc.len() - pos < n + 65 {
        proof {
            assert(s.len() < n + 65);
        }
        return Option::None;
    }
    let mut i: usize = 0;
    while i < n
        invariant
            i <= n,
            n == prefix@.len(),
            pos <= doc@.len(),
            doc@.len() <= usize::MAX,
            doc@.len() - pos >= n + 65,
            s == doc@.skip(pos as int),
            forall|j: int| 0 <= j < i ==> s[j] == prefix@[j],
        decreases n - i,
    {
        if doc[pos + i] != prefix[i] {
            proof {
                assert(s[i as int] == doc@[pos + i]);
                lemma_try_field_miss(s, prefix@, i as int);
            }
            return Option::None;
        }
        i = i + 1;
    }
    proof {
        assert(s.take(n as int) =~= prefix@);
    }
    let hexpart = vstd::slice::slice_subrange(doc.as_slice(), pos + n, pos + n + 64);
    proof {
        assert(hexpart@ =~= s.subrange(n as int, n + 64));
    }
    match hex_decode(hexpart) {
        Some(bytes) => {
            if doc[pos + n + 64] == 10 {
                proof {
                    assert(s[n + 64] == 10u8);
                    assert(s.skip(n + 65) =~= doc@.skip((pos + n + 65) as int));
                    assert(try_field(s, prefix@) == Some(
                        (bytes@, doc@.skip((pos + n + 65) as int)),
                    ));
                }
                Some((bytes, pos + n + 65))
            } else {
                proof {
                    assert(s[n + 64] != 10u8);
                }
                Option::None
            }
        },
        None => {
            proof {
                assert(!is_hex_seq(s.subrange(n as int, n + 64)));
            }
            Option::None
        },
    }
}

/// A single structure for reading and writing a node's identity across
/// configurations.  All fields but the network key are optional.
#[derive(Debug)]
pub struct IdentityBlob {
    /// Optional account address; when absent the peer identifier is derived
    /// from the network key's public counterpart.
    pub account_address: Option<AccountAddress>,
    /// Optional account key, used only by validators.
    pub account_private_key: Option<Ed25519PrivateKey>,
    /// Optional consensus key, used only by validators.
    pub consensus_private_key: Option<Ed25519PrivateKey>,
    /// The mandatory network private key.
    pub network_private_key: X25519PrivateKey,
}

impl View for IdentityBlob {
    type V = BlobView;

    closed spec fn view(&self) -> BlobView {
        BlobView {
            account_address: match self.account_address {
                Some(a) => Some(a@),
                None => Option::None,
            },
            account_private_key: match self.account_private_key {
                Some(k) => Some(k@),
                None => Option::None,
            },
            consensus_private_key: match self.consensus_private_key {
                Some(k) => Some(k@),
                None => Option::None,
            },
            network_private_key: self.network_private_key@,
        }
    }
}

impl IdentityBlob {
    /// Every present field holds a full-length key.
    pub open spec fn wf(&self) -> bool {
        self@.wf()
    }

    /// Serializes the blob into its text document: present fields only, in
    /// a fixed order, each key as lower-case hex.
    pub fn to_document(&self) -> (r: Vec<u8>)
        requires
            self.wf(),
        ensures
            r@ == doc_of(self@),
    {
        let mut out: Vec<u8> = Vec::new();
        match &self.account_address {
            Some(a) => {
                let p = aa_prefix_vec();
                let b = a.to_bytes();
                push_line(&mut out, &p, &b);
            },
            None => {},
        }
        match &self.account_private_key {
            Some(k) => {
                let p = apk_prefix_vec();
                let b = k.to_bytes();
                push_line(&mut out, &p, &b);
            },
            None => {},
        }
        match &self.consensus_private_key {
            Some(k) => {
                let p = cpk_prefix_vec();
                let b = k.to_bytes();
                push_line(&mut out, &p, &b);
            },
            None => {},
        }
        let p = npk_prefix_vec();
        let b = self.network_private_key.to_bytes();
        push_line(&mut out, &p, &b);
        proof {
            assert(out@ =~= doc_of(self@));
        }
        out
    }

    /// The node's peer identifier.  A present account address is
    /// authoritative and may diverge from the derived value (for example
    /// after a key rotation); when it is absent the identifier is derived
    /// from the network key's public counterpart.
    pub fn peer_id(&self) -> (r: AccountAddress)
        requires
            self.wf(),
        ensures
            self@.account_address matches Some(a) ==> r@ == a,
            self@.account_address is None ==> r@ == derived_address_of(
                x25519_public_of(self@.network_private_key),
            ),
    {
        match &self.account_address {
            Some(a) => a.duplicate(),
            None => {
                let public = self.network_private_key.public_key();
                AccountAddress::from_identity_public_key(&public)
            },
        }
    }

    /// Parses a text document back into a blob.  Fails, with no partial
    /// result, on anything but a well-formed document: an unknown or
    /// repeated field, a malformed key, a missing network key, or trailing
    /// content.
    #[verifier::rlimit(50)]
    pub fn from_document(doc: &Vec<u8>) -> (r: Result<IdentityBlob, IdentityError>)
        ensures
            parse_doc(doc@) matches Some(b) ==> (r matches Ok(blob) && blob@ == b && blob.wf()),
            parse_doc(doc@) is None ==> (r matches Err(e) && e
                == IdentityError::DeserializationError),
    {
        proof {
            assert(doc@.skip(0) =~= doc@);
        }
        let aa_p = aa_prefix_vec();
        let apk_p = apk_prefix_vec();
        let cpk_p = cpk_prefix_vec();
        let npk_p = npk_prefix_vec();

        let mut pos: usize = 0;
        let account_address: Option<AccountAddress> = match try_field_at(doc, pos, &aa_p) {
            Some((v, p)) => {
                let a = AccountAddress::from_bytes(v).unwrap();
                pos = p;
                Some(a)
            },
            None => Option::None,
        };
        proof {
            assert(opt_step(doc@, aa_prefix()).1 == doc@.skip(pos as int));
        }
        let account_private_key: Option<Ed25519PrivateKey> = match try_field_at(
            doc,
            pos,
            &apk_p,
        ) {
            Some((v, p)) => {
                let k = Ed25519PrivateKey::from_bytes(v).unwrap();
                pos = p;
                Some(k)
            },
            None => Option::None,
        };
        proof {
            assert(opt_step(opt_step(doc@, aa_prefix()).1, apk_prefix()).1 == doc@.skip(
                pos as int,
            ));
        }
        let consensus_private_key: Option<Ed25519PrivateKey> = match try_field_at(
            doc,
            pos,
            &cpk_p,
        ) {
            Some((v, p)) => {
                let k = Ed25519PrivateKey::from_bytes(v).unwrap();
                pos = p;
                Some(k)
            },
            None => Option::None,
        };
        proof {
            assert(opt_step(
                opt_step(opt_step(doc@, aa_prefix()).1, apk_prefix()).1,
                cpk_prefix(),
            ).1 == doc@.skip(pos as int));
        }
        match try_field_at(doc, pos, &npk_p) {
            Some((v, p)) => {
                if p == doc.len() {
                    proof {
                        assert(doc@.skip(p as int) =~= Seq::<u8>::empty());
                    }
                    let network_private_key = X25519PrivateKey::from_bytes(v).unwrap();
                    Ok(
                        IdentityBlob {
                            account_address,
                            account_private_key,
                            consensus_private_key,
                            network_private_key,
                        },
                    )
                } else {
                    proof {
                        assert(doc@.skip(p as int).len() > 0);
                    }
                    Err(IdentityError::DeserializationError)
                }
            },
            None => Err(IdentityError::DeserializationError),
        }
    }
}

/// A failure while reading persisted identity material.  Malformed input is
/// fatal and surfaced immediately; no partial value is ever produced.
#[derive(Clone, Copy, Debug, PartialEq, Eq, Structural)]
pub enum IdentityError {
    /// The document or raw key file could not be parsed.
    DeserializationError,
    /// A raw key file held a byte sequence of the wrong length.
    WrongKeyLength { expected: usize, actual: usize },
}

/// Pure metadata distinguishing an identity the node minted itself from one
/// an operator supplied; never involved in cryptographic correctness and
/// excluded from persisted forms.
#[derive(Clone, Copy, Debug, PartialEq, Eq, Structural)]
pub enum IdentitySource {
    /// The identity was generated when the configuration was created.
    AutoGenerated,
    /// The identity was supplied by the operator.
    UserProvided,
}

impl Default for IdentitySource {
    /// The default provenance is operator-supplied.
    fn default() -> (r: Self)
        ensures
            r == IdentitySource::UserProvided,
    {
        IdentitySource::UserProvided
    }
}

/// A descriptor of an external secure-storage backend: a name-based
/// key/value service whose internals are outside this crate.
#[derive(Debug)]
pub struct SecureBackend {
    /// The name by which the hosting configuration selects the backend.
    pub descriptor: String,
}

/// The identity is embedded in the configuration itself.
#[derive(Debug)]
pub struct IdentityFromConfig {
    /// The network private key.
    pub key: X25519PrivateKey,
    /// The peer identifier.
    pub peer_id: AccountAddress,
    /// Whether the node minted this identity itself.
    pub source: IdentitySource,
}

/// The identity is fetched by name from a secure-storage backend.
#[derive(Debug)]
pub struct IdentityFromStorage {
    /// The backend to query.
    pub backend: SecureBackend,
    /// The name under which the key is stored.
    pub key_name: String,
    /// The name under which the peer identifier is stored.
    pub peer_id_name: String,
}

/// The identity is loaded from a standalone file holding only the raw
/// private key bytes.
#[derive(Debug)]
pub struct IdentityFromFile {
    /// The path of the raw key file.
    pub path: String,
}

/// How a node acquires the key material backing its identity: exactly one
/// variant is active per configured node.
#[derive(Debug)]
pub enum Identity {
    /// Key material embedded in configuration.
    FromConfig(IdentityFromConfig),
    /// Key material fetched from secure storage.
    FromStorage(IdentityFromStorage),
    /// Key material in a standalone raw key file.
    FromFile(IdentityFromFile),
    /// No identity configured: one must be generated.
    NoIdentity,
}

impl Identity {
    /// An operator-supplied identity embedded in configuration.
    pub fn from_config(key: X25519PrivateKey, peer_id: AccountAddress) -> (r: Self)
        ensures
            r matches Identity::FromConfig(c) && c.key@ == key@ && c.peer_id@ == peer_id@
                && c.source == IdentitySource::UserProvided,
    {
        Identity::FromConfig(
            IdentityFromConfig { key, peer_id, source: IdentitySource::UserProvided },
        )
    }

    /// An identity the node minted itself, embedded in configuration.
    pub fn from_config_auto_generated(key: X25519PrivateKey, peer_id: AccountAddress) -> (r: Self)
        ensures
            r matches Identity::FromConfig(c) && c.key@ == key@ && c.peer_id@ == peer_id@
                && c.source == IdentitySource::AutoGenerated,
    {
        Identity::FromConfig(
            IdentityFromConfig { key, peer_id, source: IdentitySource::AutoGenerated },
        )
    }

    /// An identity held in a secure-storage backend under the given names.
    pub fn from_storage(key_name: String, peer_id_name: String, backend: SecureBackend) -> (r:
        Self)
        ensures
            r matches Identity::FromStorage(s) && s.key_name == key_name && s.peer_id_name
                == peer_id_name && s.backend == backend,
    {
        Identity::FromStorage(IdentityFromStorage { backend, key_name, peer_id_name })
    }

    /// An identity held in a raw key file at the given path.
    pub fn from_file(path: String) -> (r: Self)
        ensures
            r matches Identity::FromFile(f) && f.path == path,
    {
        Identity::FromFile(IdentityFromFile { path })
    }

    /// Interprets the contents of a raw identity key file.  `None` stands
    /// for an absent file and is not an error: the caller must generate an
    /// identity.  A present file must hold exactly the raw bytes of a
    /// network private key; the peer identifier is then derived from the
    /// key's public counterpart, and the identity counts as
    /// operator-provided (loaded, not newly generated).
    pub fn load_identity(contents: Option<Vec<u8>>) -> (r: Result<Option<Identity>, IdentityError>)
        ensures
            contents is None ==> (r matches Ok(o) && o is None),
            contents matches Some(b) ==> (b@.len() == KEY_LENGTH ==> (r matches Ok(o)
                && o matches Some(id) && id matches Identity::FromConfig(c) && c.key@ == b@
                && c.peer_id@ == derived_address_of(x25519_public_of(b@)) && c.source
                == IdentitySource::UserProvided)) && (b@.len() != KEY_LENGTH ==> (r matches Err(e)
                && e matches IdentityError::WrongKeyLength { expected, actual } && expected
                == KEY_LENGTH && actual == b@.len())),
    {
        match contents {
            None => Ok(Option::None),
            Some(bytes) => {
                if bytes.len() == KEY_LENGTH {
                    let key = X25519PrivateKey::from_bytes(bytes).unwrap();
                    let public = key.public_key();
                    let peer_id = AccountAddress::from_identity_public_key(&public);
                    Ok(Some(Identity::from_config(key, peer_id)))
                } else {
                    let actual = bytes.len();
                    Err(IdentityError::WrongKeyLength { expected: KEY_LENGTH, actual })
                }
            },
        }
    }
}

/// Saving writes the raw key bytes unchanged, and loading builds the
/// identity from the file bytes unchanged; so a key saved and then loaded
/// from the same path backs a signer whose public counterpart is that of
/// the originally saved key.
pub proof fn lemma_save_load_public_key(key_bytes: Seq<u8>, file_bytes: Seq<u8>)
    requires
        file_bytes == key_bytes,
    ensures
        x25519_public_of(file_bytes) == x25519_public_of(key_bytes),
{
}

} // verus!
