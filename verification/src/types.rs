//! The record types that routing messages carry: authorities, keys,
//! signatures, node identities and addresses.

use vstd::prelude::*;

use crate::bytes::{
    array_as_vector, generate_random_vec_u8, random_u32, vector_as_u8_32_array,
    vector_as_u8_64_array,
};
use crate::crypto::{
    curve25519_public_key, ed25519_public_key, ed25519_signed_message, gen_box_keypair, gen_sign_keypair, sha512, sha512_digest,
    sign_message,
};
use crate::dht_id::DhtId;

verus! {

/// Number of nodes in a close group.
pub const GROUP_SIZE: u32 = 23;

/// Number of nodes of a close group that make a quorum.
pub const QUORUM_SIZE: u32 = 19;

/// Wire tag of an encoded `Authority`.
pub const AUTHORITY_TAG: u64 = 5483100;

/// Wire tag of an encoded `DestinationAddress`.
pub const DESTINATION_ADDRESS_TAG: u64 = 5483101;

/// Wire tag of an encoded `SourceAddress`.
pub const SOURCE_ADDRESS_TAG: u64 = 5483102;

/// Wire tag of an encoded `PublicPmid`.
pub const PUBLIC_PMID_TAG: u64 = 5483001;

/// Wire tag of the other encoded records (`NameAndTypeId`, `Signature`,
/// `PublicSignKey`, `PublicKey`, `AccountTransferInfo`).
pub const RECORD_TAG: u64 = 5483000;

pub type MessageId = u32;

pub type NodeAddress = DhtId;

pub type GroupAddress = DhtId;

pub type SerialisedMessage = Vec<u8>;

pub type CloseGroupDifference = (Vec<DhtId>, Vec<DhtId>);

pub type PmidNode = DhtId;

pub type PmidNodes = Vec<PmidNode>;

pub type FilterType = (DhtId, MessageId);

/// The role in which a node sends or receives a message.
#[derive(PartialEq, Eq, Structural, PartialOrd, Ord, Clone, Copy, Debug)]
pub enum Authority {
    /// From a node in our range but not in our routing table.
    ClientManager,
    /// The target name is in the group we are in.
    NaeManager,
    /// Received from a node in our routing table.
    NodeManager,
    /// In our group and routing table.
    ManagedNode,
    /// In our group.
    ManagedClient,
    /// Detached.
    Client,
    Unknown,
}

/// The name under which an authority is encoded.
pub open spec fn authority_name(authority: Authority) -> Seq<char> {
    match authority {
        Authority::ClientManager => "ClientManager"@,
        Authority::NaeManager => "NaeManager"@,
        Authority::NodeManager => "NodeManager"@,
        Authority::ManagedNode => "ManagedNode"@,
        Authority::ManagedClient => "ManagedClient"@,
        Authority::Client => "Client"@,
        Authority::Unknown => "Unknown"@,
    }
}

/// The authority that an encoded name stands for; any name that is not
/// one of the known ones stands for `Unknown`.
pub open spec fn authority_from_name(name: Seq<char>) -> Authority {
    if name == "ClientManager"@ {
        Authority::ClientManager
    } else if name == "NaeManager"@ {
        Authority::NaeManager
    } else if name == "NodeManager"@ {
        Authority::NodeManager
    } else if name == "ManagedNode"@ {
        Authority::ManagedNode
    } else if name == "ManagedClient"@ {
        Authority::ManagedClient
    } else if name == "Client"@ {
        Authority::Client
    } else {
        Authority::Unknown
    }
}

/// Whether two strings hold the same characters.
pub fn str_equals(a: &str, b: &str) -> (equal: bool)
    ensures
        equal == (a@ == b@),
{
    let n: usize = a.unicode_len();
    if n != b.unicode_len() {
        return false;
    }
    for i in 0..n
        invariant
            n == a@.len(),
            n == b@.len(),
            forall|j: int| 0 <= j < i ==> a@[j] == b@[j],
    {
        if a.get_char(i) != b.get_char(i) {
            return false;
        }
    }
    assert(a@ =~= b@);
    true
}

impl Authority {
    /// The name under which the authority is encoded.
    pub fn name(&self) -> (name: &'static str)
        ensures
            name@ == authority_name(*self),
    {
        match self {
            Authority::ClientManager => "ClientManager",
            Authority::NaeManager => "NaeManager",
            Authority::NodeManager => "NodeManager",
            Authority::ManagedNode => "ManagedNode",
            Authority::ManagedClient => "ManagedClient",
            Authority::Client => "Client",
            Authority::Unknown => "Unknown",
        }
    }

    /// The authority that a decoded name stands for.
    pub fn from_name(name: &str) -> (authority: Authority)
        ensures
            authority == authority_from_name(name@),
    {
        if str_equals(name, "ClientManager") {
            Authority::ClientManager
        } else if str_equals(name, "NaeManager") {
            Authority::NaeManager
        } else if str_equals(name, "NodeManager") {
            Authority::NodeManager
        } else if str_equals(name, "ManagedNode") {
            Authority::ManagedNode
        } else if str_equals(name, "ManagedClient") {
            Authority::ManagedClient
        } else if str_equals(name, "Client") {
            Authority::Client
        } else {
            Authority::Unknown
        }
    }
}

/// Each authority's wire name is the name of its variant, and decoding maps
/// each of those names, and only it, to its variant; every other name
/// decodes to `Unknown`.
pub proof fn lemma_authority_names(name: Seq<char>)
    ensures
        authority_name(Authority::ClientManager) == "ClientManager"@,
        authority_name(Authority::NaeManager) == "NaeManager"@,
        authority_name(Authority::NodeManager) == "NodeManager"@,
        authority_name(Authority::ManagedNode) == "ManagedNode"@,
        authority_name(Authority::ManagedClient) == "ManagedClient"@,
        authority_name(Authority::Client) == "Client"@,
        authority_name(Authority::Unknown) == "Unknown"@,
        (authority_from_name(name) == Authority::ClientManager) == (name == "ClientManager"@),
        (authority_from_name(name) == Authority::NaeManager) == (name == "NaeManager"@),
        (authority_from_name(name) == Authority::NodeManager) == (name == "NodeManager"@),
        (authority_from_name(name) == Authority::ManagedNode) == (name == "ManagedNode"@),
        (authority_from_name(name) == Authority::ManagedClient) == (name == "ManagedClient"@),
        (authority_from_name(name) == Authority::Client) == (name == "Client"@),
        (authority_from_name(name) == Authority::Unknown) == (name != "ClientManager"@ && name
            != "NaeManager"@ && name != "NodeManager"@ && name != "ManagedNode"@ && name
            != "ManagedClient"@ && name != "Client"@),
{
    reveal_strlit("ClientManager");
    reveal_strlit("NaeManager");
    reveal_strlit("NodeManager");
    reveal_strlit("ManagedNode");
    reveal_strlit("ManagedClient");
    reveal_strlit("Client");
    assert("ClientManager"@.len() == 13);
    assert("NaeManager"@.len() == 10);
    assert("NodeManager"@.len() == 11);
    assert("ManagedNode"@.len() == 11);
    assert("ManagedClient"@.len() == 13);
    assert("Client"@.len() == 6);
    assert("ClientManager"@[0] != "ManagedClient"@[0]);
    assert("NodeManager"@[0] != "ManagedNode"@[0]);
}

/// Decoding the name of an authority gives the authority back.
pub proof fn lemma_authority_name_round_trip(authority: Authority)
    ensures
        authority_from_name(authority_name(authority)) == authority,
{
    reveal_strlit("ClientManager");
    reveal_strlit("NaeManager");
    reveal_strlit("NodeManager");
    reveal_strlit("ManagedNode");
    reveal_strlit("ManagedClient");
    reveal_strlit("Client");
    reveal_strlit("Unknown");
    assert("ClientManager"@.len() == 13);
    assert("NaeManager"@.len() == 10);
    assert("NodeManager"@.len() == 11);
    assert("ManagedNode"@.len() == 11);
    assert("ManagedClient"@.len() == 13);
    assert("Client"@.len() == 6);
    assert("Unknown"@.len() == 7);
    assert("ClientManager"@[0] != "ManagedClient"@[0]);
    assert("NodeManager"@[0] != "ManagedNode"@[0]);
}

/// A name together with the type of the data it names.
#[derive(PartialEq, Eq, PartialOrd, Ord, Clone, Debug)]
pub struct NameAndTypeId {
    pub name: Vec<u8>,
    pub type_id: u32,
}

impl NameAndTypeId {
    /// A random 64-byte name with a random type.
    pub fn generate_random() -> (id: NameAndTypeId)
        ensures
            id.name@.len() == 64,
    {
        NameAndTypeId { name: generate_random_vec_u8(64), type_id: random_u32() }
    }
}

/// Signature bytes.
#[derive(PartialEq, Eq, PartialOrd, Ord, Clone, Debug)]
pub struct Signature {
    pub signature: Vec<u8>,
}

impl Signature {
    /// The signature holding the bytes of an Ed25519 signature, which must
    /// be 32 bytes long.
    pub fn new(signature: [u8; 64]) -> (sig: Signature)
        requires
            signature@.len() == 32,
        ensures
            sig.signature@ == signature@,
    {
        Signature { signature: array_as_vector(&signature) }
    }

    /// A signature of 32 random bytes.
    pub fn generate_random() -> (sig: Signature)
        ensures
            sig.signature@.len() == 32,
    {
        Signature { signature: generate_random_vec_u8(32) }
    }

    /// The bytes of the Ed25519 signature that this signature holds: its
    /// first 64 bytes.
    pub fn get_crypto_signature(&self) -> (sig: [u8; 64])
        requires
            self.signature@.len() >= 64,
        ensures
            sig@ == self.signature@.take(64),
    {
        vector_as_u8_64_array(self.signature.clone())
    }
}

/// The public half of a signing key pair.
#[derive(PartialEq, Eq, PartialOrd, Ord, Clone, Debug)]
pub struct PublicSignKey {
    pub public_sign_key: Vec<u8>,
}

impl PublicSignKey {
    /// The key holding the bytes of an Ed25519 public key.
    pub fn new(public_sign_key: [u8; 32]) -> (key: PublicSignKey)
        ensures
            key.public_sign_key@ == public_sign_key@,
    {
        PublicSignKey { public_sign_key: array_as_vector(&public_sign_key) }
    }

    /// A key of 32 random bytes.
    pub fn generate_random() -> (key: PublicSignKey)
        ensures
            key.public_sign_key@.len() == 32,
    {
        PublicSignKey { public_sign_key: generate_random_vec_u8(32) }
    }

    /// The bytes of the Ed25519 public key: the first 32 bytes held.
    pub fn get_crypto_public_sign_key(&self) -> (key: [u8; 32])
        requires
            self.public_sign_key@.len() >= 32,
        ensures
            key@ == self.public_sign_key@.take(32),
    {
        vector_as_u8_32_array(self.public_sign_key.clone())
    }
}

/// The public half of an encryption key pair.
#[derive(PartialEq, Eq, PartialOrd, Ord, Clone, Debug)]
pub struct PublicKey {
    pub public_key: Vec<u8>,
}

impl PublicKey {
    /// The key holding the bytes of a Curve25519 public key.
    pub fn new(public_key: [u8; 32]) -> (key: PublicKey)
        ensures
            key.public_key@ == public_key@,
    {
        PublicKey { public_key: array_as_vector(&public_key) }
    }

    /// A key of 32 random bytes.
    pub fn generate_random() -> (key: PublicKey)
        ensures
            key.public_key@.len() == 32,
    {
        PublicKey { public_key: generate_random_vec_u8(32) }
    }

    /// The bytes of the Curve25519 public key: the first 32 bytes held.
    pub fn get_crypto_public_key(&self) -> (key: [u8; 32])
        requires
            self.public_key@.len() >= 32,
        ensures
            key@ == self.public_key@.take(32),
    {
        vector_as_u8_32_array(self.public_key.clone())
    }
}

/// The block that a node's identity signs and hashes: the public signing
/// key at offset 0, the public encryption key at offset 64, zeros elsewhere.
pub open spec fn combined_public_keys_spec(public_sign_key: Seq<u8>, public_key: Seq<u8>) -> Seq<u8> {
    public_sign_key + Seq::new(32, |i: int| 0u8) + public_key + Seq::new(32, |i: int| 0u8)
}

/// Lays out the two public keys as the block that a node's identity signs
/// and hashes.
pub fn combined_public_keys(public_sign_key: &[u8; 32], public_key: &[u8; 32]) -> (block: [u8; 128])
    ensures
        block@ == combined_public_keys_spec(public_sign_key@, public_key@),
        forall|j: int| 0 <= j < 32 ==> block@[j] == public_sign_key@[j],
        forall|j: int| 32 <= j < 64 ==> block@[j] == 0u8,
        forall|j: int| 0 <= j < 32 ==> block@[64 + j] == public_key@[j],
        forall|j: int| 96 <= j < 128 ==> block@[j] == 0u8,
{
    let mut block: [u8; 128] = [0u8; 128];
    for i in 0..32
        invariant
            block@.len() == 128,
            public_sign_key@.len() == 32,
            forall|j: int| 0 <= j < i ==> block@[j] == public_sign_key@[j],
            forall|j: int| i <= j < 128 ==> block@[j] == 0,
    {
        block[i] = public_sign_key[i];
    }
    for i in 0..32
        invariant
            block@.len() == 128,
            public_key@.len() == 32,
            forall|j: int| 0 <= j < 32 ==> block@[j] == public_sign_key@[j],
            forall|j: int| 32 <= j < 64 ==> block@[j] == 0,
            forall|j: int| 0 <= j < i ==> block@[64 + j] == public_key@[j],
            forall|j: int| 64 + i <= j < 128 ==> block@[j] == 0,
    {
        block[64 + i] = public_key[i];
    }
    assert(block@ =~= combined_public_keys_spec(public_sign_key@, public_key@));
    block
}

/// The combined block is 128 bytes: the public signing key in order at
/// offset 0, the public encryption key in order at offset 64, zeros at
/// 32..64 and 96..128.
pub proof fn lemma_combined_public_keys_layout(public_sign_key: Seq<u8>, public_key: Seq<u8>)
    requires
        public_sign_key.len() == 32,
        public_key.len() == 32,
    ensures
        combined_public_keys_spec(public_sign_key, public_key).len() == 128,
        forall|j: int|
            0 <= j < 32 ==> #[trigger] combined_public_keys_spec(public_sign_key, public_key)[j]
                == public_sign_key[j],
        forall|j: int|
            32 <= j < 64 ==> #[trigger] combined_public_keys_spec(public_sign_key, public_key)[j]
                == 0u8,
        forall|j: int|
            0 <= j < 32 ==> #[trigger] combined_public_keys_spec(public_sign_key, public_key)[64
                + j] == public_key[j],
        forall|j: int|
            96 <= j < 128 ==> #[trigger] combined_public_keys_spec(public_sign_key, public_key)[j]
                == 0u8,
{
}

/// What a node identity holds, as byte sequences.
pub struct PmidView {
    pub public_sign_key: Seq<u8>,
    pub public_key: Seq<u8>,
    pub secret_sign_key: Seq<u8>,
    pub secret_key: Seq<u8>,
    pub validation_token: Seq<u8>,
    pub name: Seq<u8>,
}

/// An identity whose name is the SHA-512 digest of its combined public keys
/// and whose validation token is that block signed with its secret signing
/// key.
pub open spec fn pmid_consistent(pmid: PmidView) -> bool {
    let block = combined_public_keys_spec(pmid.public_sign_key, pmid.public_key);
    &&& pmid.name == sha512_digest(block)
    &&& pmid.validation_token == ed25519_signed_message(block, pmid.secret_sign_key)
}

/// A node's full identity: both key pairs, the signed public keys and the
/// name derived from them.
pub struct Pmid {
    public_keys: ([u8; 32], [u8; 32]),
    secret_keys: ([u8; 64], [u8; 32]),
    validation_token: Signature,
    name: DhtId,
}

impl View for Pmid {
    type V = PmidView;

    closed spec fn view(&self) -> PmidView {
        PmidView {
            public_sign_key: self.public_keys.0@,
            public_key: self.public_keys.1@,
            secret_sign_key: self.secret_keys.0@,
            secret_key: self.secret_keys.1@,
            validation_token: self.validation_token.signature@,
            name: self.name@,
        }
    }
}

impl Clone for Pmid {
    fn clone(&self) -> (pmid: Pmid)
        ensures
            pmid@ == self@,
    {
        Pmid {
            public_keys: self.public_keys,
            secret_keys: self.secret_keys,
            validation_token: Signature { signature: self.validation_token.signature.clone() },
            name: self.name.copy(),
        }
    }
}

impl Pmid {
    /// A fresh identity with newly generated signing and encryption keys:
    /// the public signing key is the Ed25519 public key of the seed in bytes
    /// 0..32 of the secret signing key, which holds the public key in its
    /// bytes 32..64; the public encryption key is the Curve25519 public key
    /// of the secret one.
    pub fn new() -> (pmid: Pmid)
        ensures
            pmid_consistent(pmid@),
            pmid@.public_sign_key == ed25519_public_key(pmid@.secret_sign_key.subrange(0, 32)),
            pmid@.secret_sign_key.subrange(32, 64) == pmid@.public_sign_key,
            pmid@.public_key == curve25519_public_key(pmid@.secret_key),
            pmid@.name.len() == 64,
            pmid@.public_sign_key.len() == 32,
            pmid@.public_key.len() == 32,
            pmid@.secret_sign_key.len() == 64,
            pmid@.secret_key.len() == 32,
    {
        let (public_sign_key, secret_sign_key) = gen_sign_keypair();
        let (public_key, secret_key) = gen_box_keypair();
        Pmid::from_keypairs(public_sign_key, secret_sign_key, public_key, secret_key)
    }

    /// The identity made of the given key pairs: the public keys are laid
    /// out in one block, which is signed with the secret signing key to make
    /// the validation token and hashed to make the name.
    pub fn from_keypairs(
        public_sign_key: [u8; 32],
        secret_sign_key: [u8; 64],
        public_key: [u8; 32],
        secret_key: [u8; 32],
    ) -> (pmid: Pmid)
        ensures
            pmid@.public_sign_key == public_sign_key@,
            pmid@.secret_sign_key == secret_sign_key@,
            pmid@.public_key == public_key@,
            pmid@.secret_key == secret_key@,
            pmid_consistent(pmid@),
            pmid@.name.len() == 64,
    {
        let block = combined_public_keys(&public_sign_key, &public_key);
        let validation_token = Signature { signature: sign_message(&block, &secret_sign_key) };
        let digest = sha512(&block);
        let pmid = Pmid {
            public_keys: (public_sign_key, public_key),
            secret_keys: (secret_sign_key, secret_key),
            validation_token,
            name: DhtId::new(&digest),
        };
        pmid
    }

    pub fn get_public_key(&self) -> (key: PublicKey)
        ensures
            key.public_key@ == self@.public_key,
    {
        PublicKey::new(self.public_keys.1)
    }

    pub fn get_public_sign_key(&self) -> (key: PublicSignKey)
        ensures
            key.public_sign_key@ == self@.public_sign_key,
    {
        PublicSignKey::new(self.public_keys.0)
    }

    pub fn get_crypto_public_key(&self) -> (key: [u8; 32])
        ensures
            key@ == self@.public_key,
    {
        self.public_keys.1
    }

    pub fn get_crypto_secret_key(&self) -> (key: [u8; 32])
        ensures
            key@ == self@.secret_key,
    {
        self.secret_keys.1
    }

    pub fn get_crypto_public_sign_key(&self) -> (key: [u8; 32])
        ensures
            key@ == self@.public_sign_key,
    {
        self.public_keys.0
    }

    pub fn get_crypto_secret_sign_key(&self) -> (key: [u8; 64])
        ensures
            key@ == self@.secret_sign_key,
    {
        self.secret_keys.0
    }

    pub fn get_validation_token(&self) -> (token: Signature)
        ensures
            token.signature@ == self@.validation_token,
    {
        Signature { signature: self.validation_token.signature.clone() }
    }
}

/// Behaviour shared by the records that a node stores and transfers.
pub trait RoutingTrait {
    fn get_name(&self) -> DhtId;

    fn get_owner(&self) -> Vec<u8>;

    fn refresh(&self) -> bool;

    fn merge(&self, infos: &Vec<AccountTransferInfo>) -> Option<AccountTransferInfo>;
}

/// The public part of a node's identity.
#[derive(PartialEq, Eq, PartialOrd, Ord, Clone, Debug)]
pub struct PublicPmid {
    pub public_key: PublicKey,
    pub public_sign_key: PublicSignKey,
    pub validation_token: Signature,
    pub name: DhtId,
}

impl PublicPmid {
    /// The public part of `pmid`.
    pub fn new(pmid: &Pmid) -> (public_pmid: PublicPmid)
        ensures
            public_pmid.public_key.public_key@ == pmid@.public_key,
            public_pmid.public_sign_key.public_sign_key@ == pmid@.public_sign_key,
            public_pmid.validation_token.signature@ == pmid@.validation_token,
            public_pmid.name@ == pmid@.name,
    {
        PublicPmid {
            public_key: pmid.get_public_key(),
            public_sign_key: pmid.get_public_sign_key(),
            validation_token: pmid.get_validation_token(),
            name: pmid.get_name(),
        }
    }

    /// A public identity made of random bytes.
    pub fn generate_random() -> (public_pmid: PublicPmid)
        ensures
            public_pmid.public_key.public_key@.len() == 32,
            public_pmid.public_sign_key.public_sign_key@.len() == 32,
            public_pmid.validation_token.signature@.len() == 32,
            public_pmid.name@.len() == 64,
    {
        PublicPmid {
            public_key: PublicKey::generate_random(),
            public_sign_key: PublicSignKey::generate_random(),
            validation_token: Signature::generate_random(),
            name: DhtId::generate_random(),
        }
    }
}

impl RoutingTrait for PublicPmid {
    fn get_name(&self) -> (name: DhtId)
        ensures
            name@ == self.name@,
    {
        self.name.copy()
    }

    fn get_owner(&self) -> (owner: Vec<u8>)
        ensures
            owner@.len() == 0,
    {
        Vec::new()
    }

    fn refresh(&self) -> (refresh: bool)
        ensures
            !refresh,
    {
        false
    }

    fn merge(&self, infos: &Vec<AccountTransferInfo>) -> (merged: Option<AccountTransferInfo>)
        ensures
            merged is None,
    {
        None
    }
}

impl RoutingTrait for Pmid {
    fn get_name(&self) -> (name: DhtId)
        ensures
            name@ == self@.name,
    {
        self.name.copy()
    }

    fn get_owner(&self) -> (owner: Vec<u8>)
        ensures
            owner@.len() == 0,
    {
        Vec::new()
    }

    fn refresh(&self) -> (refresh: bool)
        ensures
            !refresh,
    {
        false
    }

    fn merge(&self, infos: &Vec<AccountTransferInfo>) -> (merged: Option<AccountTransferInfo>)
        ensures
            merged is None,
    {
        None
    }
}

/// The record of an account handed from one node to another.
#[derive(PartialEq, Eq, PartialOrd, Ord, Clone, Debug)]
pub struct AccountTransferInfo {
    pub name: DhtId,
}

impl RoutingTrait for AccountTransferInfo {
    fn get_name(&self) -> (name: DhtId)
        ensures
            name@ == self.name@,
    {
        self.name.copy()
    }

    fn get_owner(&self) -> (owner: Vec<u8>)
        ensures
            owner@.len() == 0,
    {
        Vec::new()
    }

    fn refresh(&self) -> (refresh: bool)
        ensures
            refresh,
    {
        true
    }

    fn merge(&self, infos: &Vec<AccountTransferInfo>) -> (merged: Option<AccountTransferInfo>)
        ensures
            merged is None,
    {
        None
    }
}

/// Address of the source of a message.
#[derive(PartialEq, Eq, PartialOrd, Ord, Clone, Debug)]
pub struct SourceAddress {
    pub from_node: DhtId,
    pub from_group: Option<DhtId>,
    pub reply_to: Option<DhtId>,
}

impl SourceAddress {
    /// A source address with a random node and neither group nor reply
    /// address.
    pub fn generate_random() -> (address: SourceAddress)
        ensures
            address.from_node@.len() == 64,
            address.from_group is None,
            address.reply_to is None,
    {
        SourceAddress { from_node: DhtId::generate_random(), from_group: None, reply_to: None }
    }
}

/// Address of the destination of a message.
#[derive(PartialEq, Eq, PartialOrd, Ord, Clone, Debug)]
pub struct DestinationAddress {
    pub dest: DhtId,
    pub reply_to: Option<DhtId>,
}

/// The kinds of routing message.
#[derive(PartialEq, Eq, Structural, PartialOrd, Ord, Clone, Copy, Debug)]
pub enum MessageTypeTag {
    Connect,
    ConnectResponse,
    FindGroup,
    FindGroupResponse,
    GetData,
    GetDataResponse,
    GetClientKey,
    GetClientKeyResponse,
    GetGroupKey,
    GetGroupKeyResponse,
    Post,
    PostResponse,
    PutData,
    PutDataResponse,
    PutKey,
    AccountTransfer,
}

} // verus!
