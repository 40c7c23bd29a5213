use routing::dht_id::DhtId;
use routing::routing_client::{
    IncomingAction, MessageBody, RoutingClient,
};
use routing::types::{
    combined_public_keys, AccountTransferInfo, Authority, DestinationAddress, MessageTypeTag,
    NameAndTypeId, Pmid, PublicKey, PublicPmid, PublicSignKey, RoutingTrait, Signature,
    SourceAddress, GROUP_SIZE, QUORUM_SIZE,
};
use sodiumoxide::crypto;

#[test]
fn test_authority() {
    let all = [
        Authority::ClientManager,
        Authority::NaeManager,
        Authority::NodeManager,
        Authority::ManagedNode,
        Authority::ManagedClient,
        Authority::Client,
        Authority::Unknown,
    ];
    for a in all.iter() {
        assert_eq!(Authority::from_name(a.name()), *a);
    }
}

#[test]
fn authority_names() {
    assert_eq!(Authority::ClientManager.name(), "ClientManager");
    assert_eq!(Authority::Client.name(), "Client");
    assert_eq!(Authority::from_name("NaeManager"), Authority::NaeManager);
    assert_eq!(Authority::from_name("something else"), Authority::Unknown);
    assert_eq!(Authority::from_name(""), Authority::Unknown);
    assert_eq!(Authority::from_name("Clien"), Authority::Unknown);
}

#[test]
fn group_constants() {
    assert_eq!(GROUP_SIZE, 23);
    assert_eq!(QUORUM_SIZE, 19);
}

#[test]
fn random_records_have_expected_sizes() {
    assert_eq!(NameAndTypeId::generate_random().name.len(), 64);
    assert_eq!(Signature::generate_random().signature.len(), 32);
    assert_eq!(PublicSignKey::generate_random().public_sign_key.len(), 32);
    assert_eq!(PublicKey::generate_random().public_key.len(), 32);
    let p = PublicPmid::generate_random();
    assert_eq!(p.public_key.public_key.len(), 32);
    assert_eq!(p.public_sign_key.public_sign_key.len(), 32);
    assert_eq!(p.validation_token.signature.len(), 32);
    assert_eq!(p.name.0.len(), 64);
    let s = SourceAddress::generate_random();
    assert_eq!(s.from_node.0.len(), 64);
    assert!(s.from_group.is_none());
    assert!(s.reply_to.is_none());
}

#[test]
fn keys_round_trip() {
    let mut k = [0u8; 32];
    for i in 0..32 {
        k[i] = i as u8 + 1;
    }
    assert_eq!(PublicKey::new(k).get_crypto_public_key(), k);
    assert_eq!(PublicSignKey::new(k).get_crypto_public_sign_key(), k);
    assert_eq!(PublicKey::new(k).public_key, k.to_vec());
}

#[test]
fn signature_bytes() {
    let bytes: Vec<u8> = (0..100u8).collect();
    let sig = Signature { signature: bytes.clone() };
    assert_eq!(sig.get_crypto_signature().to_vec(), bytes[..64].to_vec());
}

#[test]
fn combined_public_keys_layout() {
    let a = [1u8; 32];
    let b = [2u8; 32];
    let block = combined_public_keys(&a, &b);
    assert_eq!(&block[0..32], &a[..]);
    assert_eq!(&block[32..64], &[0u8; 32][..]);
    assert_eq!(&block[64..96], &b[..]);
    assert_eq!(&block[96..128], &[0u8; 32][..]);
}

#[test]
fn pmid_name_and_token() {
    let pmid = Pmid::new();
    let block = combined_public_keys(
        &pmid.get_crypto_public_sign_key(),
        &pmid.get_crypto_public_key(),
    );
    let digest = crypto::hash::sha512::hash(&block);
    assert_eq!(pmid.get_name().0, digest.0.to_vec());
    let sk = crypto::sign::SecretKey(pmid.get_crypto_secret_sign_key());
    let pk = crypto::sign::PublicKey(pmid.get_crypto_public_sign_key());
    let token = pmid.get_validation_token().signature;
    assert_eq!(token, crypto::sign::sign(&block, &sk));
    assert_eq!(crypto::sign::verify(&token, &pk).unwrap(), block.to_vec());
}

#[test]
fn pmid_key_pairs_match() {
    let pmid = Pmid::new();
    let secret_sign_key = pmid.get_crypto_secret_sign_key();
    assert_eq!(&secret_sign_key[32..64], &pmid.get_crypto_public_sign_key()[..]);
    let mut seed = [0u8; 32];
    seed.copy_from_slice(&secret_sign_key[0..32]);
    let (derived_pk, _) = crypto::sign::keypair_from_seed(&crypto::sign::Seed(seed));
    assert_eq!(derived_pk.0, pmid.get_crypto_public_sign_key());
    let secret_key = crypto::scalarmult::Scalar(pmid.get_crypto_secret_key());
    assert_eq!(
        crypto::scalarmult::scalarmult_base(&secret_key).0,
        pmid.get_crypto_public_key()
    );
    assert_eq!(pmid.get_name().0.len(), 64);
    let pk = crypto::sign::PublicKey(pmid.get_crypto_public_sign_key());
    let token = pmid.get_validation_token().signature;
    assert!(crypto::sign::verify(&token, &pk).is_ok());
}

#[test]
fn pmid_from_keypairs_is_deterministic() {
    let (pk, sk) = crypto::sign::gen_keypair();
    let (bpk, bsk) = crypto::box_::gen_keypair();
    let p1 = Pmid::from_keypairs(pk.0, sk.0, bpk.0, bsk.0);
    let p2 = Pmid::from_keypairs(pk.0, sk.0, bpk.0, bsk.0);
    assert_eq!(p1.get_name(), p2.get_name());
    assert_eq!(p1.get_validation_token(), p2.get_validation_token());
    assert_eq!(p1.get_crypto_secret_key(), bsk.0);
    assert_eq!(p1.get_crypto_public_key(), bpk.0);
    assert_eq!(p1.get_crypto_public_sign_key(), pk.0);
    assert_eq!(p1.get_crypto_secret_sign_key().to_vec(), sk.0.to_vec());
}

#[test]
fn public_pmid_from_pmid() {
    let pmid = Pmid::new();
    let p = PublicPmid::new(&pmid);
    assert_eq!(p.name, pmid.get_name());
    assert_eq!(p.public_key, pmid.get_public_key());
    assert_eq!(p.public_sign_key, pmid.get_public_sign_key());
    assert_eq!(p.validation_token, pmid.get_validation_token());
    assert_eq!(p.get_name(), pmid.get_name());
    let cloned = pmid.clone();
    assert_eq!(cloned.get_name(), pmid.get_name());
}

#[test]
fn routing_trait_impls() {
    let info = AccountTransferInfo { name: DhtId(vec![7; 64]) };
    assert_eq!(info.get_name(), DhtId(vec![7; 64]));
    assert!(info.refresh());
    assert!(info.get_owner().is_empty());
    assert!(info.merge(&vec![]).is_none());
    let p = PublicPmid::generate_random();
    assert!(!p.refresh());
    assert!(p.get_owner().is_empty());
    assert!(p.merge(&vec![info.clone()]).is_none());
    let pmid = Pmid::new();
    assert!(!pmid.refresh());
    assert!(pmid.get_owner().is_empty());
    assert!(pmid.merge(&vec![info]).is_none());
}

fn generate_random(size: usize) -> Vec<u8> {
    (0..size).map(|i| (i * 7) as u8).collect()
}

#[test]
fn routing_client_put() {
    let own = DhtId::generate_random();
    let dht_id = DhtId::generate_random();
    let mut routing_client = RoutingClient::new(own.clone(), dht_id.clone());
    let name = DhtId::generate_random();
    let content = generate_random(1024);
    let id = routing_client.message_id();

    let put = routing_client.put(name.clone(), content.clone());
    assert_eq!(put.message_type, MessageTypeTag::PutData);
    assert_eq!(put.message_header.message_id, id);
    assert_eq!(put.message_header.destination.dest, own);
    assert_eq!(put.message_header.source.from_node, dht_id);
    assert_eq!(put.message_header.source.reply_to, Some(own.clone()));
    assert_eq!(put.message_header.authority, Authority::Client);
    assert_eq!(put.message_header.signature.unwrap().signature.len(), 32);
    match put.body {
        MessageBody::PutData(p) => {
            assert_eq!(p.name, name.0);
            assert_eq!(p.data, content);
        }
        _ => panic!("expected a put body"),
    }
    assert_eq!(routing_client.message_id(), id.wrapping_add(1));
}

#[test]
fn routing_client_get_then_put_use_consecutive_ids() {
    let own = DhtId(vec![1; 64]);
    let boot = DhtId(vec![2; 64]);
    let mut client = RoutingClient::new(own.clone(), boot.clone());
    let id = client.message_id();
    let name = DhtId(vec![3; 64]);
    let get = client.get(0x1_0000_0005, name.clone());
    assert_eq!(get.message_type, MessageTypeTag::GetData);
    assert_eq!(get.message_header.message_id, id);
    assert_eq!(get.message_header.destination.dest, name);
    assert!(get.message_header.destination.reply_to.is_none());
    assert!(get.message_header.signature.is_none());
    match get.body {
        MessageBody::GetData(g) => {
            assert_eq!(g.name_and_type_id.type_id, 5);
            assert_eq!(g.name_and_type_id.name, name.0);
            assert_eq!(g.requester.from_node, boot);
            assert_eq!(g.requester.reply_to, Some(own.clone()));
        }
        _ => panic!("expected a get body"),
    }
    let put = client.put(name, vec![]);
    assert_eq!(put.message_header.message_id, id.wrapping_add(1));
    assert_eq!(client.own_address(), own);
    assert_eq!(client.bootstrap_address(), boot);
}

#[test]
fn routing_client_incoming() {
    let own = DhtId(vec![1; 64]);
    let boot = DhtId(vec![2; 64]);
    let client = RoutingClient::new(own.clone(), boot.clone());
    let to_us = DestinationAddress { dest: boot.clone(), reply_to: Some(own.clone()) };
    assert_eq!(
        client.incoming_action(&to_us, MessageTypeTag::GetDataResponse),
        IncomingAction::DeliverGetResponse
    );
    assert_eq!(client.incoming_action(&to_us, MessageTypeTag::PutDataResponse), IncomingAction::Unhandled);
    let no_reply = DestinationAddress { dest: boot.clone(), reply_to: None };
    assert_eq!(client.incoming_action(&no_reply, MessageTypeTag::GetDataResponse), IncomingAction::Ignore);
    let other = DestinationAddress { dest: own.clone(), reply_to: Some(own.clone()) };
    assert_eq!(client.incoming_action(&other, MessageTypeTag::GetDataResponse), IncomingAction::Ignore);
    let wrong_reply = DestinationAddress { dest: boot, reply_to: Some(DhtId(vec![9; 64])) };
    assert_eq!(client.incoming_action(&wrong_reply, MessageTypeTag::GetDataResponse), IncomingAction::Ignore);
}
