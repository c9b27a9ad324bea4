use stargate::access_path::{Access, AccessPath, Accesses, AccountAddress, ADDRESS_LENGTH};
use stargate::ledger::{HashValue, SignedTransactionWithProof, HASH_LENGTH};
use stargate::script_package::ChannelScriptPackage;
use stargate::value::Value;

#[test]
fn an_address_is_thirty_two_bytes() {
    assert_eq!(ADDRESS_LENGTH, 32);
    let bytes: Vec<u8> = (0..32).collect();
    let address = AccountAddress::from_bytes(&bytes).unwrap();
    assert_eq!(address.to_vec(), bytes);
    assert!(AccountAddress::from_bytes(&bytes[..31].to_vec()).is_none());
    assert!(AccountAddress::from_bytes(&vec![0u8; 33]).is_none());
    assert!(AccountAddress::from_bytes(&vec![]).is_none());
    let mut word = [0u8; 32];
    word.copy_from_slice(&bytes);
    assert_eq!(AccountAddress::new(word), address);
    assert_ne!(AccountAddress::new([0; 32]), address);
    assert_eq!(address.clone(), address);
}

#[test]
fn a_hash_is_thirty_two_bytes() {
    assert_eq!(HASH_LENGTH, 32);
    let bytes: Vec<u8> = (100..132).collect();
    let hash = HashValue::from_slice(&bytes).unwrap();
    assert_eq!(hash.to_vec(), bytes);
    assert!(HashValue::from_slice(&vec![1u8; 20]).is_none());
    assert_eq!(HashValue::new([7; 32]), HashValue::from_slice(&vec![7u8; 32]).unwrap());
    assert_ne!(HashValue::new([7; 32]), hash);
}

#[test]
fn access_paths_are_equal_where_account_and_tag_are() {
    let a = AccessPath::new(AccountAddress::new([1; 32]), b"coin".to_vec());
    assert_eq!(a, AccessPath::new(AccountAddress::new([1; 32]), b"coin".to_vec()));
    assert_ne!(a, AccessPath::new(AccountAddress::new([2; 32]), b"coin".to_vec()));
    assert_ne!(a, AccessPath::new(AccountAddress::new([1; 32]), b"coins".to_vec()));
    assert_eq!(a.clone(), a);
    assert_eq!(a.path, b"coin".to_vec());
}

#[test]
fn selectors_are_equal_step_by_step() {
    let mut a = Accesses::new(b"balances".to_vec());
    assert_eq!(a.len(), 1);
    a.add_index_to_back(3);
    a.add_field_to_back(b"amount".to_vec());
    assert_eq!(a.len(), 3);
    let mut b = Accesses::empty();
    assert_eq!(b.len(), 0);
    assert_ne!(a, b);
    b.add_field_to_back(b"balances".to_vec());
    b.add_index_to_back(3);
    assert_ne!(a, b);
    b.add_field_to_back(b"amount".to_vec());
    assert_eq!(a, b);
    assert_eq!(a.clone(), b);
    let mut c = Accesses::new(b"balances".to_vec());
    c.add_index_to_back(4);
    c.add_field_to_back(b"amount".to_vec());
    assert_ne!(a, c);
    assert_ne!(Access::Field(vec![3]), Access::Index(3));
    assert_eq!(Access::Index(3).clone(), Access::Index(3));
}

#[test]
fn carriers_give_back_their_bytes() {
    let value = Value::new(vec![1, 2, 3]);
    assert_eq!(value.clone(), value);
    assert_ne!(Value::new(vec![1, 2]), value);
    assert_eq!(value.into_bytes(), vec![1, 2, 3]);
    let record = SignedTransactionWithProof::new(vec![4, 5]);
    assert_eq!(record.clone(), record);
    assert_eq!(record.into_bytes(), vec![4, 5]);
    let package = ChannelScriptPackage::new(vec![6]);
    assert_eq!(package.clone(), package);
    assert_ne!(ChannelScriptPackage::new(vec![]), package);
    assert_eq!(package.into_bytes(), vec![6]);
}
