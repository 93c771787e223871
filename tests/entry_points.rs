use key_exchange::contract::{execute, instantiate, Response};
use key_exchange::msg::{ExecuteMsg, InstantiateMsg};
use key_exchange::state::{
    get_key_details, KeyVault, VaultError,
};

const HEIGHT: u64 = 12345;

fn cipher_key() -> Vec<u8> {
    b"32-bytes-long-key-for-best-AES!!".to_vec()
}

fn instantiated() -> KeyVault {
    let mut vault = KeyVault::new(cipher_key());
    let msg = InstantiateMsg {
        broadcast: "dear AI, keep going".to_string(),
    };
    let _res = instantiate(&mut vault, "creator".to_string(), msg);
    vault
}

fn store(vault: &mut KeyVault, key: String) -> Result<Response, VaultError> {
    let msg = ExecuteMsg::StoreKey {
        key,
        recipient: "recipient".to_string(),
    };
    execute(vault, HEIGHT, "creator".to_string(), msg)
}

fn retrieve(vault: &mut KeyVault, key: u64) -> Result<Response, VaultError> {
    execute(vault, HEIGHT, "creator".to_string(), ExecuteMsg::RetrieveKey { key })
}

#[test]
fn contract_test_store_and_retrieve_key() {
    let mut vault = instantiated();
    let res = store(&mut vault, "my_secret_key".to_string()).unwrap();
    let key_id = HEIGHT;
    assert_eq!(res.attributes[0].value, "store_key");
    assert_eq!(res.attributes[1].value, HEIGHT.to_string());

    let res = retrieve(&mut vault, key_id).unwrap();
    assert_eq!(res.attributes[0].value, "retrieve_key");
    assert_eq!(res.attributes[1].value, "my_secret_key".to_string());
}

#[test]
fn contract_test_retrieve_nonexistent_key() {
    let mut vault = instantiated();
    let err = retrieve(&mut vault, 999).unwrap_err();
    match err {
        VaultError::NotFound => (),
        _ => panic!("Expected NotFound error, got {:?}", err),
    }
}

#[test]
fn contract_test_store_empty_key() {
    let mut vault = instantiated();
    let res = store(&mut vault, "".to_string()).unwrap();
    assert_eq!(res.attributes[0].value, "store_key");
    assert_eq!(res.attributes[1].value, HEIGHT.to_string());
}

#[test]
fn contract_test_store_long_key() {
    let mut vault = instantiated();
    let res = store(&mut vault, "a".repeat(1000)).unwrap();
    assert_eq!(res.attributes[0].value, "store_key");
    assert_eq!(res.attributes[1].value, HEIGHT.to_string());
}

#[test]
fn contract_test_retrieve_invalid_key_id() {
    let mut vault = instantiated();
    let err = retrieve(&mut vault, 0).unwrap_err();
    match err {
        VaultError::NotFound => (),
        _ => panic!("Expected NotFound error, got {:?}", err),
    }
}

#[test]
fn contract_test_store_same_key_twice() {
    let mut vault = instantiated();
    let key = "my_secret_key".to_string();
    let res = store(&mut vault, key.clone()).unwrap();
    assert_eq!(res.attributes[0].value, "store_key");
    assert_eq!(res.attributes[1].value, HEIGHT.to_string());

    let err = store(&mut vault, key.clone()).unwrap_err();
    match err {
        VaultError::AlreadyExists if err.message() == "Key already exists" => (),
        _ => panic!("Expected GenericErr with 'Key already exists', got {:?}", err),
    }
}

#[test]
fn contract_test_retrieved_flag() {
    let mut vault = instantiated();
    let res = store(&mut vault, "my_secret_key".to_string()).unwrap();
    let key_id = HEIGHT;
    assert_eq!(res.attributes[0].value, "store_key");
    assert_eq!(res.attributes[1].value, HEIGHT.to_string());

    let res = retrieve(&mut vault, key_id).unwrap();
    assert_eq!(res.attributes[0].value, "retrieve_key");
    assert_eq!(res.attributes[1].value, "my_secret_key".to_string());

    let key_info = get_key_details(&vault, key_id).unwrap();
    assert!(key_info.retrieved, "The key should be marked as retrieved");
}

#[test]
fn tests_test_store_and_retrieve_key() {
    let mut vault = instantiated();
    let res = store(&mut vault, "my_secret_key".to_string()).unwrap();
    let key_id = HEIGHT;
    assert_eq!(res.attributes[0].value, "store_key");
    assert_eq!(res.attributes[1].value, HEIGHT.to_string());

    let res = retrieve(&mut vault, key_id).unwrap();
    assert_eq!(res.attributes[0].value, "retrieve_key");
    assert_eq!(res.attributes[1].value, "my_secret_key".to_string());
}

#[test]
fn tests_test_retrieve_nonexistent_key() {
    let mut vault = instantiated();
    let err = retrieve(&mut vault, 999).unwrap_err();
    match err {
        VaultError::NotFound => (),
        _ => panic!("Expected NotFound error, got {:?}", err),
    }
}

#[test]
fn tests_test_store_empty_key() {
    let mut vault = instantiated();
    let res = store(&mut vault, "".to_string()).unwrap();
    assert_eq!(res.attributes[0].value, "store_key");
    assert_eq!(res.attributes[1].value, HEIGHT.to_string());
}

#[test]
fn tests_test_store_long_key() {
    let mut vault = instantiated();
    let res = store(&mut vault, "a".repeat(1000)).unwrap();
    assert_eq!(res.attributes[0].value, "store_key");
    assert_eq!(res.attributes[1].value, HEIGHT.to_string());
}

#[test]
fn tests_test_retrieve_invalid_key_id() {
    let mut vault = instantiated();
    let err = retrieve(&mut vault, 0).unwrap_err();
    match err {
        VaultError::NotFound => (),
        _ => panic!("Expected NotFound error, got {:?}", err),
    }
}

#[test]
fn tests_test_store_same_key_twice() {
    let mut vault = instantiated();
    let key = "my_secret_key".to_string();
    let res = store(&mut vault, key.clone()).unwrap();
    assert_eq!(res.attributes[0].value, "store_key");
    assert_eq!(res.attributes[1].value, HEIGHT.to_string());

    let err = store(&mut vault, key.clone()).unwrap_err();
    match err {
        VaultError::AlreadyExists if err.message() == "Key already exists" => (),
        _ => panic!("Expected GenericErr with 'Key already exists', got {:?}", err),
    }
}

#[test]
fn tests_test_retrieved_flag() {
    let mut vault = instantiated();
    let res = store(&mut vault, "my_secret_key".to_string()).unwrap();
    let key_id = HEIGHT;
    assert_eq!(res.attributes[0].value, "store_key");
    assert_eq!(res.attributes[1].value, HEIGHT.to_string());

    let res = retrieve(&mut vault, key_id).unwrap();
    assert_eq!(res.attributes[0].value, "retrieve_key");
    assert_eq!(res.attributes[1].value, "my_secret_key".to_string());

    let key_info = get_key_details(&vault, key_id).unwrap();
    assert!(key_info.retrieved, "The key should be marked as retrieved");
}
