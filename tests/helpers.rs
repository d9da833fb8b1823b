use cloud_util::common::{
    address_from_hash, extract_compact, get_tx_hash, get_tx_hash_list, h160_address_check, Address,
    Block, RawTransaction, RawTransactions, Tx,
};
use cloud_util::status::{code_result, forward_result, BackendReply, StatusCode};
use cloud_util::{clean_0x, epoch_millis, unix_now};

fn normal(h: u8) -> RawTransaction {
    RawTransaction { tx: Some(Tx::NormalTx { transaction_hash: vec![h; 32] }) }
}

fn utxo(h: u8) -> RawTransaction {
    RawTransaction { tx: Some(Tx::UtxoTx { transaction_hash: vec![h; 32] }) }
}

#[test]
fn clean_0x_strips_prefix() {
    assert_eq!(clean_0x("0x1234"), "1234");
    assert_eq!(clean_0x("1234"), "1234");
    assert_eq!(clean_0x("0x"), "");
    assert_eq!(clean_0x("x0ab"), "x0ab");
    assert_eq!(clean_0x("0X12"), "0X12");
    assert_eq!(clean_0x("0xé"), "é");
}

#[test]
fn millis_from_span() {
    assert_eq!(epoch_millis(1, 500), 1500);
    assert_eq!(epoch_millis(0, 999), 999);
    assert_eq!(epoch_millis(u64::MAX, 0), u64::MAX);
    assert_eq!(epoch_millis(u64::MAX / 1000, 999), u64::MAX);
    assert!(unix_now() > 1_600_000_000_000);
}

#[test]
fn address_check() {
    assert_eq!(h160_address_check(None), Err(StatusCode::NoProvideAddress));
    assert_eq!(h160_address_check(Some(&Address { address: vec![1; 20] })), Ok(()));
    assert_eq!(
        h160_address_check(Some(&Address { address: vec![1; 19] })),
        Err(StatusCode::ProvideAddressError)
    );
}

#[test]
fn tx_hashes() {
    assert_eq!(get_tx_hash(&normal(1)), Ok(&[1u8; 32][..]));
    assert_eq!(get_tx_hash(&utxo(2)), Ok(&[2u8; 32][..]));
    assert_eq!(get_tx_hash(&RawTransaction { tx: None }), Err(StatusCode::NoTransaction));
    let txs = RawTransactions { body: vec![normal(1), utxo(2)] };
    assert_eq!(get_tx_hash_list(&txs), Ok(vec![vec![1u8; 32], vec![2u8; 32]]));
    let txs = RawTransactions { body: vec![normal(1), RawTransaction { tx: None }] };
    assert_eq!(get_tx_hash_list(&txs), Err(StatusCode::NoTransaction));
}

#[test]
fn compact_block_skips_empty_transactions() {
    let block = Block {
        version: 3,
        header: None,
        body: Some(RawTransactions { body: vec![normal(1), RawTransaction { tx: None }, utxo(2)] }),
    };
    let compact = extract_compact(block);
    assert_eq!(compact.version, 3);
    assert!(compact.header.is_none());
    assert_eq!(compact.body.unwrap().tx_hashes, vec![vec![1u8; 32], vec![2u8; 32]]);
    let compact = extract_compact(Block { version: 0, header: None, body: None });
    assert!(compact.body.unwrap().tx_hashes.is_empty());
}

#[test]
fn address_is_hash_tail() {
    let hash: Vec<u8> = (0u8..32).collect();
    assert_eq!(address_from_hash(&hash), (12u8..32).collect::<Vec<u8>>());
}

#[test]
fn forwarded_results() {
    let ok = BackendReply { status: Some(0), payload: Some(vec![9, 9]) };
    assert_eq!(
        forward_result(Some(ok), StatusCode::KmsServerNotReady, StatusCode::NoneHashResult),
        Ok(vec![9, 9])
    );
    assert_eq!(
        forward_result(None, StatusCode::KmsServerNotReady, StatusCode::NoneHashResult),
        Err(StatusCode::KmsServerNotReady)
    );
    let no_status = BackendReply { status: None, payload: Some(vec![1]) };
    assert_eq!(
        forward_result(Some(no_status), StatusCode::KmsServerNotReady, StatusCode::NoneHashResult),
        Err(StatusCode::NoneStatusCode)
    );
    let failed = BackendReply { status: Some(104), payload: Some(vec![1]) };
    assert_eq!(
        forward_result(Some(failed), StatusCode::KmsServerNotReady, StatusCode::NoneHashResult),
        Err(StatusCode::Backend(104))
    );
    let empty = BackendReply { status: Some(0), payload: None };
    assert_eq!(
        forward_result(Some(empty), StatusCode::KmsServerNotReady, StatusCode::NoneHashResult),
        Err(StatusCode::NoneHashResult)
    );
}

#[test]
fn code_results() {
    assert_eq!(code_result(None, StatusCode::StorageServerNotReady), StatusCode::StorageServerNotReady);
    assert_eq!(code_result(Some(0), StatusCode::StorageServerNotReady), StatusCode::Success);
    assert_eq!(code_result(Some(7), StatusCode::NetworkServerNotReady), StatusCode::Backend(7));
    assert_eq!(StatusCode::from_code(0).is_success(), Ok(()));
    assert_eq!(StatusCode::from_code(5).is_success(), Err(StatusCode::Backend(5)));
}
