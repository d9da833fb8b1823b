use vstd::prelude::*;
use crate::status::StatusCode;

verus! {

/// Length of an account address in bytes.
pub const ADDR_BYTES_LEN: usize = 20;

/// Length of a hash in bytes.
pub const HASH_BYTES_LEN: usize = 32;

/// Declares the protocol's block header, which blocks carry unread.
#[verifier::external_type_specification]
#[verifier::external_body]
pub struct ExBlockHeader(cita_cloud_proto::blockchain::BlockHeader);

/// An account address.
pub struct Address {
    pub address: Vec<u8>,
}

/// A transaction, by its kind, with the hash it carries.
pub enum Tx {
    NormalTx { transaction_hash: Vec<u8> },
    UtxoTx { transaction_hash: Vec<u8> },
}

/// A transaction as it travels, which may be empty.
pub struct RawTransaction {
    pub tx: Option<Tx>,
}

/// A list of transactions.
pub struct RawTransactions {
    pub body: Vec<RawTransaction>,
}

/// A block: version, header and transactions.
pub struct Block {
    pub version: u32,
    pub header: Option<cita_cloud_proto::blockchain::BlockHeader>,
    pub body: Option<RawTransactions>,
}

/// The hashes of a compact block's transactions.
pub struct CompactBlockBody {
    pub tx_hashes: Vec<Vec<u8>>,
}

/// A block with its transactions replaced by their hashes.
pub struct CompactBlock {
    pub version: u32,
    pub header: Option<cita_cloud_proto::blockchain::BlockHeader>,
    pub body: Option<CompactBlockBody>,
}

/// The hash of a transaction, or nothing for an empty one.
pub open spec fn tx_hash_of(raw: RawTransaction) -> Option<Seq<u8>> {
    match raw.tx {
        Some(Tx::NormalTx { transaction_hash }) => Some(transaction_hash@),
        Some(Tx::UtxoTx { transaction_hash }) => Some(transaction_hash@),
        None => None,
    }
}

/// The contents of a list of byte vectors.
pub open spec fn byte_views(v: Seq<Vec<u8>>) -> Seq<Seq<u8>> {
    v.map_values(|x: Vec<u8>| x@)
}

/// The hashes of the non-empty transactions among `txs`, in order.
pub open spec fn present_hashes(txs: Seq<RawTransaction>) -> Seq<Seq<u8>>
    decreases txs.len(),
{
    if txs.len() == 0 {
        Seq::empty()
    } else {
        let rest = present_hashes(txs.drop_last());
        match tx_hash_of(txs.last()) {
            Some(h) => rest.push(h),
            None => rest,
        }
    }
}

/// `Ok` for an address of the right length; `NoProvideAddress` when none is
/// given and `ProvideAddressError` when its length is wrong.
pub fn h160_address_check(address: Option<&Address>) -> (r: Result<(), StatusCode>)
    ensures
        match address {
            None => r == Err::<(), StatusCode>(StatusCode::NoProvideAddress),
            Some(a) => if a.address@.len() == ADDR_BYTES_LEN {
                r is Ok
            } else {
                r == Err::<(), StatusCode>(StatusCode::ProvideAddressError)
            },
        },
{
    match address {
        Some(addr) => {
            if addr.address.len() == ADDR_BYTES_LEN {
                Ok(())
            } else {
                Err(StatusCode::ProvideAddressError)
            }
        },
        None => Err(StatusCode::NoProvideAddress),
    }
}

/// The hash of a transaction; `NoTransaction` for an empty one.
pub fn get_tx_hash(raw_tx: &RawTransaction) -> (r: Result<&[u8], StatusCode>)
    ensures
        match (r, tx_hash_of(*raw_tx)) {
            (Ok(h), Some(want)) => h@ == want,
            (Err(e), None) => e == StatusCode::NoTransaction,
            _ => false,
        },
{
    match &raw_tx.tx {
        Some(Tx::NormalTx { transaction_hash }) => Ok(transaction_hash.as_slice()),
        Some(Tx::UtxoTx { transaction_hash }) => Ok(transaction_hash.as_slice()),
        None => Err(StatusCode::NoTransaction),
    }
}

/// The hashes of all transactions, in order; `NoTransaction` when any of
/// them is empty.
pub fn get_tx_hash_list(raw_txs: &RawTransactions) -> (r: Result<Vec<Vec<u8>>, StatusCode>)
    ensures
        match r {
            Ok(hashes) => {
                &&& forall|i: int| 0 <= i < raw_txs.body@.len() ==> (#[trigger] tx_hash_of(raw_txs.body@[i])) is Some
                &&& byte_views(hashes@) == present_hashes(raw_txs.body@)
            },
            Err(e) => {
                &&& e == StatusCode::NoTransaction
                &&& exists|i: int| 0 <= i < raw_txs.body@.len() && (#[trigger] tx_hash_of(raw_txs.body@[i])) is None
            },
        },
{
    let mut hashes: Vec<Vec<u8>> = Vec::new();
    let mut i: usize = 0;
    while i < raw_txs.body.len()
        invariant
            i <= raw_txs.body@.len(),
            forall|j: int| 0 <= j < i ==> (#[trigger] tx_hash_of(raw_txs.body@[j])) is Some,
            byte_views(hashes@) == present_hashes(raw_txs.body@.subrange(0, i as int)),
        decreases raw_txs.body.len() - i,
    {
        let ghost before = byte_views(hashes@);
        let h = match get_tx_hash(&raw_txs.body[i]) {
            Ok(h) => h,
            Err(e) => return Err(e),
        };
        hashes.push(vstd::slice::slice_to_vec(h));
        proof {
            let s = raw_txs.body@.subrange(0, i + 1);
            assert(s.drop_last() =~= raw_txs.body@.subrange(0, i as int));
            assert(byte_views(hashes@) =~= before.push(h@));
        }
        i = i + 1;
    }
    assert(raw_txs.body@.subrange(0, i as int) =~= raw_txs.body@);
    Ok(hashes)
}

/// The compact form of a block: its version and header, and the hashes of
/// its non-empty transactions in order (no hashes for a block without body).
pub fn extract_compact(block: Block) -> (r: CompactBlock)
    ensures
        r.version == block.version,
        r.header == block.header,
        r.body matches Some(b) && byte_views(b.tx_hashes@) == match block.body {
            Some(body) => present_hashes(body.body@),
            None => Seq::empty(),
        },
{
    let mut tx_hashes: Vec<Vec<u8>> = Vec::new();
    if let Some(body) = &block.body {
        let mut i: usize = 0;
        while i < body.body.len()
            invariant
                i <= body.body@.len(),
                byte_views(tx_hashes@) == present_hashes(body.body@.subrange(0, i as int)),
            decreases body.body.len() - i,
        {
            let ghost before = byte_views(tx_hashes@);
            proof {
                let s = body.body@.subrange(0, i + 1);
                assert(s.drop_last() =~= body.body@.subrange(0, i as int));
            }
            match &body.body[i].tx {
                Some(Tx::NormalTx { transaction_hash }) => {
                    tx_hashes.push(transaction_hash.clone());
                    assert(byte_views(tx_hashes@) =~= before.push(transaction_hash@));
                },
                Some(Tx::UtxoTx { transaction_hash }) => {
                    tx_hashes.push(transaction_hash.clone());
                    assert(byte_views(tx_hashes@) =~= before.push(transaction_hash@));
                },
                None => {},
            }
            i = i + 1;
        }
        assert(body.body@.subrange(0, i as int) =~= body.body@);
    }
    CompactBlock {
        version: block.version,
        header: block.header,
        body: Some(CompactBlockBody { tx_hashes }),
    }
}

/// The address derived from a public key's hash: the hash without its first
/// `HASH_BYTES_LEN - ADDR_BYTES_LEN` bytes.
pub fn address_from_hash(hash: &[u8]) -> (r: Vec<u8>)
    requires
        hash@.len() >= HASH_BYTES_LEN - ADDR_BYTES_LEN,
    ensures
        r@ == hash@.subrange((HASH_BYTES_LEN - ADDR_BYTES_LEN) as int, hash@.len() as int),
{
    let start: usize = HASH_BYTES_LEN - ADDR_BYTES_LEN;
    let mut r: Vec<u8> = Vec::new();
    let mut i: usize = start;
    while i < hash.len()
        invariant
            start <= i <= hash@.len(),
            r@ == hash@.subrange(start as int, i as int),
        decreases hash.len() - i,
    {
        r.push(hash[i]);
        assert(r@ =~= hash@.subrange(start as int, i + 1));
        i = i + 1;
    }
    r
}

} // verus!
