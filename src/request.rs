//! The record that announces a randomness request and the instruction to call back.
use crate::account::AccountMetaRef;
use vstd::prelude::*;

verus! {

/// Length of the selector that opens every serialized instruction.
pub const SIGHASH_LEN: usize = 8;

/// A deferred instruction: its selector, its serialized arguments, and the
/// accounts it takes, in the order of its parameters.
#[derive(Debug, Clone)]
pub struct RequestVrf {
    pub ix_sighash: [u8; 8],
    pub ix_data: Vec<u8>,
    pub accounts: Vec<AccountMetaRef>,
}

impl RequestVrf {
    /// The serialized instruction that the record describes: selector, then arguments.
    pub open spec fn instruction_bytes(&self) -> Seq<u8> {
        self.ix_sighash@ + self.ix_data@
    }
}

/// Builds the record that announces a randomness request: the serialized
/// instruction `data` is split after its selector, and `accounts` is kept as
/// given. Publishing the record is left to the caller.
pub fn request_random(data: &[u8], accounts: Vec<AccountMetaRef>) -> (r: RequestVrf)
    requires
        data@.len() >= SIGHASH_LEN,
    ensures
        r.ix_sighash@ == data@.subrange(0, SIGHASH_LEN as int),
        r.ix_data@ == data@.subrange(SIGHASH_LEN as int, data@.len() as int),
        r.instruction_bytes() == data@,
        r.accounts@ == accounts@,
{
    let ix_sighash: [u8; 8] = [
        data[0],
        data[1],
        data[2],
        data[3],
        data[4],
        data[5],
        data[6],
        data[7],
    ];
    let mut ix_data: Vec<u8> = Vec::with_capacity(data.len() - SIGHASH_LEN);
    let mut i: usize = SIGHASH_LEN;
    while i < data.len()
        invariant
            SIGHASH_LEN <= i <= data@.len(),
            ix_data@ == data@.subrange(SIGHASH_LEN as int, i as int),
        decreases data@.len() - i,
    {
        ix_data.push(data[i]);
        i = i + 1;
    }
    assert(ix_sighash@ =~= data@.subrange(0, SIGHASH_LEN as int));
    assert(ix_sighash@ + ix_data@ =~= data@);
    RequestVrf { ix_sighash, ix_data, accounts }
}

} // verus!
