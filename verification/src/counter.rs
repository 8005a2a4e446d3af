//! The persisted invocation counter and the random number read back, each
//! eight little-endian bytes.

use crate::error::{BorshFault, HookError};
use vstd::bytes::*;
use vstd::prelude::*;

verus! {

/// The random number that the randomness component hands back.
#[derive(Clone, Copy, Debug, PartialEq, Eq)]
pub struct RandomNumber {
    pub random_number: u64,
}

/// How many randomness requests have completed for one mint and authority.
#[derive(Clone, Copy, Debug, PartialEq, Eq)]
pub struct Counter {
    pub total_calls: u64,
}

/// The stored form of a counter.
pub open spec fn encode_counter(counter: Counter) -> Seq<u8> {
    spec_u64_to_le_bytes(counter.total_calls)
}

/// The integer that eight bytes store in little-endian order; shorter and
/// longer data each fail in their own way.
pub open spec fn decode_u64(data: Seq<u8>) -> Result<u64, BorshFault> {
    if data.len() == 8 {
        Ok(spec_u64_from_le_bytes(data))
    } else if data.len() < 8 {
        Err(BorshFault::UnexpectedLength)
    } else {
        Err(BorshFault::NotAllBytesRead)
    }
}

/// The counter that `data` stores, if it stores one.
pub open spec fn decode_counter(data: Seq<u8>) -> Result<Counter, BorshFault> {
    match decode_u64(data) {
        Ok(total_calls) => Ok(Counter { total_calls }),
        Err(fault) => Err(fault),
    }
}

/// The random number that a response buffer holds, if it holds one.
pub open spec fn decode_random_number(data: Seq<u8>) -> Result<RandomNumber, BorshFault> {
    match decode_u64(data) {
        Ok(random_number) => Ok(RandomNumber { random_number }),
        Err(fault) => Err(fault),
    }
}

/// The counter after one more completed request; `None` at the maximum.
pub open spec fn increment_counter(counter: Counter) -> Option<Counter> {
    if counter.total_calls < u64::MAX {
        Some(Counter { total_calls: (counter.total_calls + 1) as u64 })
    } else {
        None
    }
}

/// Calls borsh's `try_from_slice` for `u64`. Trusted: it succeeds on exactly
/// eight bytes and reads them as a little-endian integer.
#[verifier::external_body]
fn borsh_read_u64(data: &[u8]) -> (r: Result<u64, std::io::Error>)
    ensures
        r is Ok <==> data@.len() == 8,
        r matches Ok(value) ==> value == spec_u64_from_le_bytes(data@),
{
    <u64 as borsh::BorshDeserialize>::try_from_slice(data)
}

/// Calls borsh's `serialize` for `u64` on `target` as a byte slice. Trusted: it
/// overwrites the first eight bytes with the little-endian integer, fails on a
/// shorter target, and never changes the length.
#[verifier::external_body]
fn borsh_write_u64(value: u64, target: &mut Vec<u8>) -> (r: Result<(), std::io::Error>)
    ensures
        r is Ok <==> old(target)@.len() >= 8,
        r is Ok ==> final(target)@ == spec_u64_to_le_bytes(value) + old(target)@.skip(8),
        final(target)@.len() == old(target)@.len(),
{
    borsh::BorshSerialize::serialize(&value, &mut &mut target[..])
}

/// Reads eight bytes as a little-endian integer, and says of other data
/// whether it is too short or too long.
pub fn read_u64(data: &[u8]) -> (r: Result<u64, BorshFault>)
    ensures
        r == decode_u64(data@),
{
    match borsh_read_u64(data) {
        Ok(value) => Ok(value),
        Err(_) => if data.len() < 8 {
            Err(BorshFault::UnexpectedLength)
        } else {
            Err(BorshFault::NotAllBytesRead)
        },
    }
}

impl Counter {
    /// Reads a counter from its account data.
    pub fn try_from_slice(data: &[u8]) -> (r: Result<Counter, HookError>)
        ensures
            r == match decode_counter(data@) {
                Ok(counter) => Ok::<Counter, HookError>(counter),
                Err(fault) => Err(HookError::BorshIoError(fault)),
            },
    {
        match read_u64(data) {
            Ok(total_calls) => Ok(Counter { total_calls }),
            Err(fault) => Err(HookError::BorshIoError(fault)),
        }
    }

    /// Writes the counter over the first eight bytes of `target`.
    pub fn serialize(&self, target: &mut Vec<u8>) -> (r: Result<(), HookError>)
        ensures
            final(target)@.len() == old(target)@.len(),
            old(target)@.len() >= 8 ==> r is Ok && final(target)@ == encode_counter(*self) + old(
                target,
            )@.skip(8),
            old(target)@.len() < 8 ==> r == Err::<(), HookError>(
                HookError::BorshIoError(BorshFault::WriteZero),
            ),
    {
        match borsh_write_u64(self.total_calls, target) {
            Ok(()) => Ok(()),
            Err(_) => Err(HookError::BorshIoError(BorshFault::WriteZero)),
        }
    }

    /// The eight bytes that store the counter.
    pub fn to_bytes(&self) -> (r: Vec<u8>)
        ensures
            r@ == encode_counter(*self),
    {
        let mut out: Vec<u8> = vec![0u8, 0u8, 0u8, 0u8, 0u8, 0u8, 0u8, 0u8];
        let stored = self.serialize(&mut out);
        proof {
            lemma_auto_spec_u64_to_from_le_bytes();
            assert(stored is Ok);
            assert(out@ =~= encode_counter(*self));
        }
        out
    }

    /// The counter after one more completed request. At the maximum the
    /// increment is refused; it never wraps.
    pub fn checked_increment(&self) -> (r: Result<Counter, HookError>)
        ensures
            r == match increment_counter(*self) {
                Some(next) => Ok::<Counter, HookError>(next),
                None => Err(HookError::IncorrectAccount),
            },
    {
        match self.total_calls.checked_add(1) {
            Some(total_calls) => Ok(Counter { total_calls }),
            None => Err(HookError::IncorrectAccount),
        }
    }
}

impl RandomNumber {
    /// Reads the random number from a response buffer.
    pub fn try_from_slice(data: &[u8]) -> (r: Result<RandomNumber, HookError>)
        ensures
            r == match decode_random_number(data@) {
                Ok(number) => Ok::<RandomNumber, HookError>(number),
                Err(fault) => Err(HookError::BorshIoError(fault)),
            },
    {
        match read_u64(data) {
            Ok(random_number) => Ok(RandomNumber { random_number }),
            Err(fault) => Err(HookError::BorshIoError(fault)),
        }
    }
}

/// A counter that is stored, read back, incremented and stored again reads
/// as one more than before; at the maximum the increment is refused.
pub proof fn counter_round_trip(counter: Counter)
    ensures
        decode_counter(encode_counter(counter)) == Ok::<Counter, BorshFault>(counter),
        counter.total_calls < u64::MAX ==> {
            &&& increment_counter(counter) is Some
            &&& decode_counter(encode_counter(increment_counter(counter).unwrap())) == Ok::<
                Counter,
                BorshFault,
            >(Counter { total_calls: (counter.total_calls + 1) as u64 })
        },
        counter.total_calls == u64::MAX ==> increment_counter(counter) is None,
{
    lemma_auto_spec_u64_to_from_le_bytes();
}

} // verus!
