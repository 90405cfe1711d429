use std::collections::hash_map::DefaultHasher;
use std::hash::Hash;
use std::hash::Hasher;
use vstd::prelude::*;
use vstd::std_specs::hash::DefaultHasherAdditionalSpecFns;

use crate::decimal::decimal_digits;
use crate::decimal::decimal_value;
use crate::decimal::is_decimal_digit;
use crate::decimal::law_decimal_round_trip;
use crate::decimal::law_decimal_u64_width;
use crate::decimal::u64_to_decimal;

verus! {

/// The sequence of byte writes that `<[u8] as Hash>::hash` makes into a hasher
/// for the given bytes: a length prefix in the build target's native width and byte
/// order, then the bytes; it is a function of the bytes for one build target.
pub uninterp spec fn slice_hash_writes(data: Seq<u8>) -> Seq<Seq<u8>>;

/// Calls `<[u8] as std::hash::Hash>::hash` on `data`. Trusted: the writes it makes
/// are named by `slice_hash_writes`, a function of the bytes alone.
#[verifier::external_body]
fn hash_bytes_into(data: &[u8], state: &mut DefaultHasher)
    ensures
        final(state)@ == old(state)@ + slice_hash_writes(data@),
{
    data.hash(state);
}

/// The 64-bit digest that a fresh `DefaultHasher` gives for `data`.
pub open spec fn content_digest(data: Seq<u8>) -> u64 {
    DefaultHasher::spec_finish(slice_hash_writes(data))
}

/// The id of a chat message: the decimal form of the digest of its data alone,
/// so that two messages with the same data share one id.
pub open spec fn spec_message_id(data: Seq<u8>) -> Seq<char> {
    decimal_digits(content_digest(data) as nat)
}

/// Computes the content-addressed id of a gossip message from its data.
pub fn message_id(data: &[u8]) -> (id: String)
    ensures
        id@ == spec_message_id(data@),
{
    let mut h = DefaultHasher::new();
    hash_bytes_into(data, &mut h);
    assert(h@ =~= slice_hash_writes(data@));
    let digest = h.finish();
    u64_to_decimal(digest)
}

/// Message ids are content addresses: messages with the same data get the same id,
/// and an id is the decimal form, at most twenty digits without a leading zero, of the
/// digest of the data.
pub proof fn law_message_id_content_addressed(a: Seq<u8>, b: Seq<u8>)
    ensures
        a == b ==> spec_message_id(a) == spec_message_id(b),
        decimal_value(spec_message_id(a)) == content_digest(a),
        1 <= spec_message_id(a).len() <= 20,
        forall|i: int| 0 <= i < spec_message_id(a).len() ==> is_decimal_digit(#[trigger] spec_message_id(a)[i]),
        spec_message_id(a).len() > 1 ==> spec_message_id(a)[0] != '0',
{
    law_decimal_round_trip(content_digest(a) as nat);
    law_decimal_u64_width(content_digest(a));
}

/// The id of a message is the decimal form of the digest that a fresh `DefaultHasher`
/// gives after hashing the whole of its data: reading the id back gives that digest,
/// and two messages get the same id exactly when the digests of all their bytes agree.
pub proof fn law_message_id_hashes_whole_data(a: Seq<u8>, b: Seq<u8>)
    ensures
        decimal_value(spec_message_id(a)) == DefaultHasher::spec_finish(slice_hash_writes(a)),
        spec_message_id(a) == spec_message_id(b) <==> DefaultHasher::spec_finish(slice_hash_writes(a))
            == DefaultHasher::spec_finish(slice_hash_writes(b)),
{
    law_decimal_round_trip(DefaultHasher::spec_finish(slice_hash_writes(a)) as nat);
    law_decimal_round_trip(DefaultHasher::spec_finish(slice_hash_writes(b)) as nat);
    law_decimal_round_trip(content_digest(a) as nat);
    law_decimal_round_trip(content_digest(b) as nat);
}

} // verus!
