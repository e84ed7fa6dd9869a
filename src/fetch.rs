use vstd::prelude::*;

use crate::codec::{decode, decoded, EpochJson, EpochModel};
use crate::error::DecodeError;

verus! {

/// The records of the successful decodings, in their order.
pub open spec fn successes(rs: Seq<Result<EpochModel, DecodeError>>) -> Seq<EpochModel>
    decreases rs.len(),
{
    if rs.len() == 0 {
        Seq::empty()
    } else {
        let pre = successes(rs.drop_last());
        match rs.last() {
            Ok(e) => pre.push(e),
            Err(_) => pre,
        }
    }
}

/// The positions of the successful decodings, in increasing order.
pub open spec fn success_positions(rs: Seq<Result<EpochModel, DecodeError>>) -> Seq<int>
    decreases rs.len(),
{
    if rs.len() == 0 {
        Seq::empty()
    } else {
        let pre = success_positions(rs.drop_last());
        if rs.last() is Ok {
            pre.push(rs.len() - 1)
        } else {
            pre
        }
    }
}

/// How many decodings failed.
pub open spec fn malformed_count(rs: Seq<Result<EpochModel, DecodeError>>) -> nat
    decreases rs.len(),
{
    if rs.len() == 0 {
        0
    } else {
        malformed_count(rs.drop_last()) + if rs.last() is Ok { 0nat } else { 1nat }
    }
}

/// What decoding each payload of a batch yields.
pub open spec fn decoded_batch(payloads: Seq<Vec<u8>>) -> Seq<Result<EpochModel, DecodeError>> {
    payloads.map_values(|p: Vec<u8>| decoded(p@))
}

pub open spec fn records_view(v: Seq<EpochJson>) -> Seq<EpochModel> {
    v.map_values(|e: EpochJson| e@)
}

/// Of a batch of N payloads of which M are malformed, exactly N - M records
/// come out, and they are the valid payloads' records in their relative order.
pub proof fn lemma_batch_keeps_valid(rs: Seq<Result<EpochModel, DecodeError>>)
    ensures
        successes(rs).len() == rs.len() - malformed_count(rs),
        success_positions(rs).len() == successes(rs).len(),
        forall|k: int|
            0 <= k < successes(rs).len() ==> {
                let i = #[trigger] success_positions(rs)[k];
                &&& 0 <= i < rs.len()
                &&& rs[i] == Ok::<EpochModel, DecodeError>(successes(rs)[k])
            },
        forall|k: int, l: int|
            0 <= k < l < success_positions(rs).len() ==> success_positions(rs)[k]
                < success_positions(rs)[l],
        forall|i: int|
            0 <= i < rs.len() && rs[i] is Ok ==> exists|k: int|
                0 <= k < success_positions(rs).len() && #[trigger] success_positions(rs)[k] == i,
    decreases rs.len(),
{
    if rs.len() > 0 {
        let pre = rs.drop_last();
        lemma_batch_keeps_valid(pre);
        assert forall|i: int| 0 <= i < rs.len() && rs[i] is Ok implies exists|k: int|
            0 <= k < success_positions(rs).len() && #[trigger] success_positions(rs)[k] == i by {
            if i < rs.len() - 1 {
                assert(pre[i] == rs[i]);
                let k = choose|k: int|
                    0 <= k < success_positions(pre).len() && #[trigger] success_positions(pre)[k] == i;
                assert(success_positions(rs)[k] == i);
            } else {
                let k = success_positions(pre).len() as int;
                assert(success_positions(rs)[k] == i);
            }
        }
    }
}

proof fn lemma_successes_step(rs: Seq<Result<EpochModel, DecodeError>>, i: int)
    requires
        0 <= i < rs.len(),
    ensures
        successes(rs.subrange(0, i + 1)) == match rs[i] {
            Ok(e) => successes(rs.subrange(0, i)).push(e),
            Err(_) => successes(rs.subrange(0, i)),
        },
{
    assert(rs.subrange(0, i + 1).drop_last() =~= rs.subrange(0, i));
}

/// Decodes each payload of a batch on its own and keeps the records of those
/// that decode, in the batch's order; a malformed payload is dropped.
pub fn epochs_from_payloads(payloads: &Vec<Vec<u8>>) -> (r: Vec<EpochJson>)
    ensures
        records_view(r@) == successes(decoded_batch(payloads@)),
{
    let ghost rs = decoded_batch(payloads@);
    let mut out: Vec<EpochJson> = Vec::new();
    let mut i: usize = 0;
    while i < payloads.len()
        invariant
            i <= payloads@.len(),
            rs == decoded_batch(payloads@),
            records_view(out@) == successes(rs.subrange(0, i as int)),
        decreases payloads@.len() - i,
    {
        proof {
            lemma_successes_step(rs, i as int);
        }
        let ghost before = out@;
        match decode(payloads[i].as_slice()) {
            Ok(e) => {
                out.push(e);
                assert(records_view(out@) =~= records_view(before).push(out@.last()@));
            },
            Err(_) => {},
        }
        i = i + 1;
    }
    assert(rs.subrange(0, payloads@.len() as int) =~= rs);
    out
}

} // verus!
