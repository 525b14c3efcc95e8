//! Record framing for the modelled engine: a record is a four-byte
//! big-endian length followed by the payload.
//!
//! The real record protocol lives entirely inside the engine; this framing
//! fixes the engine model's observable wire shape so that what the
//! established stream writes and what it reads can be related exactly.

use vstd::prelude::*;

use crate::shim::shim_read_model;
use crate::status::ERR_SEC_SUCCESS;
use crate::stream::ReadEventModel;

verus! {

/// The largest payload a record may announce.
pub const MAX_RECORD_PAYLOAD: usize = 65536;

/// The big-endian four-byte encoding of a length.
pub open spec fn be32_spec(n: u32) -> Seq<u8> {
    seq![
        (n / 0x1000000) as u8,
        ((n / 0x10000) % 0x100) as u8,
        ((n / 0x100) % 0x100) as u8,
        (n % 0x100) as u8,
    ]
}

/// The length that four big-endian bytes denote.
pub open spec fn be32_val(s: Seq<u8>) -> int {
    s[0] * 0x1000000 + s[1] * 0x10000 + s[2] * 0x100 + s[3]
}

/// Encodes a length as four big-endian bytes.
pub fn be32_encode(n: u32) -> (v: Vec<u8>)
    ensures
        v@ == be32_spec(n),
        v@.len() == 4,
{
    let mut v: Vec<u8> = Vec::new();
    v.push((n / 0x1000000) as u8);
    v.push(((n / 0x10000) % 0x100) as u8);
    v.push(((n / 0x100) % 0x100) as u8);
    v.push((n % 0x100) as u8);
    proof {
        assert(v@ =~= be32_spec(n));
    }
    v
}

/// Decodes four big-endian bytes as a length.
pub fn be32_decode(v: &Vec<u8>) -> (n: u64)
    requires
        v@.len() == 4,
    ensures
        n == be32_val(v@),
{
    (v[0] as u64) * 0x1000000 + (v[1] as u64) * 0x10000 + (v[2] as u64) * 0x100 + (v[3] as u64)
}

/// Decoding the four-byte encoding of a length gives the length back.
pub proof fn lemma_be32_round_trip(n: u32)
    ensures
        be32_val(be32_spec(n)) == n,
        0 <= be32_val(be32_spec(n)) <= u32::MAX,
{
    assert(n == (n / 0x1000000) * 0x1000000 + (n / 0x10000) % 0x100 * 0x10000 + (n / 0x100)
        % 0x100 * 0x100 + n % 0x100) by (nonlinear_arith);
}

/// The wire shape of one record carrying `payload`.
pub open spec fn frame_spec(payload: Seq<u8>) -> Seq<u8> {
    be32_spec(payload.len() as u32) + payload
}

/// A payload of any length framed as as many records as needed: full-size
/// records followed by the remainder; an empty payload frames as nothing.
pub open spec fn framed_chunks(data: Seq<u8>) -> Seq<u8>
    decreases data.len(),
{
    if data.len() == 0 {
        Seq::empty()
    } else if data.len() <= MAX_RECORD_PAYLOAD {
        frame_spec(data)
    } else {
        frame_spec(data.take(MAX_RECORD_PAYLOAD as int)) + framed_chunks(
            data.skip(MAX_RECORD_PAYLOAD as int),
        )
    }
}

/// Frames a payload as one record.
pub fn frame(payload: &Vec<u8>) -> (v: Vec<u8>)
    requires
        payload@.len() <= MAX_RECORD_PAYLOAD,
    ensures
        v@ == frame_spec(payload@),
        v@.len() == payload@.len() + 4,
{
    let mut v = be32_encode(payload.len() as u32);
    proof {
        assert(v@ =~= be32_spec(payload@.len() as u32) + payload@.take(0));
    }
    let mut i: usize = 0;
    while i < payload.len()
        invariant
            i <= payload@.len(),
            v@ == be32_spec(payload@.len() as u32) + payload@.take(i as int),
        decreases payload@.len() - i,
    {
        v.push(payload[i]);
        proof {
            assert(v@ =~= be32_spec(payload@.len() as u32) + payload@.take(i + 1));
        }
        i = i + 1;
    }
    proof {
        assert(v@ =~= frame_spec(payload@));
    }
    v
}

/// Framing loses nothing: when a stream's script delivers one framed record
/// (followed by anything), reading its header announces exactly the payload
/// length, and reading that many bytes delivers exactly the payload, leaving
/// the rest of the script untouched. Together with the outbound contract —
/// a successful record write appends exactly `frame_spec(payload)` to the
/// peer's bytes — a write of a payload followed by a read on the peer's side
/// reproduces that payload without loss or duplication.
pub proof fn lemma_frame_round_trip(payload: Seq<u8>, rest: Seq<ReadEventModel>)
    requires
        payload.len() <= MAX_RECORD_PAYLOAD,
    ensures
        ({
            let evs = seq![ReadEventModel::Data(frame_spec(payload))] + rest;
            let header = shim_read_model(evs, 4);
            &&& header.status == ERR_SEC_SUCCESS
            &&& be32_val(header.taken) == payload.len()
            &&& ({
                let body = shim_read_model(header.reads, payload.len() as int);
                payload.len() > 0 ==> {
                    &&& body.status == ERR_SEC_SUCCESS
                    &&& body.taken == payload
                    &&& body.reads == rest
                }
            })
        }),
{
    let evs = seq![ReadEventModel::Data(frame_spec(payload))] + rest;
    let f = frame_spec(payload);
    lemma_be32_round_trip(payload.len() as u32);
    assert(f.len() == payload.len() + 4);
    assert(evs[0] == ReadEventModel::Data(f));
    let header = shim_read_model(evs, 4);
    if payload.len() == 0 {
        assert(f.take(4) =~= f);
        assert(evs.skip(1) =~= rest);
        assert(header.taken =~= be32_spec(0));
        assert(be32_val(header.taken) == 0);
    } else {
        let evs2 = seq![ReadEventModel::Data(f.skip(4))] + evs.skip(1);
        assert(header.taken =~= f.take(4));
        assert(f.take(4) =~= be32_spec(payload.len() as u32));
        assert(header.reads =~= evs2);
        let body = shim_read_model(evs2, payload.len() as int);
        assert(f.skip(4) =~= payload);
        assert(evs2[0] == ReadEventModel::Data(payload));
        assert(body.taken == payload);
        assert(body.reads =~= rest);
    }
}

/// Whether two byte strings hold the same bytes.
pub(crate) fn bytes_eq(a: &[u8], b: &[u8]) -> (r: bool)
    ensures
        r <==> a@ == b@,
{
    if a.len() != b.len() {
        proof {
            assert(a@.len() != b@.len());
        }
        return false;
    }
    let mut i: usize = 0;
    while i < a.len()
        invariant
            i <= a@.len(),
            a@.len() == b@.len(),
            forall|j: int| 0 <= j < i ==> a@[j] == b@[j],
        decreases a@.len() - i,
    {
        if a[i] != b[i] {
            return false;
        }
        i = i + 1;
    }
    proof {
        assert(a@ =~= b@);
    }
    true
}

} // verus!
