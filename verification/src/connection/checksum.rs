//! The CRC-32 checksums that file uploads carry, and the chunks a transfer
//! is cut into.
use crate::connection::chunks;
use crate::connection::message::{StartFileUploadRequest, TransferChunkRequest};
use vstd::prelude::*;
use vstd::string::StringSliceAdditionalSpecFns;

verus! {

/// The initial register value of CRC-32/ISO-HDLC, which `crc`'s
/// `Crc::digest` starts from.
pub const CRC32_INIT: u32 = 0xffff_ffff;

/// What the `crc` crate computes for CRC-32/ISO-HDLC when a digest starts
/// from `initial` and is fed `bytes`.
pub uninterp spec fn crc32_iso_hdlc(initial: u32, bytes: Seq<u8>) -> u32;

/// `crc::Crc::<u32>::new(&CRC_32_ISO_HDLC).digest_with_initial(initial)`,
/// fed `bytes` by `Digest::update` and closed by `Digest::finalize`. The
/// result depends on `initial` and `bytes` alone; nothing more is stated.
#[verifier::external_body]
fn crc32_with_initial(initial: u32, bytes: &[u8]) -> (c: u32)
    ensures
        c == crc32_iso_hdlc(initial, bytes@),
{
    let crc = crc::Crc::<u32>::new(&crc::CRC_32_ISO_HDLC);
    let mut digest = crc.digest_with_initial(initial);
    digest.update(bytes);
    digest.finalize()
}

/// `s` followed by zero bytes up to the next multiple of four.
pub open spec fn pad4(s: Seq<u8>) -> Seq<u8> {
    s + Seq::new(((4 - s.len() % 4) % 4) as nat, |i: int| 0u8)
}

fn padded(s: &[u8]) -> (r: Vec<u8>)
    ensures
        r@ == pad4(s@),
{
    let mut r = vstd::slice::slice_to_vec(s);
    let pad = (4 - s.len() % 4) % 4;
    let mut k: usize = 0;
    while k < pad
        invariant
            k <= pad,
            pad == (4 - s@.len() % 4) % 4,
            r@ == s@ + Seq::new(k as nat, |i: int| 0u8),
        decreases pad - k,
    {
        r.push(0);
        k = k + 1;
        assert(r@ =~= s@ + Seq::new(k as nat, |i: int| 0u8));
    }
    r
}

/// The request that starts the upload of `code` as the program `name` in
/// `slot`; it carries the checksum of the code, padded to a multiple of
/// four bytes.
pub fn file_upload_request<'a>(name: &'a str, slot: u8, code: &str) -> (r: StartFileUploadRequest<'a>)
    ensures
        r.file_name == name,
        r.program_slot == slot,
        r.crc32 == crc32_iso_hdlc(CRC32_INIT, pad4(code.spec_bytes())),
{
    let bytes = padded(code.as_bytes());
    let crc32 = crc32_with_initial(CRC32_INIT, bytes.as_slice());
    StartFileUploadRequest { file_name: name, program_slot: slot, crc32 }
}

/// The checksums of a sequence of chunks: each is computed over the chunk
/// padded to a multiple of four bytes, starting from the checksum before it
/// (from `initial` for the first).
pub open spec fn crc_chain(pieces: Seq<Seq<u8>>, initial: u32) -> Seq<u32>
    decreases pieces.len(),
{
    if pieces.len() == 0 {
        seq![]
    } else {
        let c = crc32_iso_hdlc(initial, pad4(pieces[0]));
        seq![c] + crc_chain(pieces.drop_first(), c)
    }
}

proof fn lemma_crc_chain_len(pieces: Seq<Seq<u8>>, initial: u32)
    ensures
        crc_chain(pieces, initial).len() == pieces.len(),
    decreases pieces.len(),
{
    if pieces.len() > 0 {
        lemma_crc_chain_len(pieces.drop_first(), crc32_iso_hdlc(initial, pad4(pieces[0])));
    }
}

/// The chunk requests that transfer `data`, `max_chunk_size` bytes at a
/// time, each with the byte position where its chunk starts.
pub fn transfer_chunks<'a>(data: &'a [u8], max_chunk_size: u16) -> (r: Vec<(usize, TransferChunkRequest<'a>)>)
    requires
        max_chunk_size > 0,
    ensures
        r@.len() == chunks(data@, max_chunk_size as nat).len(),
        forall|k: int|
            #![trigger r@[k]]
            0 <= k < r@.len() ==> {
                &&& r@[k].0 == k * max_chunk_size
                &&& r@[k].1.payload@ == chunks(data@, max_chunk_size as nat)[k]
                &&& r@[k].1.crc32 == crc_chain(chunks(data@, max_chunk_size as nat), CRC32_INIT)[k]
            },
{
    let step = max_chunk_size as usize;
    let ghost all = chunks(data@, step as nat);
    let ghost chain = crc_chain(all, CRC32_INIT);
    let mut r: Vec<(usize, TransferChunkRequest<'a>)> = Vec::new();
    let mut crc32 = CRC32_INIT;
    let mut i: usize = 0;
    let ghost mut k: int = 0;
    assert(data@.skip(0) =~= data@);
    assert(all.skip(0) =~= all);
    assert(chain.skip(0) =~= chain);
    proof {
        lemma_crc_chain_len(all, CRC32_INIT);
    }
    while i < data.len()
        invariant
            step == max_chunk_size,
            step > 0,
            all == chunks(data@, step as nat),
            chain == crc_chain(all, CRC32_INIT),
            i <= data@.len(),
            0 <= k <= all.len(),
            i < data@.len() ==> i == k * step,
            r@.len() == k,
            chunks(data@.skip(i as int), step as nat) == all.skip(k),
            crc_chain(all.skip(k), crc32) == chain.skip(k),
            chain.len() == all.len(),
            forall|j: int|
                #![trigger r@[j]]
                0 <= j < k ==> {
                    &&& r@[j].0 == j * step
                    &&& r@[j].1.payload@ == all[j]
                    &&& r@[j].1.crc32 == chain[j]
                },
        decreases data.len() - i,
    {
        let ghost rest = data@.skip(i as int);
        let end = if data.len() - i <= step {
            data.len()
        } else {
            i + step
        };
        let slice = vstd::slice::slice_subrange(data, i, end);
        proof {
            assert(all.skip(k)[0] == all[k]);
            if rest.len() <= step {
                assert(slice@ =~= rest);
            } else {
                assert(slice@ =~= rest.take(step as int));
                assert(rest.skip(step as int) =~= data@.skip(end as int));
            }
            assert(all.skip(k).drop_first() =~= all.skip(k + 1));
            assert(chain.skip(k).drop_first() =~= chain.skip(k + 1));
            assert(chain.skip(k)[0] == chain[k]);
        }
        let padded_slice = padded(slice);
        crc32 = crc32_with_initial(crc32, padded_slice.as_slice());
        r.push((i, TransferChunkRequest { crc32, payload: slice }));
        proof {
            if rest.len() <= step {
                assert(data@.skip(end as int).len() == 0);
                assert(all.skip(k + 1).len() == 0);
            }
            assert((k + 1) * step == k * step + step) by (nonlinear_arith);
            k = k + 1;
        }
        i = end;
    }
    proof {
        assert(chunks(data@.skip(i as int), step as nat).len() == 0);
        assert(k == all.len());
    }
    r
}

} // verus!
