use vstd::prelude::*;
use crate::chunk::{CHUNK_META_SIZE, Chunk, ChunkView, spec_chunk};
use crate::error::DecodeError;
use crate::metadata::{SIGNATURE_SIZE, Signature, spec_signature};
use crate::reader::Reader;

verus! {

/// `res` with `p` put in front of its chunks, when it holds any.
pub open spec fn prepend(p: Seq<ChunkView>, res: Result<Seq<ChunkView>, DecodeError>) -> Result<
    Seq<ChunkView>,
    DecodeError,
> {
    match res {
        Ok(cs) => Ok(p + cs),
        Err(e) => Err(e),
    }
}

/// The chunks decoded from `s` while the running byte count `count`, which each chunk
/// advances by its declared size, stays below `total`.
pub open spec fn spec_chunks(s: Seq<u8>, count: int, total: int) -> Result<
    Seq<ChunkView>,
    DecodeError,
>
    decreases if count < total { total - count } else { 0 },
{
    if count >= total {
        Ok(Seq::empty())
    } else {
        match spec_chunk(s) {
            Err(e) => Err(e),
            Ok((c, k)) => prepend(
                seq![c],
                spec_chunks(s.skip(k as int), count + 12 + c.length as int, total),
            ),
        }
    }
}

/// The outcome of decoding an image from `s`, whose declared length is `total`.
pub open spec fn spec_image(s: Seq<u8>, total: int) -> Result<Seq<ChunkView>, DecodeError> {
    match spec_signature(s) {
        Err(e) => Err(e),
        Ok(_) => match spec_chunks(s.skip(SIGNATURE_SIZE as int), SIGNATURE_SIZE as int, total) {
            Err(e) => Err(e),
            Ok(cs) => if cs.len() == 0 {
                Err(DecodeError::EmptyImage)
            } else {
                Ok(cs)
            },
        },
    }
}

proof fn lemma_prepend_push(p: Seq<ChunkView>, c: ChunkView, res: Result<Seq<ChunkView>, DecodeError>)
    ensures
        prepend(p, prepend(seq![c], res)) == prepend(p.push(c), res),
{
    if let Ok(cs) = res {
        assert(p + (seq![c] + cs) =~= p.push(c) + cs);
    }
}

/// A decoded image: its validated signature and its chunks in stream order.
pub struct Image {
    pub sig: Signature,
    pub chunks: Vec<Chunk>,
}

impl Image {
    /// The chunks' contents, in stream order.
    pub open spec fn chunk_views(&self) -> Seq<ChunkView> {
        self.chunks@.map_values(|c: Chunk| c@)
    }

    /// Decodes a whole image from `r`, whose total length is declared as `file_len`:
    /// the signature, then chunks until the count of bytes reaches `file_len`. Each chunk
    /// counts 12 bytes plus its declared length. An end marker does not stop the loop, and
    /// a stream that yields no chunk fails with `EmptyImage`.
    pub fn from_reader(r: &mut Reader, file_len: usize) -> (res: Result<Image, DecodeError>)
        requires
            old(r).wf(),
        ensures
            final(r).wf(),
            match res {
                Ok(img) => spec_image(old(r)@, file_len as int) == Ok::<
                    Seq<ChunkView>,
                    DecodeError,
                >(img.chunk_views()),
                Err(e) => spec_image(old(r)@, file_len as int) == Err::<Seq<ChunkView>, DecodeError>(
                    e,
                ),
            },
    {
        let ghost s = r@;
        let sig = match Signature::from_reader(r) {
            Ok(sig) => sig,
            Err(e) => return Err(e),
        };
        let ghost total = file_len as int;
        let ghost mut count: int = SIGNATURE_SIZE as int;
        let mut bytes_read: u64 = SIGNATURE_SIZE as u64;
        let mut chunks: Vec<Chunk> = Vec::new();
        assert(chunks@.map_values(|c: Chunk| c@) =~= Seq::<ChunkView>::empty());
        assert(Seq::<ChunkView>::empty() + Seq::<ChunkView>::empty() =~= Seq::<ChunkView>::empty());
        while bytes_read < file_len as u64
            invariant
                r.wf(),
                total == file_len as int,
                s == old(r)@,
                spec_signature(s) is Ok,
                count >= SIGNATURE_SIZE,
                if count < u64::MAX {
                    bytes_read == count
                } else {
                    bytes_read == u64::MAX
                },
                spec_chunks(s.skip(SIGNATURE_SIZE as int), SIGNATURE_SIZE as int, total)
                    == prepend(chunks@.map_values(|c: Chunk| c@), spec_chunks(r@, count, total)),
            decreases if count < total { total - count } else { 0 },
        {
            let ghost before = r@;
            let ghost views = chunks@.map_values(|c: Chunk| c@);
            assert(count < total);
            let c = match Chunk::from_reader(r) {
                Ok(c) => c,
                Err(e) => {
                    assert(spec_chunks(before, count, total) == Err::<Seq<ChunkView>, DecodeError>(e));
                    return Err(e);
                },
            };
            let ghost k = spec_chunk(before)->Ok_0.1;
            assert(spec_chunks(before, count, total) == prepend(
                seq![c@],
                spec_chunks(r@, count + 12 + c@.length as int, total),
            ));
            proof {
                lemma_prepend_push(views, c@, spec_chunks(r@, count + 12 + c@.length as int, total));
            }
            let step = CHUNK_META_SIZE as u64 + c.data_len() as u64;
            if bytes_read > u64::MAX - step {
                bytes_read = u64::MAX;
            } else {
                bytes_read = bytes_read + step;
            }
            proof {
                count = count + 12 + c@.length as int;
            }
            let ghost cv = c@;
            chunks.push(c);
            assert(chunks@.map_values(|c: Chunk| c@) =~= views.push(cv));
        }
        assert(spec_chunks(r@, count, total) == Ok::<Seq<ChunkView>, DecodeError>(Seq::empty()));
        assert(chunks@.map_values(|c: Chunk| c@) + Seq::<ChunkView>::empty() =~= chunks@.map_values(|c: Chunk| c@));
        if chunks.len() == 0 {
            return Err(DecodeError::EmptyImage);
        }
        Ok(Image { sig, chunks })
    }
}

} // verus!
