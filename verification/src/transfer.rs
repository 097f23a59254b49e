//! Cutting writes into SPI transfers of bounded size.
use vstd::prelude::*;

verus! {

/// The largest write transaction that Linux' SPI driver accepts by default.
pub const MAX_SPI_TRANSFER: usize = 4096;

/// The `i`-th chunk, as a half-open range, when `len` bytes are cut into
/// pieces of `MAX_SPI_TRANSFER` bytes (the last one possibly shorter).
pub open spec fn chunk_range(len: nat, i: nat) -> (int, int) {
    let start = i * MAX_SPI_TRANSFER;
    let end = if start + MAX_SPI_TRANSFER <= len { start + MAX_SPI_TRANSFER } else { len as int };
    (start as int, end)
}

/// How many chunks `len` bytes are cut into.
pub open spec fn chunk_count(len: nat) -> nat {
    ((len + MAX_SPI_TRANSFER - 1) / (MAX_SPI_TRANSFER as int)) as nat
}

/// Cuts a write of `len` bytes into consecutive ranges of at most
/// `MAX_SPI_TRANSFER` bytes, in order, as `<[u8]>::chunks` does.
/// Nothing is returned for an empty write.
pub fn transfer_chunks(len: usize) -> (chunks: Vec<(usize, usize)>)
    ensures
        chunks@.len() == chunk_count(len as nat),
        forall|i: int| 0 <= i < chunks@.len() ==>
            (#[trigger] chunks@[i]).0 as int == chunk_range(len as nat, i as nat).0
            && chunks@[i].1 as int == chunk_range(len as nat, i as nat).1,
{
    let mut chunks: Vec<(usize, usize)> = Vec::new();
    let mut start: usize = 0;
    while start < len
        invariant
            start <= len,
            start == (if chunks@.len() * MAX_SPI_TRANSFER <= len { chunks@.len() * MAX_SPI_TRANSFER } else { len as int }),
            chunks@.len() * MAX_SPI_TRANSFER < len + MAX_SPI_TRANSFER,
            forall|i: int| 0 <= i < chunks@.len() ==>
                (#[trigger] chunks@[i]).0 as int == chunk_range(len as nat, i as nat).0
                && chunks@[i].1 as int == chunk_range(len as nat, i as nat).1,
        decreases len - start,
    {
        let end: usize = if len - start >= MAX_SPI_TRANSFER { start + MAX_SPI_TRANSFER } else { len };
        chunks.push((start, end));
        start = end;
    }
    assert(chunks@.len() == chunk_count(len as nat)) by (nonlinear_arith)
        requires
            chunks@.len() * MAX_SPI_TRANSFER >= len,
            chunks@.len() * MAX_SPI_TRANSFER < len + MAX_SPI_TRANSFER,
            MAX_SPI_TRANSFER == 4096,
    ;
    chunks
}

/// The chunks of a write cover it exactly, in order and without gaps: the
/// first starts at 0, each one starts where the one before ended, the last
/// ends at `len`, and every chunk holds between 1 and `MAX_SPI_TRANSFER`
/// bytes. An empty write has no chunk.
pub proof fn lemma_chunks_cover_write(len: nat)
    ensures
        chunk_count(len) == 0 <==> len == 0,
        chunk_count(len) > 0 ==> chunk_range(len, 0).0 == 0,
        chunk_count(len) > 0 ==> chunk_range(len, (chunk_count(len) - 1) as nat).1 == len,
        forall|i: nat| i < chunk_count(len) ==>
            0 < (#[trigger] chunk_range(len, i)).1 - chunk_range(len, i).0 <= MAX_SPI_TRANSFER,
        forall|i: nat| i + 1 < chunk_count(len) ==>
            (#[trigger] chunk_range(len, i + 1)).0 == chunk_range(len, i).1,
{
    let n = chunk_count(len);
    assert(n * MAX_SPI_TRANSFER >= len && (n == 0 || (n - 1) * MAX_SPI_TRANSFER < len)) by (nonlinear_arith)
        requires
            n == (len + MAX_SPI_TRANSFER - 1) / (MAX_SPI_TRANSFER as int),
            MAX_SPI_TRANSFER == 4096,
    ;
    assert forall|i: nat| i < chunk_count(len) implies
        0 < (#[trigger] chunk_range(len, i)).1 - chunk_range(len, i).0 <= MAX_SPI_TRANSFER by {
        assert(i * MAX_SPI_TRANSFER <= (n - 1) * MAX_SPI_TRANSFER) by (nonlinear_arith)
            requires i <= n - 1;
    }
    assert forall|i: nat| i + 1 < chunk_count(len) implies
        (#[trigger] chunk_range(len, i + 1)).0 == chunk_range(len, i).1 by {
        assert((i + 1) * MAX_SPI_TRANSFER <= (n - 1) * MAX_SPI_TRANSFER) by (nonlinear_arith)
            requires i + 1 <= n - 1;
        assert((i + 1) * MAX_SPI_TRANSFER == i * MAX_SPI_TRANSFER + MAX_SPI_TRANSFER) by (nonlinear_arith);
    }
    if n > 0 {
        assert(((n - 1) as nat) * MAX_SPI_TRANSFER + MAX_SPI_TRANSFER == n * MAX_SPI_TRANSFER) by (nonlinear_arith)
            requires n > 0;
    }
}

/// The chunks of a write, as byte sequences.
pub open spec fn chunked(data: Seq<u8>) -> Seq<Seq<u8>> {
    Seq::new(
        chunk_count(data.len()),
        |i: int| data.subrange(chunk_range(data.len(), i as nat).0, chunk_range(data.len(), i as nat).1),
    )
}

/// Laid end to end, the chunks of a write give the write back.
pub proof fn lemma_chunks_reassemble(data: Seq<u8>)
    ensures
        chunked(data).flatten() == data,
    decreases data.len(),
{
    let n = data.len();
    let c = chunked(data);
    if n == 0 {
        assert(c.len() == 0);
        assert(c.flatten() =~= data);
    } else if n <= MAX_SPI_TRANSFER {
        assert(c.len() == 1);
        assert(c.drop_first().len() == 0);
        assert(c.first() =~= data);
        assert(c.drop_first().flatten() =~= Seq::<u8>::empty());
        assert(c.flatten() == c.first() + c.drop_first().flatten());
        assert(c.first() + Seq::<u8>::empty() =~= data);
    } else {
        let rest = data.skip(MAX_SPI_TRANSFER as int);
        lemma_chunks_reassemble(rest);
        assert(chunk_count(n) == chunk_count(rest.len()) + 1);
        assert(c.drop_first() =~= chunked(rest)) by {
            assert forall|i: int| 0 <= i < c.drop_first().len() implies #[trigger] c.drop_first()[i]
                =~= chunked(rest)[i] by {
                assert((i + 1) * MAX_SPI_TRANSFER == i * MAX_SPI_TRANSFER + MAX_SPI_TRANSFER) by (nonlinear_arith);
            }
        }
        assert(c.first() =~= data.take(MAX_SPI_TRANSFER as int));
        assert(c.flatten() == c.first() + c.drop_first().flatten());
        assert(data.take(MAX_SPI_TRANSFER as int) + rest =~= data);
    }
}

} // verus!
