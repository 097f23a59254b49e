//! What the panel receives from a program: the bytes written, in order, each
//! with the level of the Data/Command pin it is sampled with.
use vstd::prelude::*;

use crate::bus::{
    bytewise_writes, cmd_ops, cmd_with_data_ops, data_ops, pause_ops, repeated_data_ops, Level, Op,
};
use crate::transfer::{chunked, lemma_chunks_reassemble};

verus! {

/// The level of the Data/Command pin after `op`, when it was `dc` before.
pub open spec fn next_dc(op: Op, dc: Level) -> Level {
    match op {
        Op::SetDc(level) => level,
        _ => dc,
    }
}

/// The level of the Data/Command pin after `ops`, when it was `dc` before.
pub open spec fn dc_after(ops: Seq<Op>, dc: Level) -> Level
    decreases ops.len(),
{
    if ops.len() == 0 {
        dc
    } else {
        dc_after(ops.drop_first(), next_dc(ops[0], dc))
    }
}

/// The bytes that `op` puts on the bus, each with the level of the
/// Data/Command pin it is sampled with.
pub open spec fn written(op: Op, dc: Level) -> Seq<(Level, u8)> {
    match op {
        Op::Write(bytes) => bytes.map_values(|b: u8| (dc, b)),
        _ => Seq::empty(),
    }
}

/// What the panel receives from `ops`, when the Data/Command pin starts at
/// `dc`: every byte written, in order, with the level of the pin at that time.
pub open spec fn received(ops: Seq<Op>, dc: Level) -> Seq<(Level, u8)>
    decreases ops.len(),
{
    if ops.len() == 0 {
        Seq::empty()
    } else {
        written(ops[0], dc) + received(ops.drop_first(), next_dc(ops[0], dc))
    }
}

/// What the panel receives from two programs in a row is what it receives
/// from the first, then from the second with the pin where the first left it.
pub broadcast proof fn lemma_received_concat(a: Seq<Op>, b: Seq<Op>, dc: Level)
    ensures
        #[trigger] received(a + b, dc) == received(a, dc) + received(b, dc_after(a, dc)),
        dc_after(a + b, dc) == dc_after(b, dc_after(a, dc)),
    decreases a.len(),
{
    if a.len() == 0 {
        assert(a + b =~= b);
        assert(received(a, dc) + received(b, dc) =~= received(b, dc));
    } else {
        assert((a + b).drop_first() =~= a.drop_first() + b);
        assert((a + b)[0] == a[0]);
        lemma_received_concat(a.drop_first(), b, next_dc(a[0], dc));
        assert(received(a + b, dc) =~= received(a, dc) + received(b, dc_after(a, dc)));
    }
}

/// Writing bytes one transaction each hands the panel those bytes, with the
/// pin level unchanged.
pub proof fn lemma_received_bytewise(data: Seq<u8>, dc: Level)
    ensures
        received(bytewise_writes(data), dc) == data.map_values(|b: u8| (dc, b)),
        dc_after(bytewise_writes(data), dc) == dc,
    decreases data.len(),
{
    let w = bytewise_writes(data);
    if data.len() == 0 {
        assert(received(w, dc) =~= data.map_values(|b: u8| (dc, b)));
    } else {
        assert(w.drop_first() =~= bytewise_writes(data.drop_first()));
        lemma_received_bytewise(data.drop_first(), dc);
        assert(written(w[0], dc) =~= seq![(dc, data[0])]);
        assert(received(w, dc) =~= data.map_values(|b: u8| (dc, b)));
    }
}

/// What the panel receives from a single step.
pub proof fn lemma_received_single(op: Op, dc: Level)
    ensures
        received(seq![op], dc) == written(op, dc),
        dc_after(seq![op], dc) == next_dc(op, dc),
{
    let s = seq![op];
    assert(s.drop_first() =~= Seq::<Op>::empty());
    assert(s[0] == op);
    assert(received(s, dc) =~= written(op, dc) + received(s.drop_first(), next_dc(op, dc)));
    assert(written(op, dc) + Seq::<(Level, u8)>::empty() =~= written(op, dc));
    assert(dc_after(s, dc) == dc_after(s.drop_first(), next_dc(op, dc)));
}

/// A command hands the panel its address byte with the pin low.
pub broadcast proof fn lemma_received_cmd(address: u8, dc: Level)
    ensures
        #[trigger] received(cmd_ops(address), dc) == seq![(Level::Low, address)],
        dc_after(cmd_ops(address), dc) == Level::Low,
{
    let a = seq![Op::SetDc(Level::Low)];
    let b = seq![Op::Write(seq![address])];
    assert(cmd_ops(address) =~= a + b);
    lemma_received_concat(a, b, dc);
    lemma_received_single(a[0], dc);
    lemma_received_single(b[0], Level::Low);
    assert(written(b[0], Level::Low) =~= seq![(Level::Low, address)]);
    assert(received(a, dc) + received(b, Level::Low) =~= seq![(Level::Low, address)]);
}

/// Whether data blocks are written byte by byte or in one transaction only
/// changes how the bytes are cut into transactions: the panel receives the
/// same bytes, all with the pin high.
pub broadcast proof fn lemma_received_data(data: Seq<u8>, single_byte_write: bool, dc: Level)
    ensures
        #[trigger] received(data_ops(data, single_byte_write), dc) == data.map_values(|b: u8| (Level::High, b)),
        dc_after(data_ops(data, single_byte_write), dc) == Level::High,
{
    let head = seq![Op::SetDc(Level::High)];
    let tail = if single_byte_write { bytewise_writes(data) } else { seq![Op::Write(data)] };
    assert(data_ops(data, single_byte_write) == head + tail);
    lemma_received_concat(head, tail, dc);
    lemma_received_single(head[0], dc);
    assert(received(head, dc) =~= Seq::<(Level, u8)>::empty());
    if single_byte_write {
        lemma_received_bytewise(data, Level::High);
    } else {
        lemma_received_single(Op::Write(data), Level::High);
    }
    assert(received(head, dc) + received(tail, Level::High) =~= data.map_values(
        |b: u8| (Level::High, b),
    ));
}

/// Writing several byte sequences one after the other hands the panel their
/// concatenation.
pub proof fn lemma_received_writes(parts: Seq<Seq<u8>>, dc: Level)
    ensures
        received(parts.map_values(|p: Seq<u8>| Op::Write(p)), dc) == parts.flatten().map_values(
            |b: u8| (dc, b),
        ),
    decreases parts.len(),
{
    let w = parts.map_values(|p: Seq<u8>| Op::Write(p));
    if parts.len() == 0 {
        assert(received(w, dc) =~= parts.flatten().map_values(|b: u8| (dc, b)));
    } else {
        assert(w.drop_first() =~= parts.drop_first().map_values(|p: Seq<u8>| Op::Write(p)));
        lemma_received_writes(parts.drop_first(), dc);
        assert(parts.flatten() == parts.first() + parts.drop_first().flatten());
        assert(received(w, dc) =~= parts.flatten().map_values(|b: u8| (dc, b)));
    }
}

/// Cutting a write into chunks of at most `MAX_SPI_TRANSFER` bytes does not
/// change what the panel receives.
pub proof fn lemma_received_chunked(data: Seq<u8>, dc: Level)
    ensures
        received(chunked(data).map_values(|p: Seq<u8>| Op::Write(p)), dc) == received(
            seq![Op::Write(data)],
            dc,
        ),
{
    lemma_received_writes(chunked(data), dc);
    lemma_chunks_reassemble(data);
    lemma_received_single(Op::Write(data), dc);
}

/// A command with its data hands the panel the address byte with the pin
/// low, then the data bytes with the pin high.
pub broadcast proof fn lemma_received_cmd_with_data(address: u8, data: Seq<u8>, single_byte_write: bool, dc: Level)
    ensures
        #[trigger] received(cmd_with_data_ops(address, data, single_byte_write), dc) == seq![
            (Level::Low, address),
        ] + data.map_values(|b: u8| (Level::High, b)),
{
    lemma_received_concat(cmd_ops(address), data_ops(data, single_byte_write), dc);
    lemma_received_cmd(address, dc);
    lemma_received_data(data, single_byte_write, Level::Low);
}

/// A byte repeated `repetitions` times as data reaches the panel that many
/// times, with the pin high.
pub broadcast proof fn lemma_received_repeated(val: u8, repetitions: nat, dc: Level)
    ensures
        #[trigger] received(repeated_data_ops(val, repetitions), dc) == Seq::new(
            repetitions,
            |i: int| (Level::High, val),
        ),
{
    let parts = Seq::new(repetitions, |i: int| seq![val]);
    let tail = Seq::new(repetitions, |i: int| Op::Write(seq![val]));
    assert(tail =~= parts.map_values(|p: Seq<u8>| Op::Write(p)));
    lemma_received_writes(parts, Level::High);
    lemma_flatten_constant(val, repetitions);
    let head = seq![Op::SetDc(Level::High)];
    assert(repeated_data_ops(val, repetitions) == head + tail);
    lemma_received_concat(head, tail, dc);
    lemma_received_single(head[0], dc);
    assert(received(head, dc) =~= Seq::<(Level, u8)>::empty());
    assert(received(head, dc) + received(tail, Level::High) =~= Seq::new(
        repetitions,
        |i: int| (Level::High, val),
    ));
}

/// Laying `n` one-byte sequences of `val` end to end gives `n` times `val`.
proof fn lemma_flatten_constant(val: u8, n: nat)
    ensures
        Seq::new(n, |i: int| seq![val]).flatten() == Seq::new(n, |i: int| val),
    decreases n,
{
    let parts = Seq::new(n, |i: int| seq![val]);
    if n > 0 {
        lemma_flatten_constant(val, (n - 1) as nat);
        assert(parts.drop_first() =~= Seq::new((n - 1) as nat, |i: int| seq![val]));
        assert(parts.flatten() == parts.first() + parts.drop_first().flatten());
        assert(parts.flatten() =~= Seq::new(n, |i: int| val));
    } else {
        assert(parts.flatten() =~= Seq::new(n, |i: int| val));
    }
}

/// A pause hands the panel nothing.
pub broadcast proof fn lemma_received_pause(delay_us: u32, dc: Level)
    ensures
        #[trigger] received(pause_ops(delay_us), dc) == Seq::<(Level, u8)>::empty(),
{
    if delay_us > 0 {
        lemma_received_single(Op::DelayUs(delay_us), dc);
    }
}

/// The facts that give what the panel receives from a program, piece by piece.
pub broadcast group group_received {
    lemma_received_concat,
    lemma_received_cmd,
    lemma_received_data,
    lemma_received_cmd_with_data,
    lemma_received_repeated,
    lemma_received_pause,
}

} // verus!
