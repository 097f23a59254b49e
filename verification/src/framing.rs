//! Well framed programs: every write is made after the Data/Command pin was
//! set, and every write made while it is low is one command byte.
use vstd::prelude::*;

use crate::bus::{cmd_ops, cmd_with_data_ops, data_ops, pause_ops, repeated_data_ops, Level, Op};

verus! {

/// A program is well framed when it is a sequence of commands (Data/Command
/// pin low, then a one-byte write), data blocks (Data/Command pin high, then
/// any number of writes) and steps that leave the SPI bus alone. In such a
/// program no write happens before the Data/Command pin was set, and every
/// write made while the pin is low is one command byte.
pub open spec fn well_framed(ops: Seq<Op>) -> bool
    decreases ops.len(), 1nat,
{
    if ops.len() == 0 {
        true
    } else {
        match ops[0] {
            Op::SetDc(Level::Low) => ops.len() >= 2 && (match ops[1] {
                Op::Write(bytes) => bytes.len() == 1,
                _ => false,
            }) && well_framed(ops.skip(2)),
            Op::SetDc(Level::High) => framed_data_tail(ops.skip(1)),
            Op::Write(_) => false,
            _ => well_framed(ops.skip(1)),
        }
    }
}

/// What may follow the start of a data block: more data writes, then a well
/// framed rest.
pub open spec fn framed_data_tail(ops: Seq<Op>) -> bool
    decreases ops.len(), 2nat,
{
    if ops.len() == 0 {
        true
    } else if ops[0] is Write {
        framed_data_tail(ops.skip(1))
    } else {
        well_framed(ops)
    }
}

/// Well framed programs stay well framed when put one after the other.
pub broadcast proof fn lemma_well_framed_concat(a: Seq<Op>, b: Seq<Op>)
    requires
        well_framed(a),
        well_framed(b),
    ensures
        #[trigger] well_framed(a + b),
    decreases a.len(), 1nat,
{
    if a.len() > 0 {
        match a[0] {
            Op::SetDc(Level::Low) => {
                assert((a + b).skip(2) =~= a.skip(2) + b);
                lemma_well_framed_concat(a.skip(2), b);
            },
            Op::SetDc(Level::High) => {
                assert((a + b).skip(1) =~= a.skip(1) + b);
                lemma_framed_data_tail_concat(a.skip(1), b);
            },
            Op::Write(_) => {},
            _ => {
                assert((a + b).skip(1) =~= a.skip(1) + b);
                lemma_well_framed_concat(a.skip(1), b);
            },
        }
    } else {
        assert(a + b =~= b);
    }
}

/// A data block's tail followed by a well framed program.
pub proof fn lemma_framed_data_tail_concat(a: Seq<Op>, b: Seq<Op>)
    requires
        framed_data_tail(a),
        well_framed(b),
    ensures
        framed_data_tail(a + b),
    decreases a.len(), 2nat,
{
    if a.len() == 0 {
        assert(a + b =~= b);
        reveal_with_fuel(well_framed, 2);
        if b.len() > 0 && b[0] is Write {
            assert(!well_framed(b));
        }
    } else if a[0] is Write {
        assert((a + b).skip(1) =~= a.skip(1) + b);
        lemma_framed_data_tail_concat(a.skip(1), b);
    } else {
        lemma_well_framed_concat(a, b);
    }
}

/// Any run of writes can follow the start of a data block.
pub proof fn lemma_writes_are_data_tail(ops: Seq<Op>)
    requires
        forall|i: int| 0 <= i < ops.len() ==> (#[trigger] ops[i]) is Write,
    ensures
        framed_data_tail(ops),
    decreases ops.len(),
{
    if ops.len() > 0 {
        lemma_writes_are_data_tail(ops.skip(1));
    }
}

/// A command is well framed.
pub broadcast proof fn lemma_cmd_well_framed(address: u8)
    ensures
        #[trigger] well_framed(cmd_ops(address)),
{
    reveal_with_fuel(well_framed, 2);
    assert(cmd_ops(address).skip(2) =~= Seq::<Op>::empty());
}

/// A data block is well framed.
pub broadcast proof fn lemma_data_well_framed(data: Seq<u8>, single_byte_write: bool)
    ensures
        #[trigger] well_framed(data_ops(data, single_byte_write)),
{
    let d = data_ops(data, single_byte_write);
    lemma_writes_are_data_tail(d.skip(1));
}

/// A command with its data is well framed.
pub broadcast proof fn lemma_cmd_with_data_well_framed(address: u8, data: Seq<u8>, single_byte_write: bool)
    ensures
        #[trigger] well_framed(cmd_with_data_ops(address, data, single_byte_write)),
{
    lemma_cmd_well_framed(address);
    lemma_data_well_framed(data, single_byte_write);
    lemma_well_framed_concat(cmd_ops(address), data_ops(data, single_byte_write));
}

/// A repeated data block is well framed.
pub broadcast proof fn lemma_repeated_data_well_framed(val: u8, repetitions: nat)
    ensures
        #[trigger] well_framed(repeated_data_ops(val, repetitions)),
{
    let r = repeated_data_ops(val, repetitions);
    lemma_writes_are_data_tail(r.skip(1));
}

/// Steps that leave the SPI bus and the Data/Command pin alone are well
/// framed.
pub proof fn lemma_quiet_well_framed(ops: Seq<Op>)
    requires
        forall|i: int| 0 <= i < ops.len() ==> !((#[trigger] ops[i]) is Write) && !(ops[i] is SetDc),
    ensures
        well_framed(ops),
    decreases ops.len(),
{
    if ops.len() > 0 {
        lemma_quiet_well_framed(ops.skip(1));
    }
}

/// A pause is well framed.
pub broadcast proof fn lemma_pause_well_framed(delay_us: u32)
    ensures
        #[trigger] well_framed(pause_ops(delay_us)),
{
    lemma_quiet_well_framed(pause_ops(delay_us));
}

/// The facts that show programs well framed, piece by piece.
pub broadcast group group_well_framed {
    lemma_well_framed_concat,
    lemma_cmd_well_framed,
    lemma_data_well_framed,
    lemma_cmd_with_data_well_framed,
    lemma_repeated_data_well_framed,
    lemma_pause_well_framed,
}

} // verus!
