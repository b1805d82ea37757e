use vstd::prelude::*;

use crate::engine::decode_one;

verus! {

/// One decoded instruction as the engine reports it: its address, the
/// machine bytes it spans, its mnemonic and its operand text.
#[derive(Debug, Clone, PartialEq, Eq)]
pub struct InsnRecord {
    pub address: u64,
    pub bytes: Vec<u8>,
    pub mnemonic: Option<String>,
    pub op_str: Option<String>,
}

/// One unit of the listing: a decoded instruction, or a single byte the
/// engine could not decode.
#[derive(Debug, Clone, PartialEq, Eq)]
pub enum Unit {
    Instruction(InsnRecord),
    InvalidByte { address: u64, byte: u8 },
}

/// How many input bytes a unit spans.
pub open spec fn unit_len(u: Unit) -> int {
    match u {
        Unit::Instruction(rec) => rec.bytes@.len() as int,
        Unit::InvalidByte { .. } => 1,
    }
}

/// The unit stands at position `start` of `bytes`: its address is `start`,
/// it lies inside the buffer, and it reproduces the bytes it spans.
pub open spec fn unit_matches(u: Unit, bytes: Seq<u8>, start: int) -> bool {
    match u {
        Unit::Instruction(rec) => {
            &&& rec.address == start
            &&& 1 <= rec.bytes@.len()
            &&& start + rec.bytes@.len() <= bytes.len()
            &&& rec.bytes@ == bytes.subrange(start, start + rec.bytes@.len() as int)
        },
        Unit::InvalidByte { address, byte } => {
            &&& address == start
            &&& 0 <= start < bytes.len()
            &&& byte == bytes[start]
        },
    }
}

/// The number of input bytes the units span together.
pub open spec fn covered_len(units: Seq<Unit>) -> int
    decreases units.len(),
{
    if units.len() == 0 {
        0
    } else {
        covered_len(units.drop_last()) + unit_len(units.last())
    }
}

/// Each unit stands exactly where the units before it end.
pub open spec fn listing_wf(units: Seq<Unit>, bytes: Seq<u8>) -> bool {
    forall|i: int|
        0 <= i < units.len() ==> unit_matches(
            #[trigger] units[i],
            bytes,
            covered_len(units.take(i)),
        )
}

/// The unit one driver step yields: the instruction the engine decoded at
/// the current address when there is one, else the byte at that address
/// marked invalid.
pub open spec fn step_unit(bytes: Seq<u8>, addr: int, decoded: Option<InsnRecord>) -> Unit {
    match decoded {
        Some(rec) => Unit::Instruction(rec),
        None => Unit::InvalidByte { address: addr as u64, byte: bytes[addr] },
    }
}

/// Unit `i` spans position `pos` of the input.
pub open spec fn unit_covers(units: Seq<Unit>, i: int, pos: int) -> bool {
    covered_len(units.take(i)) <= pos < covered_len(units.take(i)) + unit_len(units[i])
}

proof fn lemma_unit_len_nonneg(u: Unit)
    ensures
        unit_len(u) >= 0,
{
}

proof fn lemma_covered_len_nonneg(units: Seq<Unit>)
    ensures
        covered_len(units) >= 0,
    decreases units.len(),
{
    if units.len() > 0 {
        lemma_covered_len_nonneg(units.drop_last());
        lemma_unit_len_nonneg(units.last());
    }
}

proof fn lemma_covered_len_take_step(units: Seq<Unit>, i: int)
    requires
        0 <= i < units.len(),
    ensures
        covered_len(units.take(i + 1)) == covered_len(units.take(i)) + unit_len(units[i]),
{
    assert(units.take(i + 1).drop_last() =~= units.take(i));
    assert(units.take(i + 1).last() == units[i]);
}

proof fn lemma_covered_len_mono(units: Seq<Unit>, i: int, j: int)
    requires
        0 <= i <= j <= units.len(),
    ensures
        covered_len(units.take(i)) <= covered_len(units.take(j)),
    decreases j - i,
{
    if i < j {
        lemma_covered_len_mono(units, i, j - 1);
        lemma_covered_len_take_step(units, j - 1);
        lemma_unit_len_nonneg(units[j - 1]);
    }
}

proof fn lemma_exists_cover(units: Seq<Unit>, pos: int)
    requires
        0 <= pos < covered_len(units),
    ensures
        exists|i: int| 0 <= i < units.len() && unit_covers(units, i, pos),
    decreases units.len(),
{
    lemma_covered_len_nonneg(units);
    if units.len() == 0 {
        assert(false);
    } else {
        let rest = units.drop_last();
        let m = covered_len(rest);
        lemma_covered_len_nonneg(rest);
        if pos >= m {
            assert(units.take(units.len() - 1) =~= rest);
            assert(unit_covers(units, units.len() - 1, pos));
        } else {
            lemma_exists_cover(rest, pos);
            let i = choose|i: int| 0 <= i < rest.len() && unit_covers(rest, i, pos);
            assert(rest.take(i) =~= units.take(i));
            assert(rest[i] == units[i]);
            assert(unit_covers(units, i, pos));
        }
    }
}

proof fn lemma_cover_unique(units: Seq<Unit>, pos: int, i: int, j: int)
    requires
        0 <= i < units.len(),
        0 <= j < units.len(),
        unit_covers(units, i, pos),
        unit_covers(units, j, pos),
    ensures
        i == j,
{
    if i < j {
        lemma_covered_len_take_step(units, i);
        lemma_covered_len_mono(units, i + 1, j);
        assert(false);
    } else if j < i {
        lemma_covered_len_take_step(units, j);
        lemma_covered_len_mono(units, j + 1, i);
        assert(false);
    }
}

/// A well-formed listing that spans the whole buffer covers every byte
/// exactly once: each position lies in the span of exactly one unit.
pub proof fn lemma_listing_covers_each_byte_once(units: Seq<Unit>, bytes: Seq<u8>, pos: int)
    requires
        listing_wf(units, bytes),
        covered_len(units) == bytes.len(),
        0 <= pos < bytes.len(),
    ensures
        exists|i: int| 0 <= i < units.len() && #[trigger] unit_covers(units, i, pos),
        forall|i: int, j: int|
            0 <= i < units.len() && 0 <= j < units.len() && #[trigger] unit_covers(units, i, pos)
                && #[trigger] unit_covers(units, j, pos) ==> i == j,
{
    lemma_exists_cover(units, pos);
    assert forall|i: int, j: int|
        0 <= i < units.len() && 0 <= j < units.len() && #[trigger] unit_covers(units, i, pos)
            && #[trigger] unit_covers(units, j, pos) implies i == j by {
        lemma_cover_unique(units, pos, i, j);
    }
}

/// Resilient decoding of a buffer whose first byte the engine cannot
/// decode and whose remainder it decodes as one instruction: the first
/// step yields the invalid byte at address 0, the second the instruction
/// at address 1, and the two units cover the buffer exactly.
pub proof fn lemma_resync_then_instruction(bytes: Seq<u8>, rec: InsnRecord)
    requires
        bytes.len() >= 2,
        rec.address == 1,
        rec.bytes@ == bytes.subrange(1, bytes.len() as int),
    ensures
        ({
            let units = seq![step_unit(bytes, 0, None), step_unit(bytes, 1, Some(rec))];
            &&& units == seq![
                Unit::InvalidByte { address: 0, byte: bytes[0] },
                Unit::Instruction(rec),
            ]
            &&& listing_wf(units, bytes)
            &&& covered_len(units) == bytes.len()
        }),
{
    let units = seq![step_unit(bytes, 0, None), step_unit(bytes, 1, Some(rec))];
    assert(units.take(0) =~= Seq::<Unit>::empty());
    assert(units.take(1) =~= seq![units[0]]);
    assert(units.take(1).drop_last() =~= Seq::<Unit>::empty());
    assert(units.drop_last() =~= units.take(1));
    assert(covered_len(units.take(0)) == 0);
    assert(covered_len(units.take(1)) == 1);
    assert(unit_matches(units[0], bytes, 0));
    assert(rec.bytes@.len() == bytes.len() - 1);
    assert(unit_matches(units[1], bytes, 1));
    assert(covered_len(units) == bytes.len());
}

/// Disassembles the whole buffer resiliently: starting at address 0, each
/// step takes the instruction the engine decoded at the current address,
/// or marks the byte there invalid, and advances by that unit's length.
/// The returned units stand in address order and cover every input byte
/// exactly once.
pub fn disassemble(cs: &capstone::Capstone, bytes: &Vec<u8>) -> (units: Vec<Unit>)
    ensures
        listing_wf(units@, bytes@),
        covered_len(units@) == bytes@.len(),
{
    let mut units: Vec<Unit> = Vec::new();
    let mut addr: usize = 0;
    while addr < bytes.len()
        invariant
            addr <= bytes@.len(),
            listing_wf(units@, bytes@),
            covered_len(units@) == addr,
        decreases bytes@.len() - addr,
    {
        let decoded = decode_one(cs, bytes, addr);
        let ghost dec = decoded;
        let ghost pre = units@;
        let u: Unit;
        let step: usize;
        match decoded {
            Some(rec) => {
                step = rec.bytes.len();
                u = Unit::Instruction(rec);
            },
            None => {
                step = 1;
                u = Unit::InvalidByte { address: addr as u64, byte: bytes[addr] };
            },
        }
        proof {
            assert(u == step_unit(bytes@, addr as int, dec));
            assert(unit_matches(u, bytes@, addr as int));
        }
        units.push(u);
        proof {
            assert(units@ == pre.push(u));
            assert(pre.push(u).drop_last() =~= pre);
            assert(covered_len(units@) == addr + unit_len(u));
            assert forall|i: int| 0 <= i < units@.len() implies unit_matches(
                #[trigger] units@[i],
                bytes@,
                covered_len(units@.take(i)),
            ) by {
                assert(pre.push(u).take(i) =~= pre.take(i));
                if i < pre.len() {
                    assert(units@[i] == pre[i]);
                    assert(unit_matches(pre[i], bytes@, covered_len(pre.take(i))));
                } else {
                    assert(units@[i] == u);
                    assert(pre.take(i) =~= pre);
                }
            }
        }
        addr = addr + step;
    }
    units
}

} // verus!
