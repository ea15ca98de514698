//! Scripts: the instructions that their bytes spell, the builder that writes them, and what a
//! swap reads out of them.
use crate::bytes::{le_value, to_array};
use vstd::prelude::*;

verus! {

/// The first opcode that is followed by the length of a push: a byte below it is the length of
/// the push itself.
pub const OP_PUSHDATA1: u8 = 0x4c;

/// The opcode that replaces the top of the stack by whether it is not zero.
pub const OP_0NOTEQUAL: u8 = 0x92;

/// The opcode that pushes the length of the top of the stack.
pub const OP_SIZE: u8 = 0x82;

/// The opcode that fails unless the two topmost items are equal.
pub const OP_EQUALVERIFY: u8 = 0x88;

/// The opcode that hashes the top of the stack to 20 bytes.
pub const OP_HASH160: u8 = 0xa9;

/// The opcode that checks a signature.
pub const OP_CHECKSIG: u8 = 0xac;

/// The opcode that fails unless a signature is good.
pub const OP_CHECKSIGVERIFY: u8 = 0xad;

/// The opcode that fails before a lock time is reached.
pub const OP_CLTV: u8 = 0xb1;

/// One instruction of a script.
#[derive(Debug, Clone, PartialEq, Eq)]
pub enum Instruction {
    /// Pushes these bytes.
    PushBytes(Vec<u8>),
    /// An opcode that is followed by no data.
    Op(u8),
    /// A push that runs past the end of the script.
    Truncated,
}

/// What an [`Instruction`] holds.
pub enum Instr {
    PushBytes(Seq<u8>),
    Op(u8),
    Truncated,
}

impl View for Instruction {
    type V = Instr;

    open spec fn view(&self) -> Instr {
        match self {
            Instruction::PushBytes(b) => Instr::PushBytes(b@),
            Instruction::Op(op) => Instr::Op(*op),
            Instruction::Truncated => Instr::Truncated,
        }
    }
}

/// How many bytes a push opcode and its length field take together.
pub open spec fn push_header(op: u8) -> int {
    if op < OP_PUSHDATA1 {
        1
    } else if op == OP_PUSHDATA1 {
        2
    } else if op == OP_PUSHDATA1 + 1 {
        3
    } else {
        5
    }
}

/// How many bytes the push at the head of the script pushes.
pub open spec fn push_size(script: Seq<u8>) -> int {
    if script[0] < OP_PUSHDATA1 {
        script[0] as int
    } else {
        le_value(script.subrange(1, push_header(script[0]))) as int
    }
}

/// The instructions of a script, in order. A push that runs past the end is the last one.
pub open spec fn instructions(script: Seq<u8>) -> Seq<Instr>
    decreases script.len(),
{
    if script.len() == 0 {
        seq![]
    } else if script[0] > OP_PUSHDATA1 + 2 {
        seq![Instr::Op(script[0])] + instructions(script.skip(1))
    } else {
        let header = push_header(script[0]);
        if script.len() < header || script.len() < header + push_size(script) {
            seq![Instr::Truncated]
        } else {
            let end = header + push_size(script);
            seq![Instr::PushBytes(script.subrange(header, end))] + instructions(script.skip(end))
        }
    }
}

/// The instructions of a list, each taken by what it holds.
pub open spec fn viewed(items: Seq<Instruction>) -> Seq<Instr> {
    items.map_values(|i: Instruction| i@)
}

/// `elements::Script::instructions`, each of its items taken over as it comes: the
/// instructions of the script, a failed push as [`Instruction::Truncated`]. (A `usize` of 64
/// bits is taken for granted: the outside code adds to a length of up to 32 bits.)
#[verifier::external_body]
pub(crate) fn script_instructions(script: &[u8]) -> (r: Vec<Instruction>)
    ensures
        viewed(r@) == instructions(script@),
{
    elements::Script::from(script.to_vec())
        .instructions()
        .map(|item| match item {
            Ok(elements::script::Instruction::PushBytes(b)) => Instruction::PushBytes(b.to_vec()),
            Ok(elements::script::Instruction::Op(op)) => Instruction::Op(op.into_u8()),
            Err(_) => Instruction::Truncated,
        })
        .collect()
}

/// The last push of exactly 20 bytes.
pub open spec fn hashlock_of(items: Seq<Instr>) -> Option<Seq<u8>>
    decreases items.len(),
{
    if items.len() == 0 {
        None
    } else {
        match items.last() {
            Instr::PushBytes(b) if b.len() == 20 => Some(b),
            _ => hashlock_of(items.drop_last()),
        }
    }
}

/// The opcode that was met last, before the first one `OP_0NOTEQUAL`.
pub open spec fn last_op(items: Seq<Instr>) -> u8
    decreases items.len(),
{
    if items.len() == 0 {
        OP_0NOTEQUAL
    } else {
        match items.last() {
            Instr::Op(op) => op,
            _ => last_op(items.drop_last()),
        }
    }
}

/// The number in the last push to which `OP_CHECKSIGVERIFY` is the nearest opcode before it.
pub open spec fn timelock_of(items: Seq<Instr>) -> Option<u32>
    decreases items.len(),
{
    if items.len() == 0 {
        None
    } else {
        match items.last() {
            Instr::PushBytes(b) if last_op(items.drop_last()) == OP_CHECKSIGVERIFY => Some(
                le_value(b) as u32,
            ),
            _ => timelock_of(items.drop_last()),
        }
    }
}

/// Every push to which `OP_CHECKSIGVERIFY` is the nearest opcode before it holds at most the
/// four bytes of a lock time.
pub open spec fn timelock_fits(items: Seq<Instr>) -> bool
    decreases items.len(),
{
    items.len() > 0 ==> {
        &&& timelock_fits(items.drop_last())
        &&& (last_op(items.drop_last()) == OP_CHECKSIGVERIFY ==> (
            items.last() matches Instr::PushBytes(b) ==> b.len() <= 4))
    }
}

proof fn lemma_timelock_fits_prefix(items: Seq<Instr>, n: int)
    requires
        0 <= n <= items.len(),
        timelock_fits(items),
    ensures
        timelock_fits(items.take(n)),
    decreases items.len(),
{
    if n == items.len() {
        assert(items.take(n) =~= items);
    } else {
        assert(items.drop_last().take(n) =~= items.take(n));
        lemma_timelock_fits_prefix(items.drop_last(), n);
    }
}

/// The number in the first push of fewer than five bytes.
pub open spec fn short_push_of(items: Seq<Instr>) -> Option<u32>
    decreases items.len(),
{
    if items.len() == 0 {
        None
    } else {
        match items.first() {
            Instr::PushBytes(b) if b.len() < 5 => Some(le_value(b) as u32),
            _ => short_push_of(items.drop_first()),
        }
    }
}

/// A little endian number of up to four bytes fits in 32 bits.
proof fn lemma_le_value_bound(bytes: Seq<u8>)
    requires
        bytes.len() <= 4,
    ensures
        bytes.len() <= 3 ==> le_value(bytes) < 0x100_0000,
        le_value(bytes) < 0x1_0000_0000,
{
    reveal_with_fuel(le_value, 5);
}

/// The number that up to four bytes spell, the least significant byte first.
pub fn bytes_to_u32_little_endian(bytes: &[u8]) -> (r: u32)
    requires
        bytes@.len() <= 4,
    ensures
        r == le_value(bytes@),
{
    let mut result: u32 = 0;
    let mut i: usize = bytes.len();
    assert(bytes@.skip(i as int) =~= Seq::<u8>::empty());
    while i > 0
        invariant
            i <= bytes@.len() <= 4,
            result == le_value(bytes@.skip(i as int)),
        decreases i,
    {
        proof {
            lemma_le_value_bound(bytes@.skip(i as int));
            assert(bytes@.skip(i - 1).drop_first() =~= bytes@.skip(i as int));
        }
        i = i - 1;
        result = bytes[i] as u32 + 256 * result;
    }
    assert(bytes@.skip(0) =~= bytes@);
    result
}

/// The hash in the last push of exactly 20 bytes, if there is one.
pub(crate) fn find_hashlock(items: &Vec<Instruction>) -> (r: Option<[u8; 20]>)
    ensures
        match hashlock_of(viewed(items@)) {
            Some(hash) => r matches Some(found) && found@ == hash,
            None => r is None,
        },
{
    let mut hashlock: Option<[u8; 20]> = None;
    let mut i: usize = 0;
    while i < items.len()
        invariant
            i <= items@.len(),
            match hashlock_of(viewed(items@).take(i as int)) {
                Some(hash) => hashlock matches Some(found) && found@ == hash,
                None => hashlock is None,
            },
        decreases items@.len() - i,
    {
        assert(viewed(items@).take(i + 1).drop_last() =~= viewed(items@).take(i as int));
        if let Instruction::PushBytes(bytes) = &items[i] {
            if bytes.len() == 20 {
                hashlock = Some(to_array(bytes.as_slice()));
            }
        }
        i = i + 1;
    }
    assert(viewed(items@).take(i as int) =~= viewed(items@));
    hashlock
}

/// The number in the last push to which `OP_CHECKSIGVERIFY` is the nearest opcode before it,
/// if there is one.
pub(crate) fn find_timelock(items: &Vec<Instruction>) -> (r: Option<u32>)
    requires
        timelock_fits(viewed(items@)),
    ensures
        r == timelock_of(viewed(items@)),
{
    let mut last: u8 = OP_0NOTEQUAL;
    let mut locktime: Option<u32> = None;
    let mut i: usize = 0;
    while i < items.len()
        invariant
            i <= items@.len(),
            timelock_fits(viewed(items@)),
            last == last_op(viewed(items@).take(i as int)),
            locktime == timelock_of(viewed(items@).take(i as int)),
        decreases items@.len() - i,
    {
        assert(viewed(items@).take(i + 1).drop_last() =~= viewed(items@).take(i as int));
        assert(viewed(items@)[i as int] == items@[i as int]@);
        proof {
            lemma_timelock_fits_prefix(viewed(items@), i + 1);
        }
        match &items[i] {
            Instruction::Op(op) => {
                last = *op;
            },
            Instruction::PushBytes(bytes) => {
                if last == OP_CHECKSIGVERIFY {
                    locktime = Some(bytes_to_u32_little_endian(bytes.as_slice()));
                }
            },
            Instruction::Truncated => {},
        }
        i = i + 1;
    }
    assert(viewed(items@).take(i as int) =~= viewed(items@));
    locktime
}

/// Whether [`find_timelock`] can read every number that it meets.
pub(crate) fn has_readable_timelock(items: &Vec<Instruction>) -> (r: bool)
    ensures
        r == timelock_fits(viewed(items@)),
{
    let mut last: u8 = OP_0NOTEQUAL;
    let mut i: usize = 0;
    while i < items.len()
        invariant
            i <= items@.len(),
            last == last_op(viewed(items@).take(i as int)),
            timelock_fits(viewed(items@).take(i as int)),
        decreases items@.len() - i,
    {
        assert(viewed(items@).take(i + 1).drop_last() =~= viewed(items@).take(i as int));
        assert(viewed(items@)[i as int] == items@[i as int]@);
        match &items[i] {
            Instruction::Op(op) => {
                last = *op;
            },
            Instruction::PushBytes(bytes) => {
                if last == OP_CHECKSIGVERIFY && bytes.len() > 4 {
                    proof {
                        if timelock_fits(viewed(items@)) {
                            lemma_timelock_fits_prefix(viewed(items@), i + 1);
                        }
                    }
                    return false;
                }
            },
            Instruction::Truncated => {},
        }
        i = i + 1;
    }
    assert(viewed(items@).take(i as int) =~= viewed(items@));
    true
}

/// The number in the first push of fewer than five bytes, if there is one.
pub(crate) fn find_short_push(items: &Vec<Instruction>) -> (r: Option<u32>)
    ensures
        r == short_push_of(viewed(items@)),
{
    let mut i: usize = 0;
    assert(viewed(items@).skip(0) =~= viewed(items@));
    while i < items.len()
        invariant
            i <= items@.len(),
            short_push_of(viewed(items@).skip(i as int)) == short_push_of(viewed(items@)),
        decreases items@.len() - i,
    {
        assert(viewed(items@).skip(i as int).drop_first() =~= viewed(items@).skip(i + 1));
        assert(viewed(items@).skip(i as int)[0] == items@[i as int]@);
        if let Instruction::PushBytes(bytes) = &items[i] {
            if bytes.len() < 5 {
                return Some(bytes_to_u32_little_endian(bytes.as_slice()));
            }
        }
        i = i + 1;
    }
    None
}

/// The opcode and the length field with which a push of `n` bytes begins, for `n` below 2^32.
pub open spec fn push_prefix(n: nat) -> Seq<u8> {
    if n < OP_PUSHDATA1 {
        seq![n as u8]
    } else if n < 0x100 {
        seq![OP_PUSHDATA1, n as u8]
    } else if n < 0x1_0000 {
        seq![(OP_PUSHDATA1 + 1) as u8, (n % 0x100) as u8, (n / 0x100) as u8]
    } else {
        seq![
            (OP_PUSHDATA1 + 2) as u8,
            (n % 0x100) as u8,
            (n / 0x100 % 0x100) as u8,
            (n / 0x1_0000 % 0x100) as u8,
            (n / 0x100_0000) as u8,
        ]
    }
}

/// The script that pushes some bytes.
pub open spec fn push_of(data: Seq<u8>) -> Seq<u8> {
    push_prefix(data.len()) + data
}

/// The bytes of a positive script number: little endian, the highest bit left for the sign.
pub open spec fn script_number(n: nat) -> Seq<u8>
    decreases n,
{
    if n < 0x80 {
        seq![n as u8]
    } else if n < 0x100 {
        seq![n as u8, 0u8]
    } else {
        seq![(n % 0x100) as u8] + script_number(n / 0x100)
    }
}

/// The script that pushes a number: an opcode of its own from 0 to 16, bytes above.
pub open spec fn push_number(n: u32) -> Seq<u8> {
    if n == 0 {
        seq![0u8]
    } else if n <= 16 {
        seq![(0x50 + n) as u8]
    } else {
        push_of(script_number(n as nat))
    }
}

/// `elements::script::Builder`, which holds the script that was written so far.
#[verifier::external_type_specification]
#[verifier::external_body]
pub struct ExScriptBuilder(elements::script::Builder);

/// The script that a builder holds.
pub uninterp spec fn builder_script(builder: elements::script::Builder) -> Seq<u8>;

/// `elements::script::Builder::new`: the builder of the empty script.
#[verifier::external_body]
pub(crate) fn script_builder() -> (r: elements::script::Builder)
    ensures
        builder_script(r) == Seq::<u8>::empty(),
{
    elements::script::Builder::new()
}

/// `elements::script::Builder::push_opcode`: one byte more, the opcode.
#[verifier::external_body]
pub(crate) fn push_opcode(builder: elements::script::Builder, opcode: u8) -> (r:
    elements::script::Builder)
    ensures
        builder_script(r) == builder_script(builder).push(opcode),
{
    builder.push_opcode(elements::opcodes::All::from(opcode))
}

/// `elements::script::Builder::push_slice`: the script that pushes the bytes is appended. The
/// call panics on data of 2^32 bytes or more.
#[verifier::external_body]
pub(crate) fn push_slice(builder: elements::script::Builder, data: &[u8]) -> (r:
    elements::script::Builder)
    requires
        data@.len() < 0x1_0000_0000,
    ensures
        builder_script(r) == builder_script(builder) + push_of(data@),
{
    builder.push_slice(data)
}

/// `elements::script::Builder::push_int`, for numbers that are not negative and fit in 32 bits:
/// the script that pushes the number is appended.
#[verifier::external_body]
pub(crate) fn push_int(builder: elements::script::Builder, data: u32) -> (r:
    elements::script::Builder)
    ensures
        builder_script(r) == builder_script(builder) + push_number(data),
{
    builder.push_int(i64::from(data))
}

/// `elements::script::Builder::into_script`, the script taken by its bytes.
#[verifier::external_body]
pub(crate) fn into_script(builder: elements::script::Builder) -> (r: Vec<u8>)
    ensures
        r@ == builder_script(builder),
{
    builder.into_script().into_bytes()
}

/// A script that begins with an opcode without data has that as its first instruction.
pub(crate) proof fn lemma_read_op(op: u8, rest: Seq<u8>)
    requires
        op > OP_PUSHDATA1 + 2,
    ensures
        instructions(seq![op] + rest) == seq![Instr::Op(op)] + instructions(rest),
{
    assert((seq![op] + rest).skip(1) =~= rest);
}

/// A script that begins with a short push has that as its first instruction.
pub(crate) proof fn lemma_read_push(data: Seq<u8>, rest: Seq<u8>)
    requires
        data.len() < OP_PUSHDATA1,
    ensures
        instructions(push_of(data) + rest) == seq![Instr::PushBytes(data)] + instructions(rest),
{
    let script = push_of(data) + rest;
    let end = 1 + data.len() as int;
    assert(script[0] == data.len() as u8);
    assert(script.subrange(1, end) =~= data);
    assert(script.skip(end) =~= rest);
}

/// A script number spells its value, in at most four bytes below 2^31 and in five from there
/// on to 2^32.
pub(crate) proof fn lemma_script_number(n: nat)
    requires
        n < 0x1_0000_0000,
    ensures
        le_value(script_number(n)) == n,
        1 <= script_number(n).len() <= 5,
        script_number(n).len() <= 4 <==> n < 0x8000_0000,
{
    reveal_with_fuel(script_number, 4);
    lemma_script_number_value(n);
}

proof fn lemma_script_number_value(n: nat)
    ensures
        le_value(script_number(n)) == n,
    decreases n,
{
    let bytes = script_number(n);
    if n < 0x80 {
        reveal_with_fuel(le_value, 2);
    } else if n < 0x100 {
        reveal_with_fuel(le_value, 3);
    } else {
        lemma_script_number_value(n / 0x100);
        assert(bytes.drop_first() =~= script_number(n / 0x100));
        assert(n / 0x100 < n);
    }
}

/// A script that begins with the push of a number has as its first instruction either that
/// push or, from 1 to 16, the opcode for the number.
pub(crate) proof fn lemma_read_number(n: u32, rest: Seq<u8>)
    ensures
        instructions(push_number(n) + rest) == seq![
            if n == 0 {
                Instr::PushBytes(seq![])
            } else if n <= 16 {
                Instr::Op((0x50 + n) as u8)
            } else {
                Instr::PushBytes(script_number(n as nat))
            },
        ] + instructions(rest),
{
    if n == 0 {
        assert(push_number(n) =~= push_of(seq![]));
        lemma_read_push(seq![], rest);
    } else if n <= 16 {
        lemma_read_op((0x50 + n) as u8, rest);
    } else {
        lemma_script_number(n as nat);
        lemma_read_push(script_number(n as nat), rest);
    }
}

} // verus!
