use vstd::prelude::*;

use crate::COMMAND_MAX;
use crate::TRANSPORT_MAX;

verus! {

/// Why a byte message failed to decode as a command APDU.
#[derive(Clone, Copy, Debug, PartialEq, Eq, Structural)]
pub enum FromSliceError {
    /// Shorter than the four-byte CLA INS P1 P2 header.
    TooShort,
    /// The data field does not fit the configured maximum.
    TooLong,
    /// The class byte is `0xFF`, which ISO 7816-4 reserves as invalid.
    InvalidClass,
    /// An extended-length body whose first byte is not zero.
    InvalidFirstBodyByteForExtended,
    /// The body length fits none of the short or extended encodings.
    InvalidSliceLength,
}

/// Mathematical model of a parsed command APDU.
#[verifier::ext_equal]
pub ghost struct CommandModel {
    pub class: u8,
    pub instruction: u8,
    pub p1: u8,
    pub p2: u8,
    pub data: Seq<u8>,
    pub le: int,
    pub extended: bool,
}

/// A command APDU: the CLA INS P1 P2 header, the data field, and the
/// expected response length Le.
#[derive(Clone, Debug)]
pub struct Command {
    pub class: u8,
    pub instruction: u8,
    pub p1: u8,
    pub p2: u8,
    pub data: Vec<u8>,
    pub le: usize,
    pub extended: bool,
}

impl View for Command {
    type V = CommandModel;

    open spec fn view(&self) -> CommandModel {
        CommandModel {
            class: self.class,
            instruction: self.instruction,
            p1: self.p1,
            p2: self.p2,
            data: self.data@,
            le: self.le as int,
            extended: self.extended,
        }
    }
}

/// `value` with zero replaced by `replacement`, the ISO 7816-3 reading of an
/// absent or zero Le/Lc length byte.
pub open spec fn spec_replace_zero(value: int, replacement: int) -> int {
    if value == 0 {
        replacement
    } else {
        value
    }
}

/// Decodes the body that follows the four-byte header: the result is
/// `(lc, le, offset, extended)` where `offset` is where the data field
/// starts within the body and `lc` its length.
///
/// This follows the decoding conventions of ISO 7816-3 §12.1.3, cases
/// 1, 2S, 3S, 4S, 2E, 3E and 4E.
pub open spec fn spec_parse_lengths(body: Seq<u8>) -> Result<(int, int, int, bool), FromSliceError> {
    let l = body.len() as int;
    if l == 0 {
        Ok((0, 0, 0, false))
    } else {
        let b1 = body[0] as int;
        if l == 1 {
            Ok((0, spec_replace_zero(b1, 256), 0, false))
        } else if l == 1 + b1 && b1 != 0 {
            Ok((b1, 0, 1, false))
        } else if l == 2 + b1 && b1 != 0 {
            Ok((b1, spec_replace_zero(body[l - 1] as int, 256), 1, false))
        } else if b1 != 0 {
            Err(FromSliceError::InvalidFirstBodyByteForExtended)
        } else if l < 3 {
            Err(FromSliceError::InvalidSliceLength)
        } else if l == 3 {
            Ok((0, spec_replace_zero(body[1] * 0x100 + body[2], 65536), 0, true))
        } else {
            let lc = body[1] * 0x100 + body[2];
            if l == 3 + lc {
                Ok((lc, 0, 3, true))
            } else if l == 5 + lc {
                Ok((lc, spec_replace_zero(body[l - 2] * 0x100 + body[l - 1], 65536), 3, true))
            } else {
                Err(FromSliceError::InvalidSliceLength)
            }
        }
    }
}

/// Decodes a whole byte message as a command APDU: header checks first,
/// then the body lengths, then the data slice.
pub open spec fn spec_parse(message: Seq<u8>) -> Result<CommandModel, FromSliceError> {
    if message.len() < 4 {
        Err(FromSliceError::TooShort)
    } else if message[0] == 0xff {
        Err(FromSliceError::InvalidClass)
    } else {
        match spec_parse_lengths(message.skip(4)) {
            Err(e) => Err(e),
            Ok((lc, le, offset, extended)) => if lc > TRANSPORT_MAX {
                Err(FromSliceError::TooLong)
            } else {
                Ok(
                    CommandModel {
                        class: message[0],
                        instruction: message[1],
                        p1: message[2],
                        p2: message[3],
                        data: message.subrange(4 + offset, 4 + offset + lc),
                        le: le,
                        extended: extended,
                    },
                )
            },
        }
    }
}

/// The command every chain assembly starts from: an all-zero header and no
/// data.
pub open spec fn spec_blank() -> CommandModel {
    CommandModel {
        class: 0,
        instruction: 0,
        p1: 0,
        p2: 0,
        data: Seq::empty(),
        le: 0,
        extended: false,
    }
}

/// One chain-assembly step: the header and Le are taken from the newest
/// block, and its data is appended when the total still fits
/// `COMMAND_MAX` (otherwise the data is left as it was).
pub open spec fn spec_extended_with(acc: CommandModel, block: CommandModel) -> CommandModel {
    CommandModel {
        class: block.class,
        instruction: block.instruction,
        p1: block.p1,
        p2: block.p2,
        le: block.le,
        extended: true,
        data: if acc.data.len() + block.data.len() <= COMMAND_MAX {
            acc.data + block.data
        } else {
            acc.data
        },
    }
}

/// The concatenation of the data fields of a block sequence.
pub open spec fn spec_concat_data(blocks: Seq<CommandModel>) -> Seq<u8>
    decreases blocks.len(),
{
    if blocks.len() == 0 {
        Seq::empty()
    } else {
        spec_concat_data(blocks.drop_last()) + blocks.last().data
    }
}

/// The command assembled by extending from blank with each block in turn,
/// exactly what the dispatcher's buffer holds after a chain.
pub open spec fn spec_assembled(blocks: Seq<CommandModel>) -> CommandModel
    decreases blocks.len(),
{
    if blocks.len() == 0 {
        spec_blank()
    } else {
        spec_extended_with(spec_assembled(blocks.drop_last()), blocks.last())
    }
}

pub proof fn lemma_assembled_parts(blocks: Seq<CommandModel>)
    requires
        spec_concat_data(blocks).len() <= COMMAND_MAX,
    ensures
        spec_assembled(blocks).data == spec_concat_data(blocks),
        blocks.len() >= 1 ==> spec_assembled(blocks).class == blocks.last().class
            && spec_assembled(blocks).instruction == blocks.last().instruction
            && spec_assembled(blocks).p1 == blocks.last().p1
            && spec_assembled(blocks).p2 == blocks.last().p2
            && spec_assembled(blocks).le == blocks.last().le
            && spec_assembled(blocks).extended,
    decreases blocks.len(),
{
    if blocks.len() == 0 {
        assert(spec_assembled(blocks).data =~= spec_concat_data(blocks));
    } else {
        lemma_assembled_parts(blocks.drop_last());
    }
}

/// Chain equivalence: a request delivered as one extended-length block, or
/// as a chain of blocks whose last block carries the same header and Le and
/// whose data fields concatenate to the same bytes, assembles to the same
/// command for the application. Blocks before the last may carry any
/// header, since assembly keeps only the newest one.
pub proof fn lemma_chain_equivalence(blocks: Seq<CommandModel>, single: CommandModel)
    requires
        blocks.len() >= 1,
        single.class == blocks.last().class,
        single.instruction == blocks.last().instruction,
        single.p1 == blocks.last().p1,
        single.p2 == blocks.last().p2,
        single.le == blocks.last().le,
        single.data == spec_concat_data(blocks),
        spec_concat_data(blocks).len() <= COMMAND_MAX,
    ensures
        spec_assembled(blocks) == spec_extended_with(spec_blank(), single),
{
    lemma_assembled_parts(blocks);
    assert(spec_extended_with(spec_blank(), single).data =~= single.data);
    assert(spec_assembled(blocks) =~= spec_extended_with(spec_blank(), single));
}

/// The extended-length encoding of a command APDU with data and no Le:
/// the four-byte header, the zero marker byte, the two-byte big-endian
/// Lc, then the data.
pub open spec fn spec_encode_extended(
    class: u8,
    instruction: u8,
    p1: u8,
    p2: u8,
    data: Seq<u8>,
) -> Seq<u8> {
    seq![
        class,
        instruction,
        p1,
        p2,
        0u8,
        (data.len() as int / 0x100) as u8,
        (data.len() as int % 0x100) as u8,
    ] + data
}

/// Parsing the extended-length encoding of a command gives back exactly
/// its header and data: together with `lemma_chain_equivalence` this says
/// that one extended block and a chain of short blocks with the same
/// header and concatenated data deliver the same command.
pub proof fn lemma_parse_extended_encoding(
    class: u8,
    instruction: u8,
    p1: u8,
    p2: u8,
    data: Seq<u8>,
)
    requires
        class != 0xff,
        0 < data.len() <= TRANSPORT_MAX,
    ensures
        spec_parse(spec_encode_extended(class, instruction, p1, p2, data)) == Ok::<
            CommandModel,
            FromSliceError,
        >(
            CommandModel {
                class: class,
                instruction: instruction,
                p1: p1,
                p2: p2,
                data: data,
                le: 0,
                extended: true,
            },
        ),
{
    let msg = spec_encode_extended(class, instruction, p1, p2, data);
    let hi = (data.len() as int / 0x100) as u8;
    let lo = (data.len() as int % 0x100) as u8;
    let body = msg.skip(4);
    assert(body =~= seq![0u8, hi, lo] + data);
    assert(body[0] == 0u8);
    assert(body[1] == hi && body[2] == lo);
    assert(hi as int * 0x100 + lo as int == data.len() as int) by {
        assert(data.len() as int == 0x100 * (data.len() as int / 0x100) + data.len() as int
            % 0x100) by (nonlinear_arith);
        assert(data.len() as int / 0x100 < 0x100);
        assert(hi as int == data.len() as int / 0x100);
        assert(lo as int == data.len() as int % 0x100);
    }
    assert(spec_parse_lengths(body) == Ok::<(int, int, int, bool), FromSliceError>(
        (data.len() as int, 0int, 3int, true),
    ));
    let parsed = spec_parse(msg);
    assert(msg.subrange(7, 7 + data.len() as int) =~= data);
    assert(parsed == Ok::<CommandModel, FromSliceError>(
        CommandModel {
            class: class,
            instruction: instruction,
            p1: p1,
            p2: p2,
            data: data,
            le: 0,
            extended: true,
        },
    ));
}

/// Appends all of `src` to `dst`.
pub fn append_bytes(dst: &mut Vec<u8>, src: &Vec<u8>)
    ensures
        final(dst)@ == old(dst)@ + src@,
{
    let mut i: usize = 0;
    while i < src.len()
        invariant
            i <= src.len(),
            dst@ == old(dst)@ + src@.take(i as int),
        decreases src.len() - i,
    {
        let b = src[i];
        dst.push(b);
        i = i + 1;
        proof {
            assert(dst@ =~= old(dst)@ + src@.take(i as int));
        }
    }
    proof {
        assert(src@.take(src@.len() as int) =~= src@);
    }
}

impl Command {
    /// The blank command a fresh chain assembly starts from.
    pub fn blank() -> (r: Command)
        ensures
            r@ == spec_blank(),
    {
        let r = Command {
            class: 0,
            instruction: 0,
            p1: 0,
            p2: 0,
            data: Vec::new(),
            le: 0,
            extended: false,
        };
        proof {
            assert(r@ =~= spec_blank());
        }
        r
    }

    /// Whether the class byte's chaining bit says more blocks follow.
    pub fn not_the_last(&self) -> (r: bool)
        ensures
            r == spec_not_the_last(self.class),
    {
        self.class & 0x10 != 0
    }

    /// One chain-assembly step, GPC_SPE_055 §3.10: the header and Le are
    /// replaced by `other`'s, and `other`'s data is appended if the total
    /// fits `COMMAND_MAX`; the result reports whether it did.
    pub fn extend_from_command(&mut self, other: &Command) -> (ok: bool)
        ensures
            final(self)@ == spec_extended_with(old(self)@, other@),
            ok == (old(self)@.data.len() + other@.data.len() <= COMMAND_MAX),
    {
        self.class = other.class;
        self.instruction = other.instruction;
        self.p1 = other.p1;
        self.p2 = other.p2;
        self.le = other.le;
        self.extended = true;
        if other.data.len() <= COMMAND_MAX && self.data.len() <= COMMAND_MAX - other.data.len() {
            append_bytes(&mut self.data, &other.data);
            true
        } else {
            false
        }
    }

    /// Decodes a byte message as a command APDU, exactly as `spec_parse`
    /// says: the four-byte header, then the short or extended body
    /// encoding, with the data field capped at `TRANSPORT_MAX`.
    pub fn try_from(message: &[u8]) -> (r: Result<Command, FromSliceError>)
        ensures
            match r {
                Ok(c) => spec_parse(message@) == Ok::<CommandModel, FromSliceError>(c@),
                Err(e) => spec_parse(message@) == Err::<CommandModel, FromSliceError>(e),
            },
    {
        if message.len() < 4 {
            return Err(FromSliceError::TooShort);
        }
        if message[0] == 0xff {
            return Err(FromSliceError::InvalidClass);
        }
        let body = vstd::slice::slice_subrange(message, 4, message.len());
        proof {
            assert(body@ =~= message@.skip(4));
        }
        let (lc, le, offset, extended) = match Self::parse_lengths(body) {
            Ok(parsed) => parsed,
            Err(e) => {
                return Err(e);
            },
        };
        if lc > TRANSPORT_MAX {
            return Err(FromSliceError::TooLong);
        }
        let data_slice = vstd::slice::slice_subrange(message, 4 + offset, 4 + offset + lc);
        let data = vstd::slice::slice_to_vec(data_slice);
        let c = Command {
            class: message[0],
            instruction: message[1],
            p1: message[2],
            p2: message[3],
            data: data,
            le: le,
            extended: extended,
        };
        proof {
            assert(c@.data =~= message@.subrange(4 + offset as int, 4 + offset as int + lc as int));
        }
        Ok(c)
    }

    /// Decodes the body after the header; see `spec_parse_lengths`.
    fn parse_lengths(body: &[u8]) -> (r: Result<(usize, usize, usize, bool), FromSliceError>)
        ensures
            match r {
                Ok((lc, le, offset, extended)) => spec_parse_lengths(body@) == Ok::<
                    (int, int, int, bool),
                    FromSliceError,
                >((lc as int, le as int, offset as int, extended)) && offset + lc <= body@.len()
                    && le <= 65536,
                Err(e) => spec_parse_lengths(body@) == Err::<(int, int, int, bool), FromSliceError>(
                    e,
                ),
            },
    {
        let l = body.len();
        if l == 0 {
            return Ok((0, 0, 0, false));
        }
        let b1 = body[0] as usize;
        if l == 1 {
            return Ok((0, if b1 == 0 { 256 } else { b1 }, 0, false));
        }
        if l == 1 + b1 && b1 != 0 {
            return Ok((b1, 0, 1, false));
        }
        if l == 2 + b1 && b1 != 0 {
            let last = body[l - 1] as usize;
            return Ok((b1, if last == 0 { 256 } else { last }, 1, false));
        }
        if b1 != 0 {
            return Err(FromSliceError::InvalidFirstBodyByteForExtended);
        }
        if l < 3 {
            return Err(FromSliceError::InvalidSliceLength);
        }
        if l == 3 {
            let word = (body[1] as usize) * 0x100 + (body[2] as usize);
            return Ok((0, if word == 0 { 65536 } else { word }, 0, true));
        }
        let lc = (body[1] as usize) * 0x100 + (body[2] as usize);
        if l == 3 + lc {
            return Ok((lc, 0, 3, true));
        }
        if l >= 5 && l == 5 + lc {
            let word = (body[l - 2] as usize) * 0x100 + (body[l - 1] as usize);
            return Ok((lc, if word == 0 { 65536 } else { word }, 3, true));
        }
        Err(FromSliceError::InvalidSliceLength)
    }
}

/// Whether the class byte's chaining bit (`0x10`) is set, ISO 7816-4
/// §5.1.1: this block is not the last of its chain.
pub open spec fn spec_not_the_last(class: u8) -> bool {
    class & 0x10 != 0
}

} // verus!
