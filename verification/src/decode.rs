//! The decode half of the codec.
//!
//! [`spec_decode`] is the mathematical decoder: given the remaining bytes of
//! a stream it yields the instruction at the front and the number of bytes it
//! occupies, or the error that stops the pass. [`spec_parse`] iterates it up
//! to and including the stream terminator. The executable functions are
//! proved to agree with these exactly.

use crate::command::{Command, CommandError, CommandView};
use crate::wire::{be16, le16, le32, u16_from_be, u16_from_le, u32_from_le};
use vstd::prelude::*;

verus! {

/// The opcodes of the two-trailing-byte class: a single 8-bit value.
pub open spec fn is_value_op(op: u8) -> bool {
    op == 0x31 || op == 0x4F || op == 0x50
}

/// The instruction of a two-byte record.
pub open spec fn value_variant(op: u8, value: u8) -> CommandView {
    if op == 0x31 {
        CommandView::AY8910StereoMask { value }
    } else if op == 0x4F {
        CommandView::GameGearPSGStereo { value }
    } else {
        CommandView::PSGWrite { value }
    }
}

/// The opcodes of the register+value class: two trailing bytes.
pub open spec fn is_reg_val_op(op: u8) -> bool {
    (0x51 <= op && op <= 0x5F) || op == 0xA0 || op == 0xB0 || op == 0xB1 || (0xB3 <= op && op
        <= 0xBF)
}

/// The instruction of a register+value record.
pub open spec fn reg_val_variant(op: u8, register: u8, value: u8) -> CommandView {
    if op == 0x51 {
        CommandView::YM2413Write { register, value }
    } else if op == 0x52 {
        CommandView::YM2612Port0Write { register, value }
    } else if op == 0x53 {
        CommandView::YM2612Port1Write { register, value }
    } else if op == 0x54 {
        CommandView::YM2151Write { register, value }
    } else if op == 0x55 {
        CommandView::YM2203Write { register, value }
    } else if op == 0x56 {
        CommandView::YM2608Port0Write { register, value }
    } else if op == 0x57 {
        CommandView::YM2608Port1Write { register, value }
    } else if op == 0x58 {
        CommandView::YM2610Port0Write { register, value }
    } else if op == 0x59 {
        CommandView::YM2610Port1Write { register, value }
    } else if op == 0x5A {
        CommandView::YM3812Write { register, value }
    } else if op == 0x5B {
        CommandView::YM3526Write { register, value }
    } else if op == 0x5C {
        CommandView::Y8950Write { register, value }
    } else if op == 0x5D {
        CommandView::YMZ280BWrite { register, value }
    } else if op == 0x5E {
        CommandView::YMF262Port0Write { register, value }
    } else if op == 0x5F {
        CommandView::YMF262Port1Write { register, value }
    } else if op == 0xA0 {
        CommandView::AY8910Write { register, value }
    } else if op == 0xB0 {
        CommandView::RF5C68Write { register, value }
    } else if op == 0xB1 {
        CommandView::RF5C164Write { register, value }
    } else if op == 0xB3 {
        CommandView::GameBoyDMGWrite { register, value }
    } else if op == 0xB4 {
        CommandView::NESAPUWrite { register, value }
    } else if op == 0xB5 {
        CommandView::MultiPCMWrite { register, value }
    } else if op == 0xB6 {
        CommandView::uPD7759Write { register, value }
    } else if op == 0xB7 {
        CommandView::OKIM6258Write { register, value }
    } else if op == 0xB8 {
        CommandView::OKIM6295Write { register, value }
    } else if op == 0xB9 {
        CommandView::HuC6280Write { register, value }
    } else if op == 0xBA {
        CommandView::K053260Write { register, value }
    } else if op == 0xBB {
        CommandView::PokeyWrite { register, value }
    } else if op == 0xBC {
        CommandView::WonderSwanWrite { register, value }
    } else if op == 0xBD {
        CommandView::SAA1099Write { register, value }
    } else if op == 0xBE {
        CommandView::ES5506Write { register, value }
    } else {
        CommandView::GA20Write { register, value }
    }
}

/// The opcodes whose three trailing bytes are a little-endian 16-bit field
/// and an 8-bit field.
pub open spec fn is_le16_val_op(op: u8) -> bool {
    op == 0xC0 || op == 0xC1 || op == 0xD3 || op == 0xD4 || op == 0xD5
}

/// The instruction of a little-endian-16+value record. Opcode 0xC1 is shared
/// on the wire by `RF5C68WriteOffset` and `RF5C164WriteOffset`; only the
/// former is produced here.
pub open spec fn le16_val_variant(op: u8, w: u16, b: u8) -> CommandView {
    if op == 0xC0 {
        CommandView::SegaPCMWrite { offset: w, value: b }
    } else if op == 0xC1 {
        CommandView::RF5C68WriteOffset { offset: w, value: b }
    } else if op == 0xD3 {
        CommandView::K054539Write { register: w, value: b }
    } else if op == 0xD4 {
        CommandView::C140Write { register: w, value: b }
    } else {
        CommandView::ES5503Write { register: w, value: b }
    }
}

/// The opcodes whose three trailing bytes are a big-endian 16-bit offset and
/// an 8-bit value.
pub open spec fn is_be16_val_op(op: u8) -> bool {
    op == 0xC5 || op == 0xC6 || op == 0xC7 || op == 0xC8
}

/// The instruction of a big-endian-16+value record.
pub open spec fn be16_val_variant(op: u8, w: u16, b: u8) -> CommandView {
    if op == 0xC5 {
        CommandView::SCSPWrite { offset: w, value: b }
    } else if op == 0xC6 {
        CommandView::WonderSwanWrite16 { offset: w, value: b }
    } else if op == 0xC7 {
        CommandView::VSUWrite { offset: w, value: b }
    } else {
        CommandView::X1010Write { offset: w, value: b }
    }
}

/// The instruction of a port+register+value record (opcodes 0xD0..=0xD2).
pub open spec fn port_reg_val_variant(op: u8, port: u8, register: u8, value: u8) -> CommandView {
    if op == 0xD0 {
        CommandView::YMF278BWrite { port, register, value }
    } else if op == 0xD1 {
        CommandView::YMF271Write { port, register, value }
    } else {
        CommandView::SCC1Write { port, register, value }
    }
}

/// Decodes the record at the front of `s`: the instruction and the number of
/// bytes it occupies, including the opcode byte.
///
/// Opcodes 0x68 and 0x90..=0x95 are recognized but their fields are not: they
/// yield the placeholder instruction with zeroed/empty fields and consume only
/// the opcode byte. Opcode 0xC2 matches no known record: the wire format
/// reaches `RF5C164WriteOffset` only through opcode 0xC1, which decodes as
/// `RF5C68WriteOffset`.
pub open spec fn spec_decode(s: Seq<u8>) -> Result<(CommandView, nat), CommandError> {
    if s.len() < 1 {
        Err(CommandError::TruncatedInput)
    } else {
        let op = s[0];
        if op == 0x62 {
            Ok((CommandView::Wait735Samples, 1))
        } else if op == 0x63 {
            Ok((CommandView::Wait882Samples, 1))
        } else if op == 0x66 {
            Ok((CommandView::EndOfSoundData, 1))
        } else if op == 0x68 {
            Ok((CommandView::PCMRAMWrite { offset: 0, data: Seq::empty() }, 1))
        } else if 0x70 <= op && op <= 0x7F {
            Ok((CommandView::WaitNSamplesPlus1 { n: (op - 0x70) as u8 }, 1))
        } else if 0x80 <= op && op <= 0x8F {
            Ok((CommandView::YM2612Port0Address2AWriteWait { n: (op - 0x80) as u8 }, 1))
        } else if 0x90 <= op && op <= 0x95 {
            Ok((CommandView::DACStreamControlWrite { register: 0, value: 0 }, 1))
        } else if is_value_op(op) {
            if s.len() < 2 {
                Err(CommandError::TruncatedInput)
            } else {
                Ok((value_variant(op, s[1]), 2))
            }
        } else if is_reg_val_op(op) {
            if s.len() < 3 {
                Err(CommandError::TruncatedInput)
            } else {
                Ok((reg_val_variant(op, s[1], s[2]), 3))
            }
        } else if op == 0x61 {
            if s.len() < 3 {
                Err(CommandError::TruncatedInput)
            } else {
                Ok((CommandView::WaitNSamples { n: le16(s[1], s[2]) }, 3))
            }
        } else if op == 0xB2 {
            if s.len() < 4 {
                Err(CommandError::TruncatedInput)
            } else {
                Ok((CommandView::PWMWrite { register: s[1], value: le16(s[2], s[3]) }, 4))
            }
        } else if op == 0xD6 {
            if s.len() < 4 {
                Err(CommandError::TruncatedInput)
            } else {
                Ok((CommandView::ES5506Write16 { register: s[1], value: le16(s[2], s[3]) }, 4))
            }
        } else if is_le16_val_op(op) {
            if s.len() < 4 {
                Err(CommandError::TruncatedInput)
            } else {
                Ok((le16_val_variant(op, le16(s[1], s[2]), s[3]), 4))
            }
        } else if op == 0xC3 {
            if s.len() < 4 {
                Err(CommandError::TruncatedInput)
            } else {
                Ok((CommandView::MultiPCMSetBank { channel: s[1], offset: le16(s[2], s[3]) }, 4))
            }
        } else if is_be16_val_op(op) {
            if s.len() < 4 {
                Err(CommandError::TruncatedInput)
            } else {
                Ok((be16_val_variant(op, be16(s[1], s[2]), s[3]), 4))
            }
        } else if op == 0xC4 {
            // Quirk kept from the wire format's history: the 16-bit field is
            // read little-endian here but written big-endian by the encoder.
            if s.len() < 4 {
                Err(CommandError::TruncatedInput)
            } else {
                Ok((CommandView::QSoundWrite { register: s[3], value: le16(s[1], s[2]) }, 4))
            }
        } else if op == 0xD0 || op == 0xD1 || op == 0xD2 {
            if s.len() < 4 {
                Err(CommandError::TruncatedInput)
            } else {
                Ok((port_reg_val_variant(op, s[1], s[2], s[3]), 4))
            }
        } else if op == 0xE0 {
            if s.len() < 5 {
                Err(CommandError::TruncatedInput)
            } else {
                Ok((CommandView::SeekPCM { offset: le32(s[1], s[2], s[3], s[4]) }, 5))
            }
        } else if op == 0xE1 {
            if s.len() < 5 {
                Err(CommandError::TruncatedInput)
            } else {
                Ok((CommandView::C352Write { register: le16(s[1], s[2]), value: le16(s[3], s[4]) }, 5))
            }
        } else if op == 0x67 {
            // Data block: a compatibility byte (skipped), a type byte, a
            // 32-bit declared length, then exactly that many payload bytes.
            if s.len() < 7 {
                Err(CommandError::TruncatedInput)
            } else {
                let size = le32(s[3], s[4], s[5], s[6]);
                if s.len() < 7 + size {
                    Err(CommandError::TruncatedInput)
                } else {
                    Ok(
                        (
                            CommandView::DataBlock {
                                data_type: s[2],
                                data_size: size,
                                data: s.subrange(7, 7 + size),
                            },
                            (7 + size) as nat,
                        ),
                    )
                }
            }
        } else {
            Err(CommandError::UnrecognizedOpcode { opcode: op })
        }
    }
}

/// Decodes records from the front of `s` until the terminator: the sequence
/// of instructions before the terminator (the terminator itself is excluded)
/// and the number of bytes consumed, terminator included.
pub open spec fn spec_parse(s: Seq<u8>) -> Result<(Seq<CommandView>, nat), CommandError>
    decreases s.len(),
{
    match spec_decode(s) {
        Err(e) => Err(e),
        Ok((c, n)) => if c == (CommandView::EndOfSoundData {}) {
            Ok((Seq::empty(), n))
        } else if 1 <= n && n <= s.len() {
            match spec_parse(s.skip(n as int)) {
                Err(e) => Err(e),
                Ok((rest, m)) => Ok((seq![c] + rest, (n + m) as nat)),
            }
        } else {
            // spec_decode never consumes less than one byte or more than the
            // stream holds; this branch only bounds the recursion.
            Err(CommandError::TruncatedInput)
        },
    }
}

/// The bytes a failed parse pass consumes before stopping: every fully
/// decoded record ahead of the failure, plus the offending opcode byte when
/// the failure is an unrecognized opcode. The bytes of a truncated record
/// are not consumed. Meaningful when [`spec_parse`] fails.
pub open spec fn spec_parse_err_pos(s: Seq<u8>) -> nat
    decreases s.len(),
{
    match spec_decode(s) {
        Err(e) => if e is UnrecognizedOpcode {
            1
        } else {
            0
        },
        Ok((c, n)) => if c == (CommandView::EndOfSoundData {}) {
            0
        } else if 1 <= n && n <= s.len() {
            (n + spec_parse_err_pos(s.skip(n as int))) as nat
        } else {
            0
        },
    }
}

/// Decodes the record beginning at `pos` in `data`, returning the
/// instruction and the number of bytes it occupies.
pub fn decode_at(data: &[u8], pos: usize) -> (r: Result<(Command, usize), CommandError>)
    requires
        pos <= data@.len(),
    ensures
        match r {
            Ok((c, n)) => spec_decode(data@.skip(pos as int)) == Ok::<_, CommandError>(
                (c@, n as nat),
            ) && 1 <= n && pos + n <= data@.len(),
            Err(e) => spec_decode(data@.skip(pos as int)) == Err::<(CommandView, nat), _>(e),
        },
{
    let ghost s = data@.skip(pos as int);
    proof {
        assert forall|i: int| 0 <= i < s.len() implies s[i] == data@[pos + i] by {}
    }
    let remaining = data.len() - pos;
    if remaining < 1 {
        return Err(CommandError::TruncatedInput);
    }
    let op = data[pos];
    match op {
        0x62 => Ok((Command::Wait735Samples, 1)),
        0x63 => Ok((Command::Wait882Samples, 1)),
        0x66 => Ok((Command::EndOfSoundData, 1)),
        0x68 => Ok((Command::PCMRAMWrite { offset: 0, data: Vec::new() }, 1)),
        0x70..=0x7F => Ok((Command::WaitNSamplesPlus1 { n: op - 0x70 }, 1)),
        0x80..=0x8F => Ok((Command::YM2612Port0Address2AWriteWait { n: op - 0x80 }, 1)),
        0x90..=0x95 => Ok((Command::DACStreamControlWrite { register: 0, value: 0 }, 1)),
        0x31 | 0x4F | 0x50 => {
            if remaining < 2 {
                return Err(CommandError::TruncatedInput);
            }
            let value = data[pos + 1];
            let c = match op {
                0x31 => Command::AY8910StereoMask { value },
                0x4F => Command::GameGearPSGStereo { value },
                _ => Command::PSGWrite { value },
            };
            Ok((c, 2))
        },
        0x51..=0x5F | 0xA0 | 0xB0 | 0xB1 | 0xB3..=0xBF => {
            if remaining < 3 {
                return Err(CommandError::TruncatedInput);
            }
            let register = data[pos + 1];
            let value = data[pos + 2];
            let c = match op {
                0x51 => Command::YM2413Write { register, value },
                0x52 => Command::YM2612Port0Write { register, value },
                0x53 => Command::YM2612Port1Write { register, value },
                0x54 => Command::YM2151Write { register, value },
                0x55 => Command::YM2203Write { register, value },
                0x56 => Command::YM2608Port0Write { register, value },
                0x57 => Command::YM2608Port1Write { register, value },
                0x58 => Command::YM2610Port0Write { register, value },
                0x59 => Command::YM2610Port1Write { register, value },
                0x5A => Command::YM3812Write { register, value },
                0x5B => Command::YM3526Write { register, value },
                0x5C => Command::Y8950Write { register, value },
                0x5D => Command::YMZ280BWrite { register, value },
                0x5E => Command::YMF262Port0Write { register, value },
                0x5F => Command::YMF262Port1Write { register, value },
                0xA0 => Command::AY8910Write { register, value },
                0xB0 => Command::RF5C68Write { register, value },
                0xB1 => Command::RF5C164Write { register, value },
                0xB3 => Command::GameBoyDMGWrite { register, value },
                0xB4 => Command::NESAPUWrite { register, value },
                0xB5 => Command::MultiPCMWrite { register, value },
                0xB6 => Command::uPD7759Write { register, value },
                0xB7 => Command::OKIM6258Write { register, value },
                0xB8 => Command::OKIM6295Write { register, value },
                0xB9 => Command::HuC6280Write { register, value },
                0xBA => Command::K053260Write { register, value },
                0xBB => Command::PokeyWrite { register, value },
                0xBC => Command::WonderSwanWrite { register, value },
                0xBD => Command::SAA1099Write { register, value },
                0xBE => Command::ES5506Write { register, value },
                _ => Command::GA20Write { register, value },
            };
            Ok((c, 3))
        },
        0x61 => {
            if remaining < 3 {
                return Err(CommandError::TruncatedInput);
            }
            let n = u16_from_le(data[pos + 1], data[pos + 2]);
            Ok((Command::WaitNSamples { n }, 3))
        },
        0xB2 => {
            if remaining < 4 {
                return Err(CommandError::TruncatedInput);
            }
            let register = data[pos + 1];
            let value = u16_from_le(data[pos + 2], data[pos + 3]);
            Ok((Command::PWMWrite { register, value }, 4))
        },
        0xD6 => {
            if remaining < 4 {
                return Err(CommandError::TruncatedInput);
            }
            let register = data[pos + 1];
            let value = u16_from_le(data[pos + 2], data[pos + 3]);
            Ok((Command::ES5506Write16 { register, value }, 4))
        },
        0xC0 | 0xC1 | 0xD3 | 0xD4 | 0xD5 => {
            if remaining < 4 {
                return Err(CommandError::TruncatedInput);
            }
            let w = u16_from_le(data[pos + 1], data[pos + 2]);
            let b = data[pos + 3];
            let c = match op {
                0xC0 => Command::SegaPCMWrite { offset: w, value: b },
                0xC1 => Command::RF5C68WriteOffset { offset: w, value: b },
                0xD3 => Command::K054539Write { register: w, value: b },
                0xD4 => Command::C140Write { register: w, value: b },
                _ => Command::ES5503Write { register: w, value: b },
            };
            Ok((c, 4))
        },
        0xC3 => {
            if remaining < 4 {
                return Err(CommandError::TruncatedInput);
            }
            let channel = data[pos + 1];
            let offset = u16_from_le(data[pos + 2], data[pos + 3]);
            Ok((Command::MultiPCMSetBank { channel, offset }, 4))
        },
        0xC5..=0xC8 => {
            if remaining < 4 {
                return Err(CommandError::TruncatedInput);
            }
            let w = u16_from_be(data[pos + 1], data[pos + 2]);
            let b = data[pos + 3];
            let c = match op {
                0xC5 => Command::SCSPWrite { offset: w, value: b },
                0xC6 => Command::WonderSwanWrite16 { offset: w, value: b },
                0xC7 => Command::VSUWrite { offset: w, value: b },
                _ => Command::X1010Write { offset: w, value: b },
            };
            Ok((c, 4))
        },
        0xC4 => {
            if remaining < 4 {
                return Err(CommandError::TruncatedInput);
            }
            let value = u16_from_le(data[pos + 1], data[pos + 2]);
            let register = data[pos + 3];
            Ok((Command::QSoundWrite { register, value }, 4))
        },
        0xD0 | 0xD1 | 0xD2 => {
            if remaining < 4 {
                return Err(CommandError::TruncatedInput);
            }
            let port = data[pos + 1];
            let register = data[pos + 2];
            let value = data[pos + 3];
            let c = match op {
                0xD0 => Command::YMF278BWrite { port, register, value },
                0xD1 => Command::YMF271Write { port, register, value },
                _ => Command::SCC1Write { port, register, value },
            };
            Ok((c, 4))
        },
        0xE0 => {
            if remaining < 5 {
                return Err(CommandError::TruncatedInput);
            }
            let offset = u32_from_le(data[pos + 1], data[pos + 2], data[pos + 3], data[pos + 4]);
            Ok((Command::SeekPCM { offset }, 5))
        },
        0xE1 => {
            if remaining < 5 {
                return Err(CommandError::TruncatedInput);
            }
            let register = u16_from_le(data[pos + 1], data[pos + 2]);
            let value = u16_from_le(data[pos + 3], data[pos + 4]);
            Ok((Command::C352Write { register, value }, 5))
        },
        0x67 => {
            if remaining < 7 {
                return Err(CommandError::TruncatedInput);
            }
            let data_type = data[pos + 2];
            let size = u32_from_le(data[pos + 3], data[pos + 4], data[pos + 5], data[pos + 6]);
            let size_us = size as usize;
            if remaining - 7 < size_us {
                return Err(CommandError::TruncatedInput);
            }
            let mut payload: Vec<u8> = Vec::new();
            let mut j: usize = 0;
            while j < size_us
                invariant
                    j <= size_us,
                    pos + 7 + size_us <= data@.len(),
                    data@.len() <= usize::MAX,
                    s == data@.skip(pos as int),
                    payload@ == s.subrange(7, 7 + j as int),
                decreases size_us - j,
            {
                payload.push(data[pos + 7 + j]);
                proof {
                    assert(s.subrange(7, 7 + (j + 1)) =~= s.subrange(7, 7 + j as int).push(
                        s[7 + j],
                    ));
                }
                j = j + 1;
            }
            Ok((Command::DataBlock { data_type, data_size: size, data: payload }, 7 + size_us))
        },
        _ => Err(CommandError::UnrecognizedOpcode { opcode: op }),
    }
}

/// Parses instructions from the front of `data` until the terminator,
/// returning them (terminator excluded) and the number of bytes consumed
/// (terminator included). A failure carries the error and the position it
/// stops at: past every fully decoded record, and past the offending opcode
/// byte when that byte is unrecognized.
pub fn parse_at(data: &[u8]) -> (r: Result<(Vec<Command>, usize), (CommandError, usize)>)
    ensures
        match r {
            Ok((cmds, n)) => spec_parse(data@) == Ok::<_, CommandError>(
                (cmds.deep_view(), n as nat),
            ) && n <= data@.len(),
            Err((e, p)) => spec_parse(data@) == Err::<(Seq<CommandView>, nat), _>(e) && p
                == spec_parse_err_pos(data@) && p <= data@.len(),
        },
{
    let mut cmds: Vec<Command> = Vec::new();
    let mut pos: usize = 0;
    let data_len = data.len();
    proof {
        assert(data@.skip(0) =~= data@);
        assert(cmds.deep_view() =~= Seq::<CommandView>::empty());
    }
    loop
        invariant
            pos <= data@.len(),
            data@.len() == data_len,
            (match spec_parse(data@.skip(pos as int)) {
                Ok((rest, m)) => spec_parse(data@) == Ok::<_, CommandError>(
                    (cmds.deep_view() + rest, (pos + m) as nat),
                ),
                Err(e) => spec_parse(data@) == Err::<(Seq<CommandView>, nat), _>(e)
                    && spec_parse_err_pos(data@) == pos + spec_parse_err_pos(
                    data@.skip(pos as int),
                ),
            }),
        decreases data@.len() - pos,
    {
        let ghost s = data@.skip(pos as int);
        match decode_at(data, pos) {
            Err(e) => {
                let p: usize = match e {
                    CommandError::UnrecognizedOpcode { .. } => {
                        proof {
                            assert(s.len() >= 1);
                        }
                        pos + 1
                    },
                    CommandError::TruncatedInput => pos,
                };
                return Err((e, p));
            },
            Ok((c, n)) => {
                match c {
                    Command::EndOfSoundData => {
                        proof {
                            assert(spec_parse(s) == Ok::<_, CommandError>(
                                (Seq::<CommandView>::empty(), n as nat),
                            ));
                            assert(cmds.deep_view() + Seq::<CommandView>::empty()
                                =~= cmds.deep_view());
                        }
                        return Ok((cmds, pos + n));
                    },
                    _ => {
                        let ghost old_cmds = cmds.deep_view();
                        proof {
                            assert(!(c@ == (CommandView::EndOfSoundData {})));
                            assert(data@.skip(pos as int).skip(n as int) =~= data@.skip(
                                pos + n as int,
                            ));
                        }
                        cmds.push(c);
                        proof {
                            assert(cmds.deep_view() =~= old_cmds.push(c@));
                        }
                        pos = pos + n;
                        proof {
                            match spec_parse(data@.skip(pos as int)) {
                                Ok((rest, m)) => {
                                    assert(old_cmds.push(c@) + rest =~= old_cmds + (seq![c@]
                                        + rest));
                                },
                                Err(e) => {},
                            }
                        }
                    },
                }
            },
        }
    }
}

} // verus!
