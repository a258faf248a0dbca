//! The instruction catalog of the VGM command stream and the encode half of
//! the codec.
//!
//! Each `Command` variant stands for exactly one opcode byte, or for an opcode
//! range that carries a 4-bit value in the opcode byte itself. The wire layout
//! of every encodable variant is written down once, as the spec function
//! [`CommandView::encoded`]; the executable encoder is proved to produce
//! exactly those bytes, and the decoder (in the `decode` module) is proved to
//! invert them.

use crate::bytebuf::{bytes_advance, bytes_as_slice, bytes_content, bytes_mut_content, bytes_mut_put};
use crate::decode::{decode_at, parse_at, spec_decode, spec_parse, spec_parse_err_pos};
use crate::wire::{byte32, hi16, lo16, u16_to_bytes, u32_to_bytes};
use vstd::prelude::*;

verus! {

/// One decoded instruction of the command stream.
///
/// `PCMRAMWrite` (opcode 0x68) and `DACStreamControlWrite` (opcodes
/// 0x90..=0x95) are placeholders: the decoder recognizes their opcodes but
/// leaves their fields zeroed/empty, and they cannot be encoded.
///
/// `RF5C68WriteOffset` and `RF5C164WriteOffset` both encode to opcode 0xC1, a
/// genuine ambiguity of the wire format; only `RF5C68WriteOffset` is ever
/// produced by the decoder.
#[allow(non_camel_case_types)]
#[derive(Debug, PartialEq, Eq, Clone, Hash)]
pub enum Command {
    AY8910StereoMask { value: u8 },
    GameGearPSGStereo { value: u8 },
    PSGWrite { value: u8 },
    YM2413Write { register: u8, value: u8 },
    YM2612Port0Write { register: u8, value: u8 },
    YM2612Port1Write { register: u8, value: u8 },
    YM2151Write { register: u8, value: u8 },
    YM2203Write { register: u8, value: u8 },
    YM2608Port0Write { register: u8, value: u8 },
    YM2608Port1Write { register: u8, value: u8 },
    YM2610Port0Write { register: u8, value: u8 },
    YM2610Port1Write { register: u8, value: u8 },
    YM3812Write { register: u8, value: u8 },
    YM3526Write { register: u8, value: u8 },
    Y8950Write { register: u8, value: u8 },
    YMZ280BWrite { register: u8, value: u8 },
    YMF262Port0Write { register: u8, value: u8 },
    YMF262Port1Write { register: u8, value: u8 },
    WaitNSamples { n: u16 },
    Wait735Samples,
    Wait882Samples,
    EndOfSoundData,
    DataBlock { data_type: u8, data_size: u32, data: Vec<u8> },
    PCMRAMWrite { offset: u32, data: Vec<u8> },
    WaitNSamplesPlus1 { n: u8 },
    YM2612Port0Address2AWriteWait { n: u8 },
    DACStreamControlWrite { register: u8, value: u8 },
    AY8910Write { register: u8, value: u8 },
    RF5C68Write { register: u8, value: u8 },
    RF5C164Write { register: u8, value: u8 },
    PWMWrite { register: u8, value: u16 },
    GameBoyDMGWrite { register: u8, value: u8 },
    NESAPUWrite { register: u8, value: u8 },
    MultiPCMWrite { register: u8, value: u8 },
    uPD7759Write { register: u8, value: u8 },
    OKIM6258Write { register: u8, value: u8 },
    OKIM6295Write { register: u8, value: u8 },
    HuC6280Write { register: u8, value: u8 },
    K053260Write { register: u8, value: u8 },
    PokeyWrite { register: u8, value: u8 },
    WonderSwanWrite { register: u8, value: u8 },
    SAA1099Write { register: u8, value: u8 },
    ES5506Write { register: u8, value: u8 },
    GA20Write { register: u8, value: u8 },
    SegaPCMWrite { offset: u16, value: u8 },
    MultiPCMSetBank { channel: u8, offset: u16 },
    QSoundWrite { register: u8, value: u16 },
    SCSPWrite { offset: u16, value: u8 },
    WonderSwanWrite16 { offset: u16, value: u8 },
    VSUWrite { offset: u16, value: u8 },
    X1010Write { offset: u16, value: u8 },
    YMF278BWrite { port: u8, register: u8, value: u8 },
    YMF271Write { port: u8, register: u8, value: u8 },
    SCC1Write { port: u8, register: u8, value: u8 },
    K054539Write { register: u16, value: u8 },
    C140Write { register: u16, value: u8 },
    ES5503Write { register: u16, value: u8 },
    ES5506Write16 { register: u8, value: u16 },
    SeekPCM { offset: u32 },
    C352Write { register: u16, value: u16 },
    RF5C68WriteOffset { offset: u16, value: u8 },
    RF5C164WriteOffset { offset: u16, value: u8 },
}

/// The mathematical model of a [`Command`]: the same variants with raw byte
/// payloads abstracted to sequences. All contracts and laws are stated over
/// this type.
#[allow(non_camel_case_types)]
pub enum CommandView {
    AY8910StereoMask { value: u8 },
    GameGearPSGStereo { value: u8 },
    PSGWrite { value: u8 },
    YM2413Write { register: u8, value: u8 },
    YM2612Port0Write { register: u8, value: u8 },
    YM2612Port1Write { register: u8, value: u8 },
    YM2151Write { register: u8, value: u8 },
    YM2203Write { register: u8, value: u8 },
    YM2608Port0Write { register: u8, value: u8 },
    YM2608Port1Write { register: u8, value: u8 },
    YM2610Port0Write { register: u8, value: u8 },
    YM2610Port1Write { register: u8, value: u8 },
    YM3812Write { register: u8, value: u8 },
    YM3526Write { register: u8, value: u8 },
    Y8950Write { register: u8, value: u8 },
    YMZ280BWrite { register: u8, value: u8 },
    YMF262Port0Write { register: u8, value: u8 },
    YMF262Port1Write { register: u8, value: u8 },
    WaitNSamples { n: u16 },
    Wait735Samples,
    Wait882Samples,
    EndOfSoundData,
    DataBlock { data_type: u8, data_size: u32, data: Seq<u8> },
    PCMRAMWrite { offset: u32, data: Seq<u8> },
    WaitNSamplesPlus1 { n: u8 },
    YM2612Port0Address2AWriteWait { n: u8 },
    DACStreamControlWrite { register: u8, value: u8 },
    AY8910Write { register: u8, value: u8 },
    RF5C68Write { register: u8, value: u8 },
    RF5C164Write { register: u8, value: u8 },
    PWMWrite { register: u8, value: u16 },
    GameBoyDMGWrite { register: u8, value: u8 },
    NESAPUWrite { register: u8, value: u8 },
    MultiPCMWrite { register: u8, value: u8 },
    uPD7759Write { register: u8, value: u8 },
    OKIM6258Write { register: u8, value: u8 },
    OKIM6295Write { register: u8, value: u8 },
    HuC6280Write { register: u8, value: u8 },
    K053260Write { register: u8, value: u8 },
    PokeyWrite { register: u8, value: u8 },
    WonderSwanWrite { register: u8, value: u8 },
    SAA1099Write { register: u8, value: u8 },
    ES5506Write { register: u8, value: u8 },
    GA20Write { register: u8, value: u8 },
    SegaPCMWrite { offset: u16, value: u8 },
    MultiPCMSetBank { channel: u8, offset: u16 },
    QSoundWrite { register: u8, value: u16 },
    SCSPWrite { offset: u16, value: u8 },
    WonderSwanWrite16 { offset: u16, value: u8 },
    VSUWrite { offset: u16, value: u8 },
    X1010Write { offset: u16, value: u8 },
    YMF278BWrite { port: u8, register: u8, value: u8 },
    YMF271Write { port: u8, register: u8, value: u8 },
    SCC1Write { port: u8, register: u8, value: u8 },
    K054539Write { register: u16, value: u8 },
    C140Write { register: u16, value: u8 },
    ES5503Write { register: u16, value: u8 },
    ES5506Write16 { register: u8, value: u16 },
    SeekPCM { offset: u32 },
    C352Write { register: u16, value: u16 },
    RF5C68WriteOffset { offset: u16, value: u8 },
    RF5C164WriteOffset { offset: u16, value: u8 },
}

impl View for Command {
    type V = CommandView;

    open spec fn view(&self) -> CommandView {
        match self {
            Command::AY8910StereoMask { value } => CommandView::AY8910StereoMask { value: *value },
            Command::GameGearPSGStereo { value } => CommandView::GameGearPSGStereo { value: *value },
            Command::PSGWrite { value } => CommandView::PSGWrite { value: *value },
            Command::YM2413Write { register, value } => CommandView::YM2413Write { register: *register, value: *value },
            Command::YM2612Port0Write { register, value } => CommandView::YM2612Port0Write { register: *register, value: *value },
            Command::YM2612Port1Write { register, value } => CommandView::YM2612Port1Write { register: *register, value: *value },
            Command::YM2151Write { register, value } => CommandView::YM2151Write { register: *register, value: *value },
            Command::YM2203Write { register, value } => CommandView::YM2203Write { register: *register, value: *value },
            Command::YM2608Port0Write { register, value } => CommandView::YM2608Port0Write { register: *register, value: *value },
            Command::YM2608Port1Write { register, value } => CommandView::YM2608Port1Write { register: *register, value: *value },
            Command::YM2610Port0Write { register, value } => CommandView::YM2610Port0Write { register: *register, value: *value },
            Command::YM2610Port1Write { register, value } => CommandView::YM2610Port1Write { register: *register, value: *value },
            Command::YM3812Write { register, value } => CommandView::YM3812Write { register: *register, value: *value },
            Command::YM3526Write { register, value } => CommandView::YM3526Write { register: *register, value: *value },
            Command::Y8950Write { register, value } => CommandView::Y8950Write { register: *register, value: *value },
            Command::YMZ280BWrite { register, value } => CommandView::YMZ280BWrite { register: *register, value: *value },
            Command::YMF262Port0Write { register, value } => CommandView::YMF262Port0Write { register: *register, value: *value },
            Command::YMF262Port1Write { register, value } => CommandView::YMF262Port1Write { register: *register, value: *value },
            Command::WaitNSamples { n } => CommandView::WaitNSamples { n: *n },
            Command::Wait735Samples => CommandView::Wait735Samples,
            Command::Wait882Samples => CommandView::Wait882Samples,
            Command::EndOfSoundData => CommandView::EndOfSoundData,
            Command::DataBlock { data_type, data_size, data } => CommandView::DataBlock {
                data_type: *data_type,
                data_size: *data_size,
                data: data@,
            },
            Command::PCMRAMWrite { offset, data } => CommandView::PCMRAMWrite { offset: *offset, data: data@ },
            Command::WaitNSamplesPlus1 { n } => CommandView::WaitNSamplesPlus1 { n: *n },
            Command::YM2612Port0Address2AWriteWait { n } => CommandView::YM2612Port0Address2AWriteWait { n: *n },
            Command::DACStreamControlWrite { register, value } => CommandView::DACStreamControlWrite { register: *register, value: *value },
            Command::AY8910Write { register, value } => CommandView::AY8910Write { register: *register, value: *value },
            Command::RF5C68Write { register, value } => CommandView::RF5C68Write { register: *register, value: *value },
            Command::RF5C164Write { register, value } => CommandView::RF5C164Write { register: *register, value: *value },
            Command::PWMWrite { register, value } => CommandView::PWMWrite { register: *register, value: *value },
            Command::GameBoyDMGWrite { register, value } => CommandView::GameBoyDMGWrite { register: *register, value: *value },
            Command::NESAPUWrite { register, value } => CommandView::NESAPUWrite { register: *register, value: *value },
            Command::MultiPCMWrite { register, value } => CommandView::MultiPCMWrite { register: *register, value: *value },
            Command::uPD7759Write { register, value } => CommandView::uPD7759Write { register: *register, value: *value },
            Command::OKIM6258Write { register, value } => CommandView::OKIM6258Write { register: *register, value: *value },
            Command::OKIM6295Write { register, value } => CommandView::OKIM6295Write { register: *register, value: *value },
            Command::HuC6280Write { register, value } => CommandView::HuC6280Write { register: *register, value: *value },
            Command::K053260Write { register, value } => CommandView::K053260Write { register: *register, value: *value },
            Command::PokeyWrite { register, value } => CommandView::PokeyWrite { register: *register, value: *value },
            Command::WonderSwanWrite { register, value } => CommandView::WonderSwanWrite { register: *register, value: *value },
            Command::SAA1099Write { register, value } => CommandView::SAA1099Write { register: *register, value: *value },
            Command::ES5506Write { register, value } => CommandView::ES5506Write { register: *register, value: *value },
            Command::GA20Write { register, value } => CommandView::GA20Write { register: *register, value: *value },
            Command::SegaPCMWrite { offset, value } => CommandView::SegaPCMWrite { offset: *offset, value: *value },
            Command::MultiPCMSetBank { channel, offset } => CommandView::MultiPCMSetBank { channel: *channel, offset: *offset },
            Command::QSoundWrite { register, value } => CommandView::QSoundWrite { register: *register, value: *value },
            Command::SCSPWrite { offset, value } => CommandView::SCSPWrite { offset: *offset, value: *value },
            Command::WonderSwanWrite16 { offset, value } => CommandView::WonderSwanWrite16 { offset: *offset, value: *value },
            Command::VSUWrite { offset, value } => CommandView::VSUWrite { offset: *offset, value: *value },
            Command::X1010Write { offset, value } => CommandView::X1010Write { offset: *offset, value: *value },
            Command::YMF278BWrite { port, register, value } => CommandView::YMF278BWrite { port: *port, register: *register, value: *value },
            Command::YMF271Write { port, register, value } => CommandView::YMF271Write { port: *port, register: *register, value: *value },
            Command::SCC1Write { port, register, value } => CommandView::SCC1Write { port: *port, register: *register, value: *value },
            Command::K054539Write { register, value } => CommandView::K054539Write { register: *register, value: *value },
            Command::C140Write { register, value } => CommandView::C140Write { register: *register, value: *value },
            Command::ES5503Write { register, value } => CommandView::ES5503Write { register: *register, value: *value },
            Command::ES5506Write16 { register, value } => CommandView::ES5506Write16 { register: *register, value: *value },
            Command::SeekPCM { offset } => CommandView::SeekPCM { offset: *offset },
            Command::C352Write { register, value } => CommandView::C352Write { register: *register, value: *value },
            Command::RF5C68WriteOffset { offset, value } => CommandView::RF5C68WriteOffset { offset: *offset, value: *value },
            Command::RF5C164WriteOffset { offset, value } => CommandView::RF5C164WriteOffset { offset: *offset, value: *value },
        }
    }
}

impl DeepView for Command {
    type V = CommandView;

    open spec fn deep_view(&self) -> CommandView {
        self.view()
    }
}

/// Why a decode pass stopped without producing an instruction.
#[derive(Debug, PartialEq, Eq, Structural, Clone, Copy, Hash)]
pub enum CommandError {
    /// The opcode byte matched no known opcode or opcode range. Decoding
    /// cannot resynchronize past it.
    UnrecognizedOpcode { opcode: u8 },
    /// The input ended before the current record's declared field bytes.
    TruncatedInput,
}

impl CommandView {
    /// Whether the encoder is defined on this instruction: the two
    /// placeholder variants have no wire format, and the two inline-nibble
    /// variants only carry values that fit in the opcode's low nibble.
    pub open spec fn encodable(self) -> bool {
        match self {
            CommandView::PCMRAMWrite { .. } => false,
            CommandView::DACStreamControlWrite { .. } => false,
            CommandView::WaitNSamplesPlus1 { n } => n <= 0xF,
            CommandView::YM2612Port0Address2AWriteWait { n } => n <= 0xF,
            _ => true,
        }
    }

    /// The wire bytes of this instruction, opcode byte first. This is the
    /// defining table of the format; decode is proved to invert it. For the
    /// two placeholder variants, which have no wire format, it is empty.
    pub open spec fn encoded(self) -> Seq<u8> {
        match self {
            CommandView::AY8910StereoMask { value } => seq![0x31u8, value],
            CommandView::GameGearPSGStereo { value } => seq![0x4Fu8, value],
            CommandView::PSGWrite { value } => seq![0x50u8, value],
            CommandView::YM2413Write { register, value } => seq![0x51u8, register, value],
            CommandView::YM2612Port0Write { register, value } => seq![0x52u8, register, value],
            CommandView::YM2612Port1Write { register, value } => seq![0x53u8, register, value],
            CommandView::YM2151Write { register, value } => seq![0x54u8, register, value],
            CommandView::YM2203Write { register, value } => seq![0x55u8, register, value],
            CommandView::YM2608Port0Write { register, value } => seq![0x56u8, register, value],
            CommandView::YM2608Port1Write { register, value } => seq![0x57u8, register, value],
            CommandView::YM2610Port0Write { register, value } => seq![0x58u8, register, value],
            CommandView::YM2610Port1Write { register, value } => seq![0x59u8, register, value],
            CommandView::YM3812Write { register, value } => seq![0x5Au8, register, value],
            CommandView::YM3526Write { register, value } => seq![0x5Bu8, register, value],
            CommandView::Y8950Write { register, value } => seq![0x5Cu8, register, value],
            CommandView::YMZ280BWrite { register, value } => seq![0x5Du8, register, value],
            CommandView::YMF262Port0Write { register, value } => seq![0x5Eu8, register, value],
            CommandView::YMF262Port1Write { register, value } => seq![0x5Fu8, register, value],
            CommandView::WaitNSamples { n } => seq![0x61u8, lo16(n), hi16(n)],
            CommandView::Wait735Samples => seq![0x62u8],
            CommandView::Wait882Samples => seq![0x63u8],
            CommandView::EndOfSoundData => seq![0x66u8],
            CommandView::DataBlock { data_type, data_size, data } => seq![
                0x67u8,
                0x66u8,
                data_type,
                byte32(data_size, 0),
                byte32(data_size, 1),
                byte32(data_size, 2),
                byte32(data_size, 3),
            ] + data,
            CommandView::PCMRAMWrite { .. } => Seq::empty(),
            CommandView::WaitNSamplesPlus1 { n } => seq![(0x70 + n) as u8],
            CommandView::YM2612Port0Address2AWriteWait { n } => seq![(0x80 + n) as u8],
            CommandView::DACStreamControlWrite { .. } => Seq::empty(),
            CommandView::AY8910Write { register, value } => seq![0xA0u8, register, value],
            CommandView::RF5C68Write { register, value } => seq![0xB0u8, register, value],
            CommandView::RF5C164Write { register, value } => seq![0xB1u8, register, value],
            CommandView::PWMWrite { register, value } => seq![0xB2u8, register, lo16(value), hi16(value)],
            CommandView::GameBoyDMGWrite { register, value } => seq![0xB3u8, register, value],
            CommandView::NESAPUWrite { register, value } => seq![0xB4u8, register, value],
            CommandView::MultiPCMWrite { register, value } => seq![0xB5u8, register, value],
            CommandView::uPD7759Write { register, value } => seq![0xB6u8, register, value],
            CommandView::OKIM6258Write { register, value } => seq![0xB7u8, register, value],
            CommandView::OKIM6295Write { register, value } => seq![0xB8u8, register, value],
            CommandView::HuC6280Write { register, value } => seq![0xB9u8, register, value],
            CommandView::K053260Write { register, value } => seq![0xBAu8, register, value],
            CommandView::PokeyWrite { register, value } => seq![0xBBu8, register, value],
            CommandView::WonderSwanWrite { register, value } => seq![0xBCu8, register, value],
            CommandView::SAA1099Write { register, value } => seq![0xBDu8, register, value],
            CommandView::ES5506Write { register, value } => seq![0xBEu8, register, value],
            CommandView::GA20Write { register, value } => seq![0xBFu8, register, value],
            CommandView::SegaPCMWrite { offset, value } => seq![0xC0u8, lo16(offset), hi16(offset), value],
            CommandView::MultiPCMSetBank { channel, offset } => seq![0xC3u8, channel, lo16(offset), hi16(offset)],
            CommandView::QSoundWrite { register, value } => seq![0xC4u8, hi16(value), lo16(value), register],
            CommandView::SCSPWrite { offset, value } => seq![0xC5u8, hi16(offset), lo16(offset), value],
            CommandView::WonderSwanWrite16 { offset, value } => seq![0xC6u8, hi16(offset), lo16(offset), value],
            CommandView::VSUWrite { offset, value } => seq![0xC7u8, hi16(offset), lo16(offset), value],
            CommandView::X1010Write { offset, value } => seq![0xC8u8, hi16(offset), lo16(offset), value],
            CommandView::YMF278BWrite { port, register, value } => seq![0xD0u8, port, register, value],
            CommandView::YMF271Write { port, register, value } => seq![0xD1u8, port, register, value],
            CommandView::SCC1Write { port, register, value } => seq![0xD2u8, port, register, value],
            CommandView::K054539Write { register, value } => seq![0xD3u8, lo16(register), hi16(register), value],
            CommandView::C140Write { register, value } => seq![0xD4u8, lo16(register), hi16(register), value],
            CommandView::ES5503Write { register, value } => seq![0xD5u8, lo16(register), hi16(register), value],
            CommandView::ES5506Write16 { register, value } => seq![0xD6u8, register, lo16(value), hi16(value)],
            CommandView::SeekPCM { offset } => seq![
                0xE0u8,
                byte32(offset, 0),
                byte32(offset, 1),
                byte32(offset, 2),
                byte32(offset, 3),
            ],
            CommandView::C352Write { register, value } => seq![
                0xE1u8,
                lo16(register),
                hi16(register),
                lo16(value),
                hi16(value),
            ],
            CommandView::RF5C68WriteOffset { offset, value } => seq![0xC1u8, lo16(offset), hi16(offset), value],
            CommandView::RF5C164WriteOffset { offset, value } => seq![0xC1u8, lo16(offset), hi16(offset), value],
        }
    }
}

/// Appends every byte of `src` to `out`.
fn push_all(out: &mut Vec<u8>, src: &Vec<u8>)
    ensures
        final(out)@ == old(out)@ + src@,
{
    let ghost start = out@;
    for i in 0..src.len()
        invariant
            out@ == start + src@.take(i as int),
    {
        out.push(src[i]);
        proof {
            assert(src@.take(i + 1) == src@.take(i as int).push(src@[i as int]));
        }
    }
    proof {
        assert(src@.take(src@.len() as int) == src@);
    }
}

impl Command {
    /// Encodes this instruction into its wire bytes, opcode byte first.
    pub fn encode(&self) -> (r: Vec<u8>)
        requires
            self@.encodable(),
        ensures
            r@ == self@.encoded(),
    {
        match self {
            Command::AY8910StereoMask { value } => vec![0x31, *value],
            Command::GameGearPSGStereo { value } => vec![0x4F, *value],
            Command::PSGWrite { value } => vec![0x50, *value],
            Command::YM2413Write { register, value } => vec![0x51, *register, *value],
            Command::YM2612Port0Write { register, value } => vec![0x52, *register, *value],
            Command::YM2612Port1Write { register, value } => vec![0x53, *register, *value],
            Command::YM2151Write { register, value } => vec![0x54, *register, *value],
            Command::YM2203Write { register, value } => vec![0x55, *register, *value],
            Command::YM2608Port0Write { register, value } => vec![0x56, *register, *value],
            Command::YM2608Port1Write { register, value } => vec![0x57, *register, *value],
            Command::YM2610Port0Write { register, value } => vec![0x58, *register, *value],
            Command::YM2610Port1Write { register, value } => vec![0x59, *register, *value],
            Command::YM3812Write { register, value } => vec![0x5A, *register, *value],
            Command::YM3526Write { register, value } => vec![0x5B, *register, *value],
            Command::Y8950Write { register, value } => vec![0x5C, *register, *value],
            Command::YMZ280BWrite { register, value } => vec![0x5D, *register, *value],
            Command::YMF262Port0Write { register, value } => vec![0x5E, *register, *value],
            Command::YMF262Port1Write { register, value } => vec![0x5F, *register, *value],
            Command::WaitNSamples { n } => {
                let (lo, hi) = u16_to_bytes(*n);
                vec![0x61, lo, hi]
            },
            Command::Wait735Samples => vec![0x62],
            Command::Wait882Samples => vec![0x63],
            Command::EndOfSoundData => vec![0x66],
            Command::DataBlock { data_type, data_size, data } => {
                let (b0, b1, b2, b3) = u32_to_bytes(*data_size);
                let mut out: Vec<u8> = vec![0x67, 0x66, *data_type, b0, b1, b2, b3];
                push_all(&mut out, data);
                out
            },
            Command::PCMRAMWrite { .. } => vstd::pervasive::unreached(),
            Command::WaitNSamplesPlus1 { n } => vec![0x70 + *n],
            Command::YM2612Port0Address2AWriteWait { n } => vec![0x80 + *n],
            Command::DACStreamControlWrite { .. } => vstd::pervasive::unreached(),
            Command::AY8910Write { register, value } => vec![0xA0, *register, *value],
            Command::RF5C68Write { register, value } => vec![0xB0, *register, *value],
            Command::RF5C164Write { register, value } => vec![0xB1, *register, *value],
            Command::PWMWrite { register, value } => {
                let (lo, hi) = u16_to_bytes(*value);
                vec![0xB2, *register, lo, hi]
            },
            Command::GameBoyDMGWrite { register, value } => vec![0xB3, *register, *value],
            Command::NESAPUWrite { register, value } => vec![0xB4, *register, *value],
            Command::MultiPCMWrite { register, value } => vec![0xB5, *register, *value],
            Command::uPD7759Write { register, value } => vec![0xB6, *register, *value],
            Command::OKIM6258Write { register, value } => vec![0xB7, *register, *value],
            Command::OKIM6295Write { register, value } => vec![0xB8, *register, *value],
            Command::HuC6280Write { register, value } => vec![0xB9, *register, *value],
            Command::K053260Write { register, value } => vec![0xBA, *register, *value],
            Command::PokeyWrite { register, value } => vec![0xBB, *register, *value],
            Command::WonderSwanWrite { register, value } => vec![0xBC, *register, *value],
            Command::SAA1099Write { register, value } => vec![0xBD, *register, *value],
            Command::ES5506Write { register, value } => vec![0xBE, *register, *value],
            Command::GA20Write { register, value } => vec![0xBF, *register, *value],
            Command::SegaPCMWrite { offset, value } => {
                let (lo, hi) = u16_to_bytes(*offset);
                vec![0xC0, lo, hi, *value]
            },
            Command::MultiPCMSetBank { channel, offset } => {
                let (lo, hi) = u16_to_bytes(*offset);
                vec![0xC3, *channel, lo, hi]
            },
            Command::QSoundWrite { register, value } => {
                let (lo, hi) = u16_to_bytes(*value);
                vec![0xC4, hi, lo, *register]
            },
            Command::SCSPWrite { offset, value } => {
                let (lo, hi) = u16_to_bytes(*offset);
                vec![0xC5, hi, lo, *value]
            },
            Command::WonderSwanWrite16 { offset, value } => {
                let (lo, hi) = u16_to_bytes(*offset);
                vec![0xC6, hi, lo, *value]
            },
            Command::VSUWrite { offset, value } => {
                let (lo, hi) = u16_to_bytes(*offset);
                vec![0xC7, hi, lo, *value]
            },
            Command::X1010Write { offset, value } => {
                let (lo, hi) = u16_to_bytes(*offset);
                vec![0xC8, hi, lo, *value]
            },
            Command::YMF278BWrite { port, register, value } => vec![0xD0, *port, *register, *value],
            Command::YMF271Write { port, register, value } => vec![0xD1, *port, *register, *value],
            Command::SCC1Write { port, register, value } => vec![0xD2, *port, *register, *value],
            Command::K054539Write { register, value } => {
                let (lo, hi) = u16_to_bytes(*register);
                vec![0xD3, lo, hi, *value]
            },
            Command::C140Write { register, value } => {
                let (lo, hi) = u16_to_bytes(*register);
                vec![0xD4, lo, hi, *value]
            },
            Command::ES5503Write { register, value } => {
                let (lo, hi) = u16_to_bytes(*register);
                vec![0xD5, lo, hi, *value]
            },
            Command::ES5506Write16 { register, value } => {
                let (lo, hi) = u16_to_bytes(*value);
                vec![0xD6, *register, lo, hi]
            },
            Command::SeekPCM { offset } => {
                let (b0, b1, b2, b3) = u32_to_bytes(*offset);
                vec![0xE0, b0, b1, b2, b3]
            },
            Command::C352Write { register, value } => {
                let (rlo, rhi) = u16_to_bytes(*register);
                let (vlo, vhi) = u16_to_bytes(*value);
                vec![0xE1, rlo, rhi, vlo, vhi]
            },
            Command::RF5C68WriteOffset { offset, value } => {
                let (lo, hi) = u16_to_bytes(*offset);
                vec![0xC1, lo, hi, *value]
            },
            Command::RF5C164WriteOffset { offset, value } => {
                let (lo, hi) = u16_to_bytes(*offset);
                vec![0xC1, lo, hi, *value]
            },
        }
    }

    /// Consumes this instruction and returns its wire bytes; same contract as
    /// [`Command::encode`].
    pub fn to_bytes(self) -> (r: Vec<u8>)
        requires
            self@.encodable(),
        ensures
            r@ == self@.encoded(),
    {
        self.encode()
    }

    /// Decodes the instruction at the front of the cursor, advancing the
    /// cursor past it. On an unrecognized opcode the offending opcode byte
    /// is consumed and nothing further; on truncated input the cursor is
    /// left unchanged. The terminator decodes like any other instruction
    /// here; only [`parse_commands`] treats it specially.
    pub fn from_bytes(bytes: &mut bytes::Bytes) -> (r: Result<Command, CommandError>)
        ensures
            match spec_decode(bytes_content(*old(bytes))) {
                Ok((c, n)) => ({
                    &&& r matches Ok(cmd)
                    &&& cmd@ == c
                    &&& bytes_content(*final(bytes)) == bytes_content(*old(bytes)).skip(n as int)
                }),
                Err(e) => ({
                    &&& r == Err::<Command, CommandError>(e)
                    &&& e is UnrecognizedOpcode ==> bytes_content(*final(bytes)) == bytes_content(
                        *old(bytes),
                    ).skip(1)
                    &&& e is TruncatedInput ==> bytes_content(*final(bytes)) == bytes_content(
                        *old(bytes),
                    )
                }),
            },
    {
        proof {
            assert(bytes_content(*bytes).skip(0) =~= bytes_content(*bytes));
        }
        let r = decode_at(bytes_as_slice(bytes), 0);
        match r {
            Ok((c, n)) => {
                bytes_advance(bytes, n);
                Ok(c)
            },
            Err(e) => {
                match e {
                    CommandError::UnrecognizedOpcode { .. } => {
                        proof {
                            assert(bytes_content(*bytes).len() >= 1);
                        }
                        bytes_advance(bytes, 1);
                    },
                    CommandError::TruncatedInput => {},
                }
                Err(e)
            },
        }
    }

    /// Runtime test for [`CommandView::encodable`], for callers that cannot
    /// prove it.
    pub fn can_encode(&self) -> (b: bool)
        ensures
            b == self@.encodable(),
    {
        match self {
            Command::PCMRAMWrite { .. } => false,
            Command::DACStreamControlWrite { .. } => false,
            Command::WaitNSamplesPlus1 { n } => *n <= 0xF,
            Command::YM2612Port0Address2AWriteWait { n } => *n <= 0xF,
            _ => true,
        }
    }
}

/// The concatenation of the encodings of `cs`, in order, with no separators.
pub open spec fn encoded_seq(cs: Seq<CommandView>) -> Seq<u8>
    decreases cs.len(),
{
    if cs.len() == 0 {
        Seq::empty()
    } else {
        cs[0].encoded() + encoded_seq(cs.skip(1))
    }
}

pub proof fn lemma_encoded_seq_push(cs: Seq<CommandView>, c: CommandView)
    ensures
        encoded_seq(cs.push(c)) == encoded_seq(cs) + c.encoded(),
    decreases cs.len(),
{
    if cs.len() == 0 {
        assert(cs.push(c).skip(1) =~= Seq::<CommandView>::empty());
        assert(cs.push(c)[0] == c);
        assert(encoded_seq(cs.push(c)) == c.encoded() + encoded_seq(Seq::<CommandView>::empty()));
        assert(encoded_seq(Seq::<CommandView>::empty()) == Seq::<u8>::empty());
        assert(c.encoded() + Seq::<u8>::empty() =~= Seq::<u8>::empty() + c.encoded());
        assert(encoded_seq(cs) == Seq::<u8>::empty());
    } else {
        assert(cs.push(c).skip(1) =~= cs.skip(1).push(c));
        lemma_encoded_seq_push(cs.skip(1), c);
        assert(cs[0].encoded() + (encoded_seq(cs.skip(1)) + c.encoded()) =~= (cs[0].encoded()
            + encoded_seq(cs.skip(1))) + c.encoded());
    }
}

/// Parses instructions from the cursor until the terminator, advancing the
/// cursor past the terminator. The terminator is consumed but not part of
/// the returned sequence. On an error the pass stops at the first bad byte:
/// every fully decoded record stays consumed, the offending opcode byte is
/// consumed too when it is unrecognized, and the bytes of a truncated record
/// are not consumed.
pub fn parse_commands(data: &mut bytes::Bytes) -> (r: Result<Vec<Command>, CommandError>)
    ensures
        match spec_parse(bytes_content(*old(data))) {
            Ok((cs, n)) => ({
                &&& r matches Ok(cmds)
                &&& cmds.deep_view() == cs
                &&& bytes_content(*final(data)) == bytes_content(*old(data)).skip(n as int)
            }),
            Err(e) => ({
                &&& r == Err::<Vec<Command>, CommandError>(e)
                &&& bytes_content(*final(data)) == bytes_content(*old(data)).skip(
                    spec_parse_err_pos(bytes_content(*old(data))) as int,
                )
            }),
        },
{
    let r = parse_at(bytes_as_slice(data));
    match r {
        Ok((cmds, n)) => {
            bytes_advance(data, n);
            Ok(cmds)
        },
        Err((e, p)) => {
            bytes_advance(data, p);
            Err(e)
        },
    }
}

/// Appends the encoding of every instruction of `commands`, in order, to
/// `buffer`. No terminator is appended: a terminator goes on the wire only as
/// an explicit `EndOfSoundData` in the input.
pub fn write_commands(buffer: &mut bytes::BytesMut, commands: &Vec<Command>)
    requires
        forall|i: int|
            0 <= i < commands@.len() ==> (#[trigger] commands@[i])@.encodable(),
    ensures
        bytes_mut_content(*final(buffer)) == bytes_mut_content(*old(buffer)) + encoded_seq(
            commands.deep_view(),
        ),
{
    let ghost base = bytes_mut_content(*buffer);
    let ghost cviews = commands.deep_view();
    proof {
        assert(base + encoded_seq(cviews.take(0)) =~= base);
    }
    let n = commands.len();
    let mut i: usize = 0;
    while i < n
        invariant
            i <= n,
            n == commands@.len(),
            cviews == commands.deep_view(),
            forall|k: int| 0 <= k < commands@.len() ==> (#[trigger] commands@[k])@.encodable(),
            bytes_mut_content(*buffer) == base + encoded_seq(cviews.take(i as int)),
        decreases n - i,
    {
        let c = &commands[i];
        let b = c.encode();
        bytes_mut_put(buffer, b.as_slice());
        proof {
            lemma_encoded_seq_push(cviews.take(i as int), cviews[i as int]);
            assert(cviews.take(i + 1) =~= cviews.take(i as int).push(cviews[i as int]));
            assert((base + encoded_seq(cviews.take(i as int))) + c@.encoded() =~= base
                + (encoded_seq(cviews.take(i as int)) + c@.encoded()));
        }
        i = i + 1;
    }
    proof {
        assert(cviews.take(n as int) =~= cviews);
    }
}

} // verus!
