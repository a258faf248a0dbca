//! The round-trip laws of the codec.
//!
//! Decoding inverts encoding for every instruction that has both directions;
//! encoding inverts decoding for every decoded span except the documented
//! quirks; and a whole encoded stream, terminator appended, parses back to
//! the instructions it came from.

use crate::command::{encoded_seq, CommandError, CommandView};
use crate::decode::spec_decode;
use crate::decode::spec_parse;
use crate::wire::{
    byte32, le32, lemma_be16_of_bytes, lemma_be16_of_value, lemma_le16_of_bytes,
    lemma_le16_of_value, lemma_le32_of_bytes, lemma_le32_of_value,
};
use vstd::prelude::*;

verus! {

/// The instructions for which encode and decode are exact inverses: the
/// instruction has a wire format, it is not the 0xC4 variant (whose 16-bit
/// field is read little-endian but written big-endian, a preserved quirk),
/// it is not the 0xC1-encoded variant that the decoder never produces, and a
/// data block's declared length agrees with its payload.
pub open spec fn round_trips(c: CommandView) -> bool {
    &&& c.encodable()
    &&& !(c is QSoundWrite)
    &&& !(c is RF5C164WriteOffset)
    &&& (c matches CommandView::DataBlock { data_size, data, .. } ==> data.len() == data_size)
}

/// Law: decoding the encoding of an instruction, whatever follows it, yields
/// that instruction back and consumes exactly its encoding.
pub proof fn lemma_decode_of_encoded(c: CommandView, rest: Seq<u8>)
    requires
        round_trips(c),
    ensures
        spec_decode(c.encoded() + rest) == Ok::<(CommandView, nat), CommandError>(
            (c, c.encoded().len() as nat),
        ),
{
    broadcast use lemma_le16_of_value, lemma_be16_of_value, lemma_le32_of_value;

    let s = c.encoded() + rest;
    match c {
        CommandView::DataBlock { data_type, data_size, data } => {
            let e = c.encoded();
            assert(s[0] == 0x67);
            assert(s[2] == data_type);
            assert(s[3] == byte32(data_size, 0));
            assert(s[4] == byte32(data_size, 1));
            assert(s[5] == byte32(data_size, 2));
            assert(s[6] == byte32(data_size, 3));
            assert(le32(s[3], s[4], s[5], s[6]) == data_size);
            assert(s.len() == 7 + data.len() + rest.len());
            assert(s.subrange(7, 7 + data_size) =~= data);
            assert(e.len() == 7 + data_size);
        },
        _ => {
            assert(spec_decode(s) == Ok::<(CommandView, nat), CommandError>(
                (c, c.encoded().len() as nat),
            ));
        },
    }
}

/// Law: an instruction decoded from a stream re-encodes to exactly the bytes
/// it was decoded from, except for the 0xC4 quirk and the placeholder
/// variants (which have no encoding), and provided a data block's
/// compatibility byte holds its canonical value 0x66.
pub proof fn lemma_encoded_of_decode(s: Seq<u8>, c: CommandView, n: nat)
    requires
        spec_decode(s) == Ok::<(CommandView, nat), CommandError>((c, n)),
        c.encodable(),
        !(c is QSoundWrite),
        c is DataBlock ==> s.len() >= 2 && s[1] == 0x66,
    ensures
        n <= s.len(),
        c.encoded() == s.take(n as int),
{
    broadcast use lemma_le16_of_bytes, lemma_be16_of_bytes, lemma_le32_of_bytes;

    let op = s[0];
    if op == 0x62 || op == 0x63 || op == 0x66 || (0x70 <= op && op <= 0x7F) || (0x80 <= op && op
        <= 0x8F) {
        assert(c.encoded() =~= s.take(1));
    } else if op == 0x31 || op == 0x4F || op == 0x50 {
        assert(c.encoded() =~= s.take(2));
    } else if crate::decode::is_reg_val_op(op) || op == 0x61 {
        assert(c.encoded() =~= s.take(3));
    } else if op == 0xB2 || op == 0xD6 || op == 0xC3 || crate::decode::is_le16_val_op(op)
        || crate::decode::is_be16_val_op(op) || op == 0xD0 || op == 0xD1 || op == 0xD2 {
        assert(c.encoded() =~= s.take(4));
    } else if op == 0xE0 || op == 0xE1 {
        assert(c.encoded() =~= s.take(5));
    } else if op == 0x67 {
        let size = le32(s[3], s[4], s[5], s[6]);
        assert(c == (CommandView::DataBlock {
            data_type: s[2],
            data_size: size,
            data: s.subrange(7, 7 + size),
        }));
        assert(c.encoded() =~= s.take(7 + size));
    }
}

/// Law: a stream made of the encodings of round-tripping, non-terminator
/// instructions followed by the terminator byte parses back to exactly those
/// instructions, consuming the whole stream.
pub proof fn lemma_parse_of_encoded(cs: Seq<CommandView>)
    requires
        forall|i: int|
            0 <= i < cs.len() ==> round_trips(#[trigger] cs[i]) && !(cs[i] is EndOfSoundData),
    ensures
        spec_parse(encoded_seq(cs).push(0x66)) == Ok::<(Seq<CommandView>, nat), CommandError>(
            (cs, (encoded_seq(cs).len() + 1) as nat),
        ),
    decreases cs.len(),
{
    let s = encoded_seq(cs).push(0x66u8);
    if cs.len() == 0 {
        assert(s =~= seq![0x66u8]);
        assert(cs =~= Seq::<CommandView>::empty());
        assert(encoded_seq(cs).len() == 0);
        assert(spec_decode(s) == Ok::<(CommandView, nat), CommandError>(
            (CommandView::EndOfSoundData, 1),
        ));
    } else {
        let c = cs[0];
        let e = c.encoded();
        let tail = cs.skip(1);
        let tail_stream = encoded_seq(tail).push(0x66u8);
        assert(encoded_seq(cs) == e + encoded_seq(tail));
        assert(s =~= e + tail_stream);
        lemma_decode_of_encoded(c, tail_stream);
        assert(spec_decode(s) == Ok::<(CommandView, nat), CommandError>((c, e.len() as nat)));
        assert(!(c == (CommandView::EndOfSoundData {})));
        assert(e.len() >= 1);
        assert(s.skip(e.len() as int) =~= tail_stream);
        assert forall|i: int| 0 <= i < tail.len() implies round_trips(#[trigger] tail[i]) && !(
        tail[i] is EndOfSoundData) by {
            assert(tail[i] == cs[i + 1]);
        }
        lemma_parse_of_encoded(tail);
        assert(seq![c] + tail =~= cs);
    }
}

/// Law: the two RAM-offset-write variants with the same fields encode to the
/// same bytes, beginning with opcode 0xC1, and that span decodes to the
/// `RF5C68WriteOffset` variant alone.
pub proof fn lemma_ram_offset_write_ambiguity(offset: u16, value: u8)
    ensures
        (CommandView::RF5C164WriteOffset { offset, value }).encoded() == (
        CommandView::RF5C68WriteOffset { offset, value }).encoded(),
        (CommandView::RF5C164WriteOffset { offset, value }).encoded()[0] == 0xC1,
        spec_decode((CommandView::RF5C164WriteOffset { offset, value }).encoded())
            == Ok::<(CommandView, nat), CommandError>(
            (CommandView::RF5C68WriteOffset { offset, value }, 4),
        ),
{
    let c = CommandView::RF5C68WriteOffset { offset, value };
    lemma_decode_of_encoded(c, Seq::empty());
    assert(c.encoded() + Seq::<u8>::empty() =~= c.encoded());
}

} // verus!
