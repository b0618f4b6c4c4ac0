//! What encoding, decoding and chaining guarantee together: round trips,
//! short-length truncation, rejection of mixed encodings, and the reassembly of a
//! chain into the command it was split from.
use vstd::prelude::*;

use super::class::chained_byte;
use super::instruction::{byte_of, instruction_of};
use super::{
    available_data_len, be16, be_value, builder_matches, chain_fragments, effective_le,
    encoding, extend_model, lc_extended, lc_field_of, le_bits, le_decoded, le_field_of,
    le_needs_extended, lemma_split_rest_ok, max_payload, parse_command, parse_lengths_spec,
    split_first, split_ok, split_rest, BuilderModel, CommandModel, ExpectedLen, ExtendedLen,
    FromSliceError, ParsedLengths,
};

verus! {

/// Whether the encoding of `b` uses the extended length fields.
pub open spec fn uses_extended_fields(b: BuilderModel) -> bool {
    lc_field_of(b).len() == 3 || le_field_of(b).len() == 3
}

/// What decoding the encoding of `b` gives back.
pub open spec fn decoded_builder(b: BuilderModel) -> CommandModel {
    CommandModel {
        class: b.class,
        instruction: instruction_of(byte_of(b.instruction)),
        p1: b.p1,
        p2: b.p2,
        data: b.data,
        le: le_decoded(effective_le(b.le, b.extended_length)),
        extended: uses_extended_fields(b),
    }
}

proof fn lemma_be16(v: u16)
    ensures
        be_value(be16(v)[0], be16(v)[1]) == v,
{
    assert(v == (v / 256) * 256 + v % 256);
}

/// Decoding what a builder encodes gives back its header, its data and the
/// response length that was encoded, whenever the class is valid and the data
/// fits the policy.
pub proof fn lemma_encoding_decodes(b: BuilderModel)
    requires
        b.class != 0xFF,
        b.data.len() <= max_payload(b.extended_length),
    ensures
        parse_command(encoding(b)) == Ok::<CommandModel, FromSliceError>(decoded_builder(b)),
{
    let apdu = encoding(b);
    let lc = lc_field_of(b);
    let lef = le_field_of(b);
    let len = b.data.len();
    let le = effective_le(b.le, b.extended_length);
    let body = apdu.subrange(4, apdu.len() as int);
    assert(body =~= lc + b.data + lef);
    lemma_be16(le_bits(le));
    lemma_be16(len as u16);
    let p = parse_lengths_spec(body);
    if len == 0 {
        assert(lc.len() == 0);
        if le == ExpectedLen::Ne(0) {
            assert(body.len() == 0);
        } else if !le_needs_extended(le) && b.extended_length != ExtendedLen::Forced {
            assert(body.len() == 1);
        } else {
            assert(body.len() == 3);
            assert(body[0] == 0);
        }
        assert(p matches Ok(q) && q.lc == 0 && q.offset == 0);
        assert(body.subrange(0, 0) =~= b.data);
    } else if !lc_extended(len, le, b.extended_length) {
        assert(lc =~= seq![len as u8]);
        assert(body[0] == len);
        if le == ExpectedLen::Ne(0) {
            assert(body.len() == 1 + len);
        } else {
            assert(body.len() == 2 + len);
            assert(body[body.len() - 1] == lef[0]);
        }
        assert(p matches Ok(q) && q.lc == len && q.offset == 1);
        assert(body.subrange(1, 1 + len as int) =~= b.data);
    } else {
        assert(body[0] == 0);
        assert(body[1] == lc[1] && body[2] == lc[2]);
        if le == ExpectedLen::Ne(0) {
            assert(body.len() == 3 + len);
        } else {
            assert(body.len() == 5 + len);
            assert(body[body.len() - 2] == lef[0] && body[body.len() - 1] == lef[1]);
        }
        assert(p matches Ok(q) && q.lc == len && q.offset == 3);
        assert(body.subrange(3, 3 + len as int) =~= b.data);
    }
}

/// Round trip: a command built with extended length support decodes to its own
/// header, data and response length (a zero Le byte being read as the maximum).
pub proof fn lemma_round_trip(b: BuilderModel)
    requires
        b.class != 0xFF,
        b.data.len() <= 0xFFFF,
        b.extended_length != ExtendedLen::Unsupported,
    ensures
        parse_command(encoding(b)) matches Ok(v) && {
            &&& v.class == b.class
            &&& byte_of(v.instruction) == byte_of(b.instruction)
            &&& v.p1 == b.p1
            &&& v.p2 == b.p2
            &&& v.data == b.data
            &&& v.le == le_decoded(b.le)
        },
{
    lemma_encoding_decodes(b);
    crate::command::instruction::lemma_byte_round_trip(byte_of(b.instruction));
}

/// Without extended length support, a command whose data fits one short APDU (as
/// every command of such a chain does) asks for at most 256 response bytes, and
/// is encoded with the short length fields.
pub proof fn lemma_short_truncation(b: BuilderModel)
    requires
        b.class != 0xFF,
        b.data.len() <= 255,
        b.extended_length == ExtendedLen::Unsupported,
    ensures
        parse_command(encoding(b)) matches Ok(v) && {
            &&& v.le <= 256
            &&& v.le == if le_decoded(b.le) <= 256 { le_decoded(b.le) } else { 256 }
            &&& !v.extended
        },
{
    lemma_encoding_decodes(b);
}

/// A builder made by `CommandBuilder::new`, serialised and decoded, equals the
/// builder under the cross-type comparison. Left out is an `Unknown` instruction
/// whose byte has a name of its own (it decodes as the named instruction).
pub proof fn lemma_builder_view_symmetry(b: BuilderModel)
    requires
        b.class != 0xFF,
        b.data.len() <= 0xFFFF,
        b.extended_length == ExtendedLen::Supported,
        instruction_of(byte_of(b.instruction)) == b.instruction,
    ensures
        parse_command(encoding(b)) matches Ok(v) && builder_matches(b, v),
{
    lemma_encoding_decodes(b);
}

/// A body whose first byte is not zero and whose length matches no short case is
/// refused; it is never read as a command of another shape.
pub proof fn lemma_mixed_encoding_rejected(body: Seq<u8>)
    requires
        body.len() >= 2,
        body[0] != 0,
        body.len() != 1 + body[0],
        body.len() != 2 + body[0],
    ensures
        parse_lengths_spec(body) == Err::<ParsedLengths, FromSliceError>(
            FromSliceError::InvalidFirstBodyByteForExtended,
        ),
{
}

/// Byte strings joined in order.
pub open spec fn concat(parts: Seq<Seq<u8>>) -> Seq<u8>
    decreases parts.len(),
{
    if parts.len() == 0 {
        Seq::empty()
    } else {
        parts[0] + concat(parts.drop_first())
    }
}

/// The payloads of the commands of a chain.
pub open spec fn payloads(fs: Seq<BuilderModel>) -> Seq<Seq<u8>> {
    fs.map_values(|f: BuilderModel| f.data)
}

/// The data of decoded commands.
pub open spec fn data_of(vs: Seq<CommandModel>) -> Seq<Seq<u8>> {
    vs.map_values(|v: CommandModel| v.data)
}

/// Decoded commands folded into one from the first on, as
/// `Command::extend_from_command_view` does.
pub open spec fn reassemble(vs: Seq<CommandModel>) -> CommandModel
    decreases vs.len(),
{
    if vs.len() <= 1 {
        vs[0]
    } else {
        extend_model(reassemble(vs.drop_last()), vs.last())
    }
}

proof fn lemma_concat_single(x: Seq<u8>)
    ensures
        concat(seq![x]) == x,
{
    let s = seq![x];
    assert(s.drop_first() =~= Seq::<Seq<u8>>::empty());
    assert(concat(s.drop_first()) == Seq::<u8>::empty());
    assert(x + Seq::<u8>::empty() =~= x);
}

proof fn lemma_concat_push(parts: Seq<Seq<u8>>, x: Seq<u8>)
    ensures
        concat(parts.push(x)) == concat(parts) + x,
    decreases parts.len(),
{
    if parts.len() == 0 {
        assert(parts.push(x) =~= seq![x]);
        lemma_concat_single(x);
        assert(concat(parts) == Seq::<u8>::empty());
        assert(Seq::<u8>::empty() + x =~= x);
    } else {
        assert(parts.push(x).drop_first() =~= parts.drop_first().push(x));
        lemma_concat_push(parts.drop_first(), x);
        assert(concat(parts.push(x)) =~= parts[0] + (concat(parts.drop_first()) + x));
    }
}

/// Folding a chain keeps the header and Le of its last command and joins all data.
proof fn lemma_reassemble(vs: Seq<CommandModel>)
    requires
        vs.len() >= 1,
    ensures
        reassemble(vs).class == vs.last().class,
        reassemble(vs).instruction == vs.last().instruction,
        reassemble(vs).p1 == vs.last().p1,
        reassemble(vs).p2 == vs.last().p2,
        reassemble(vs).le == vs.last().le,
        reassemble(vs).data == concat(data_of(vs)),
    decreases vs.len(),
{
    if vs.len() == 1 {
        assert(data_of(vs) =~= seq![vs[0].data]);
        lemma_concat_single(vs[0].data);
    } else {
        lemma_reassemble(vs.drop_last());
        assert(data_of(vs) =~= data_of(vs.drop_last()).push(vs.last().data));
        lemma_concat_push(data_of(vs.drop_last()), vs.last().data);
    }
}

/// A command of the chain of `b` fits the buffer and the policy and keeps the
/// header of `b` but for the class.
pub open spec fn fragment_fits(f: BuilderModel, b: BuilderModel, available_len: nat) -> bool {
    &&& f.data.len() <= max_payload(b.extended_length)
    &&& encoding(f).len() <= available_len
    &&& f.instruction == b.instruction
    &&& f.p1 == b.p1
    &&& f.p2 == b.p2
    &&& f.extended_length == b.extended_length
}

/// The shape of a chain: every command fits the buffer and the policy, all but
/// the last carry the chained class, the last keeps the header and Le, and the
/// payloads join to the data.
proof fn lemma_chain_shape(b: BuilderModel, available_len: nat)
    requires
        available_len >= 9,
        split_ok(b, available_len),
        b.data.len() <= 0xFFFF,
    ensures
        chain_fragments(b, available_len).len() >= 1,
        concat(payloads(chain_fragments(b, available_len))) == b.data,
        chain_fragments(b, available_len).last().class == b.class,
        effective_le(chain_fragments(b, available_len).last().le, b.extended_length)
            == effective_le(b.le, b.extended_length),
        forall|i: int|
            0 <= i < chain_fragments(b, available_len).len() ==> fragment_fits(
                #[trigger] chain_fragments(b, available_len)[i],
                b,
                available_len,
            ),
        forall|i: int|
            0 <= i < chain_fragments(b, available_len).len() - 1 ==> (#[trigger] chain_fragments(
                b,
                available_len,
            )[i]).class == chained_byte(b.class),
    decreases b.data.len(),
{
    let fs = chain_fragments(b, available_len);
    let k = available_data_len(b, available_len);
    if k >= b.data.len() || k == 0 {
        assert(k >= b.data.len());
        assert(fs =~= seq![b]);
        assert(payloads(fs) =~= seq![b.data]);
        lemma_concat_single(b.data);
        if b.data.len() == 0 {
            assert(lc_field_of(b).len() == 0);
            assert(le_field_of(b).len() <= 3);
        }
        assert(fragment_fits(b, b, available_len));
        assert forall|i: int| 0 <= i < fs.len() implies fragment_fits(
            #[trigger] fs[i],
            b,
            available_len,
        ) by {
            assert(fs[i] == b);
        }
    } else {
        let first = split_first(b, k);
        let rest = split_rest(b, k);
        lemma_split_rest_ok(b, available_len);
        lemma_chain_shape(rest, available_len);
        let rs = chain_fragments(rest, available_len);
        assert(fs =~= seq![first] + rs);
        assert(lc_field_of(first).len() <= lc_field_of(b).len());
        assert(le_field_of(first).len() == 0);
        assert(encoding(first).len() <= available_len);
        assert(fragment_fits(first, b, available_len));
        assert(payloads(fs).drop_first() =~= payloads(rs));
        assert(b.data =~= first.data + rest.data);
        assert forall|i: int| 0 <= i < fs.len() implies fragment_fits(
            #[trigger] fs[i],
            b,
            available_len,
        ) by {
            if i > 0 {
                assert(fs[i] == rs[i - 1]);
                assert(fragment_fits(rs[i - 1], rest, available_len));
            }
        }
        assert forall|i: int| 0 <= i < fs.len() - 1 implies (#[trigger] fs[i]).class == chained_byte(
            b.class,
        ) by {
            if i > 0 {
                assert(fs[i] == rs[i - 1]);
            }
        }
    }
}

/// Chaining loses nothing: for a buffer of at least 9 bytes, every command of the
/// chain fits the buffer and decodes, the payloads joined in order are the data,
/// and folding the decoded commands with `extend_from_command_view` gives the
/// header, data and encoded response length of the unsplit command.
///
/// Left out are buffers with no room for a byte of data beside the length fields
/// (there `should_split` refuses to work) and a chained class that would become
/// the invalid byte `0xFF`.
pub proof fn lemma_chain_reassembles(b: BuilderModel, available_len: nat)
    requires
        available_len >= 9,
        split_ok(b, available_len),
        b.data.len() <= 0xFFFF,
        b.class != 0xFF,
        chain_fragments(b, available_len).len() > 1 ==> b.class != 0xEF,
    ensures
        ({
            let fs = chain_fragments(b, available_len);
            let vs = fs.map_values(|f: BuilderModel| decoded_builder(f));
            &&& fs.len() >= 1
            &&& concat(payloads(fs)) == b.data
            &&& forall|i: int|
                0 <= i < fs.len() ==> {
                    &&& encoding(#[trigger] fs[i]).len() <= available_len
                    &&& parse_command(encoding(fs[i])) == Ok::<CommandModel, FromSliceError>(vs[i])
                }
            &&& reassemble(vs).class == b.class
            &&& reassemble(vs).instruction == instruction_of(byte_of(b.instruction))
            &&& reassemble(vs).p1 == b.p1
            &&& reassemble(vs).p2 == b.p2
            &&& reassemble(vs).data == b.data
            &&& reassemble(vs).le == le_decoded(effective_le(b.le, b.extended_length))
        }),
{
    let fs = chain_fragments(b, available_len);
    let vs = fs.map_values(|f: BuilderModel| decoded_builder(f));
    lemma_chain_shape(b, available_len);
    crate::command::class::lemma_as_chained_idempotent(b.class);
    assert forall|i: int| 0 <= i < fs.len() implies {
        &&& encoding(#[trigger] fs[i]).len() <= available_len
        &&& parse_command(encoding(fs[i])) == Ok::<CommandModel, FromSliceError>(vs[i])
    } by {
        assert(fragment_fits(fs[i], b, available_len));
        if i < fs.len() - 1 {
            assert(fs[i].class == chained_byte(b.class));
        }
        lemma_encoding_decodes(fs[i]);
    }
    lemma_reassemble(vs);
    assert(data_of(vs) =~= payloads(fs));
}

/// Without extended length support every command of a chain decodes with the
/// short length fields, and the last one keeps the class and asks for the
/// response length clamped to 256. Left out are the same inputs as for
/// [`lemma_chain_reassembles`].
pub proof fn lemma_non_extended_chain(b: BuilderModel, available_len: nat)
    requires
        available_len >= 9,
        split_ok(b, available_len),
        b.data.len() <= 0xFFFF,
        b.class != 0xFF,
        chain_fragments(b, available_len).len() > 1 ==> b.class != 0xEF,
        b.extended_length == ExtendedLen::Unsupported,
    ensures
        forall|i: int|
            0 <= i < chain_fragments(b, available_len).len() ==> (parse_command(
                encoding(#[trigger] chain_fragments(b, available_len)[i]),
            ) matches Ok(v) && !v.extended),
        parse_command(encoding(chain_fragments(b, available_len).last())) matches Ok(v) && {
            &&& v.class == b.class
            &&& v.le == if le_decoded(b.le) <= 256 {
                le_decoded(b.le)
            } else {
                256
            }
        },
{
    let fs = chain_fragments(b, available_len);
    lemma_chain_shape(b, available_len);
    crate::command::class::lemma_as_chained_idempotent(b.class);
    assert forall|i: int| 0 <= i < fs.len() implies (parse_command(encoding(#[trigger] fs[i])) matches Ok(
        v,
    ) && !v.extended) by {
        assert(fragment_fits(fs[i], b, available_len));
        if i < fs.len() - 1 {
            assert(fs[i].class == chained_byte(b.class));
        }
        lemma_short_truncation(fs[i]);
    }
    let last = fs.last();
    assert(fragment_fits(fs[fs.len() - 1], b, available_len));
    lemma_encoding_decodes(last);
}

} // verus!
