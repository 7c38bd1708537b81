//! Laws of the wire layout that hold for every message.

use vstd::prelude::*;
use vstd::utf8::encode_utf8;
use crate::arg::{lemma_payload_len, ArgValue};
use crate::message::{
    append_in_place, payloads, tag_chars, tag_string, MessageView, COMMA,
};
use crate::wire::{lemma_padded_len, osc_string, zeros};

verus! {

/// Offset, within the payload region, at which the payload of argument
/// number `n` begins: the total size of the payloads before it.
pub open spec fn payload_offset(args: Seq<ArgValue>, n: int) -> nat {
    payloads(args.take(n)).len()
}

/// The buffer of a message that was created for `address` and then had
/// `args` appended one at a time, each by the in-place edit.
pub open spec fn incremental(address: Seq<char>, args: Seq<ArgValue>) -> Seq<u8>
    decreases args.len(),
{
    let tags_start = osc_string(encode_utf8(address)).len() as int;
    if args.len() == 0 {
        osc_string(encode_utf8(address)) + seq![COMMA, 0u8, 0u8, 0u8]
    } else {
        let before = args.drop_last();
        append_in_place(
            incremental(address, before),
            tags_start,
            before.len() as int,
            tags_start + 4 * ((before.len() + 1) / 4 + 1),
            args.last().tag().wire_char(),
            args.last().payload(),
        )
    }
}

/// The type tag string occupies the fewest whole words that hold the comma,
/// the tag characters and the terminating zero byte.
pub proof fn lemma_tag_string_len(chars: Seq<u8>)
    ensures
        tag_string(chars).len() == 4 * ((chars.len() + 1) / 4 + 1),
        tag_string(chars).len() >= chars.len() + 2,
{
}

/// Appending one tag character rewrites the type tag string in place: the
/// character takes the place of the old terminator, and one word of zero
/// bytes is added at the end exactly when the old string had no padding
/// left to hold the new terminator.
pub proof fn lemma_tag_string_push(chars: Seq<u8>, c: u8)
    ensures
        (chars.len() + 2) % 4 == 0 ==> tag_string(chars.push(c)) == (tag_string(chars) + zeros(
            4,
        )).update(chars.len() as int + 1, c),
        (chars.len() + 2) % 4 != 0 ==> tag_string(chars.push(c)) == tag_string(chars).update(
            chars.len() as int + 1,
            c,
        ),
{
}

/// Adding an argument appends its tag character to the tag characters and
/// its payload to the payload region.
pub proof fn lemma_payloads_push(args: Seq<ArgValue>, value: ArgValue)
    ensures
        payloads(args.push(value)) == payloads(args) + value.payload(),
        tag_chars(args.push(value)) == tag_chars(args).push(value.tag().wire_char()),
{
    assert(args.push(value).drop_last() =~= args);
}

/// The payload region is a whole number of words.
pub proof fn lemma_payloads_aligned(args: Seq<ArgValue>)
    ensures
        payloads(args).len() % 4 == 0,
    decreases args.len(),
{
    if args.len() > 0 {
        lemma_payloads_aligned(args.drop_last());
        lemma_payload_len(args.last());
    }
}

/// Alignment: each of the three regions of a message is a whole number of
/// four-byte words, and so is the datagram. The address and type tag
/// regions are never empty.
pub proof fn lemma_regions_aligned(m: MessageView)
    ensures
        m.address_block().len() % 4 == 0,
        m.address_block().len() >= 4,
        m.tag_block().len() % 4 == 0,
        m.tag_block().len() >= 4,
        m.payload_block().len() % 4 == 0,
        m.wire().len() % 4 == 0,
        m.wire().len() == m.address_block().len() + m.tag_block().len() + m.payload_block().len(),
{
    lemma_padded_len(encode_utf8(m.address).push(0u8));
    lemma_tag_string_len(tag_chars(m.args));
    lemma_payloads_aligned(m.args);
}

/// The three regions lie in the datagram one after the other, in the order
/// address, type tags, payloads.
pub proof fn lemma_regions_contiguous(m: MessageView)
    ensures
        ({
            let tags_start = m.address_block().len() as int;
            let args_start = tags_start + m.tag_block().len();
            &&& m.wire().subrange(0, tags_start) == m.address_block()
            &&& m.wire().subrange(tags_start, args_start) == m.tag_block()
            &&& m.wire().subrange(args_start, m.wire().len() as int) == m.payload_block()
        }),
{
}

/// The payloads of the first `n` arguments are the first bytes of the
/// payload region.
pub proof fn lemma_payloads_prefix(args: Seq<ArgValue>, n: int)
    requires
        0 <= n <= args.len(),
    ensures
        payload_offset(args, n) <= payloads(args).len(),
        payloads(args).subrange(0, payload_offset(args, n) as int) == payloads(args.take(n)),
    decreases args.len(),
{
    if n == args.len() {
        assert(args.take(n) =~= args);
    } else {
        lemma_payloads_prefix(args.drop_last(), n);
        assert(args.drop_last().take(n) =~= args.take(n));
    }
}

/// Ordering: the tag character at position `n` of the type tag string
/// (after the comma) is the tag of argument number `n`, and the bytes of the
/// payload region between the offsets of arguments `n` and `n + 1` are that
/// argument's payload.
pub proof fn lemma_argument_order(m: MessageView, n: int)
    requires
        0 <= n < m.args.len(),
    ensures
        m.tag_block()[0] == COMMA,
        m.tag_block()[n + 1] == m.args[n].tag().wire_char(),
        payload_offset(m.args, n) + m.args[n].payload().len() == payload_offset(m.args, n + 1),
        payload_offset(m.args, n + 1) <= m.payload_block().len(),
        m.payload_block().subrange(
            payload_offset(m.args, n) as int,
            payload_offset(m.args, n + 1) as int,
        ) == m.args[n].payload(),
{
    let args = m.args;
    let upto = args.take(n + 1);
    assert(upto.drop_last() =~= args.take(n));
    lemma_payloads_prefix(args, n + 1);
    assert(m.payload_block().subrange(
        payload_offset(args, n) as int,
        payload_offset(args, n + 1) as int,
    ) =~= payloads(upto).subrange(
        payload_offset(args, n) as int,
        payload_offset(args, n + 1) as int,
    ));
}

/// Growth of the type tag region: adding an argument leaves the address
/// region alone, appends the argument's payload to the payload region, and
/// grows the type tag region by exactly one word when the comma and the
/// tags so far fill whole words but for the terminator, that is when the
/// new tag is character number 4, 8, 12, ... of the type tag string;
/// otherwise the region keeps its length.
pub proof fn lemma_tag_block_growth(m: MessageView, value: ArgValue)
    ensures
        m.push(value).address_block() == m.address_block(),
        m.push(value).payload_block() == m.payload_block() + value.payload(),
        m.tag_block().len() == 4 * ((m.args.len() + 1) / 4 + 1),
        (m.args.len() + 2) % 4 == 0 ==> m.push(value).tag_block().len() == m.tag_block().len()
            + 4,
        (m.args.len() + 2) % 4 != 0 ==> m.push(value).tag_block().len() == m.tag_block().len(),
{
    lemma_payloads_push(m.args, value);
    lemma_tag_string_len(tag_chars(m.args));
    lemma_tag_string_len(tag_chars(m.args.push(value)));
}

/// One step of the equivalence below: serialising a message with one more
/// argument from scratch gives, byte for byte, the buffer that the in-place
/// edit makes of the serialised message before it.
pub proof fn lemma_append_matches_rebuild(m: MessageView, value: ArgValue)
    ensures
        m.push(value).wire() == append_in_place(
            m.wire(),
            m.address_block().len() as int,
            m.args.len() as int,
            (m.address_block().len() + m.tag_block().len()) as int,
            value.tag().wire_char(),
            value.payload(),
        ),
{
    let chars = tag_chars(m.args);
    let c = value.tag().wire_char();
    lemma_payloads_push(m.args, value);
    lemma_tag_string_len(chars);
    lemma_tag_string_len(chars.push(c));
    lemma_tag_string_push(chars, c);
}

/// Equivalence to a full rebuild: for every address and every sequence of
/// arguments, the buffer built by appending the arguments one at a time in
/// place equals, byte for byte, the message serialised from scratch.
pub proof fn lemma_incremental_equals_rebuild(address: Seq<char>, args: Seq<ArgValue>)
    ensures
        incremental(address, args) == (MessageView { address, args }).wire(),
    decreases args.len(),
{
    if args.len() > 0 {
        let before = MessageView { address, args: args.drop_last() };
        lemma_incremental_equals_rebuild(address, before.args);
        lemma_tag_string_len(tag_chars(before.args));
        lemma_append_matches_rebuild(before, args.last());
    }
}

} // verus!
