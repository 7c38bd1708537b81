//! The message buffer and its in-place append.

use vstd::prelude::*;
use vstd::utf8::encode_utf8;
use crate::arg::{encode, Arg, ArgValue, OscError, TypeTag};
use crate::dump::{dump, dump_text};
use crate::laws::{
    lemma_append_matches_rebuild, lemma_regions_aligned, lemma_tag_block_growth,
    lemma_tag_string_len,
};
use crate::wire::{extend, insert_zeros, osc_string, pad, zeros, ALIGNMENT};

verus! {

/// ASCII `,`, the first character of every type tag string.
pub const COMMA: u8 = 0x2C;

/// The type tag string for the tag characters `chars`, as it stands on the
/// wire: a comma, the characters, a terminating zero byte and padding.
pub open spec fn tag_string(chars: Seq<u8>) -> Seq<u8> {
    osc_string(seq![COMMA] + chars)
}

/// The tag characters of `args`, in order.
pub open spec fn tag_chars(args: Seq<ArgValue>) -> Seq<u8> {
    args.map_values(|value: ArgValue| value.tag().wire_char())
}

/// The payloads of `args`, concatenated in order.
pub open spec fn payloads(args: Seq<ArgValue>) -> Seq<u8>
    decreases args.len(),
{
    if args.len() == 0 {
        Seq::empty()
    } else {
        payloads(args.drop_last()) + args.last().payload()
    }
}

/// A message as a mathematical value: its address and its arguments in the
/// order they were added.
pub struct MessageView {
    pub address: Seq<char>,
    pub args: Seq<ArgValue>,
}

impl MessageView {
    /// The address region: the address as a wire string.
    pub open spec fn address_block(self) -> Seq<u8> {
        osc_string(encode_utf8(self.address))
    }

    /// The type tag region.
    pub open spec fn tag_block(self) -> Seq<u8> {
        tag_string(tag_chars(self.args))
    }

    /// The payload region.
    pub open spec fn payload_block(self) -> Seq<u8> {
        payloads(self.args)
    }

    /// The whole datagram, serialised from scratch: the three regions in
    /// order.
    pub open spec fn wire(self) -> Seq<u8> {
        self.address_block() + self.tag_block() + self.payload_block()
    }

    /// This message with `value` added as its last argument.
    pub open spec fn push(self, value: ArgValue) -> MessageView {
        MessageView { address: self.address, args: self.args.push(value) }
    }
}

/// The buffer edit that appends one tag character to a type tag string
/// which starts at `tags_start`, holds `tag_count` tags and ends where the
/// payloads start, at `args_start`. If the string has no padding left, one
/// word of zero bytes is inserted at `args_start`, so that every payload
/// moves up by four; then the character is written over the old
/// terminator.
pub open spec fn with_tag(
    buffer: Seq<u8>,
    tags_start: int,
    tag_count: int,
    args_start: int,
    tag_char: u8,
) -> Seq<u8> {
    let grown = if (tag_count + 2) % 4 == 0 {
        buffer.subrange(0, args_start) + zeros(4) + buffer.subrange(
            args_start,
            buffer.len() as int,
        )
    } else {
        buffer
    };
    grown.update(tags_start + 1 + tag_count, tag_char)
}

/// The buffer edit that appends one argument: its tag character goes into
/// the type tag string as [`with_tag`] says, and its payload goes at the
/// end of the buffer.
pub open spec fn append_in_place(
    buffer: Seq<u8>,
    tags_start: int,
    tag_count: int,
    args_start: int,
    tag_char: u8,
    payload: Seq<u8>,
) -> Seq<u8> {
    with_tag(buffer, tags_start, tag_count, args_start, tag_char) + payload
}

/// An Open Sound Control message under construction.
///
/// The buffer it owns is the finished datagram at every moment; adding an
/// argument edits it in place.
pub struct OscMessage {
    bytes: Vec<u8>,
    typelist: Vec<TypeTag>,
    typelist_start: usize,
    args_start: usize,
    model_address: Ghost<Seq<char>>,
    model_args: Ghost<Seq<ArgValue>>,
}

impl View for OscMessage {
    type V = MessageView;

    closed spec fn view(&self) -> MessageView {
        MessageView { address: self.model_address@, args: self.model_args@ }
    }
}

impl OscMessage {
    /// The buffer holds exactly the serialisation of the message, the tag
    /// list names the type of each argument in order, and the two offsets
    /// point at the start of the type tag region and of the payload region.
    pub closed spec fn wf(&self) -> bool {
        &&& self.bytes@ == self@.wire()
        &&& self.typelist@ == self.model_args@.map_values(|value: ArgValue| value.tag())
        &&& self.typelist_start == self@.address_block().len()
        &&& self.args_start == self.typelist_start + self@.tag_block().len()
    }

    /// Creates a message for `address` with no arguments.
    pub fn new(address: &str) -> (msg: OscMessage)
        ensures
            msg.wf(),
            msg@ == (MessageView { address: address@, args: Seq::empty() }),
            msg@.wire().len() % 4 == 0,
    {
        let mut bytes: Vec<u8> = Vec::with_capacity(64);
        let typelist: Vec<TypeTag> = Vec::with_capacity(8);

        extend(&mut bytes, address.as_bytes());
        bytes.push(0);
        pad(&mut bytes);

        let typelist_start: usize = bytes.len();

        bytes.push(COMMA);
        bytes.push(0);
        bytes.push(0);
        bytes.push(0);

        let args_start: usize = bytes.len();
        let msg = OscMessage {
            bytes,
            typelist,
            typelist_start,
            args_start,
            model_address: Ghost(address@),
            model_args: Ghost(Seq::empty()),
        };
        proof {
            assert(msg.bytes@ =~= msg@.wire());
            assert(msg.typelist@ =~= msg.model_args@.map_values(|value: ArgValue| value.tag()));
            lemma_regions_aligned(msg@);
        }
        msg
    }

    /// Appends `arg` to the message.
    ///
    /// Either the whole append happens, or, for an argument that cannot be
    /// encoded, the message is left exactly as it was.
    pub fn add(&mut self, arg: Arg) -> (res: Result<(), OscError>)
        requires
            old(self).wf(),
        ensures
            final(self).wf(),
            final(self)@.wire().len() % 4 == 0,
            match arg.value() {
                Some(value) => res is Ok && final(self)@ == old(self)@.push(value),
                None => res == Err::<(), OscError>(OscError::UnsupportedType) && *final(self)
                    == *old(self),
            },
    {
        let (tag, mut payload) = match encode(&arg) {
            Ok(encoded) => encoded,
            Err(e) => {
                proof {
                    lemma_regions_aligned(self@);
                }
                return Err(e);
            },
        };
        let ghost value = arg.value().unwrap();
        self.add_type(tag);
        self.bytes.append(&mut payload);
        self.model_args = Ghost(self.model_args@.push(value));
        proof {
            lemma_append_matches_rebuild(old(self)@, value);
            lemma_tag_block_growth(old(self)@, value);
            lemma_regions_aligned(self@);
            assert(self.typelist@ =~= self.model_args@.map_values(|value: ArgValue| value.tag()));
        }
        Ok(())
    }

    /// Returns the datagram built so far.
    pub fn get_bytes(&self) -> (bytes: &[u8])
        requires
            self.wf(),
        ensures
            bytes@ == self@.wire(),
            bytes@.len() % 4 == 0,
    {
        proof {
            lemma_regions_aligned(self@);
        }
        self.bytes.as_slice()
    }

    /// Returns a copy of the datagram built so far.
    pub fn get_bytes_copy(&self) -> (bytes: Vec<u8>)
        requires
            self.wf(),
        ensures
            bytes@ == self@.wire(),
            bytes@.len() % 4 == 0,
    {
        proof {
            lemma_regions_aligned(self@);
        }
        self.bytes.clone()
    }

    /// Renders the datagram built so far as text, four bytes to a line: a
    /// dot for a zero byte, the decimal value for any other.
    pub fn debug(&self) -> (text: String)
        requires
            self.wf(),
        ensures
            text@ == dump_text(self@.wire()),
    {
        dump(self.bytes.as_slice())
    }

    /// Reserved for replacing an argument in place. A message is
    /// append-only, so this has no effect.
    pub fn change(_arg_no: u32) {
    }

    /// Reserved for removing one argument. A message is append-only, so
    /// this has no effect.
    pub fn remove(_arg_no: u32) {
    }

    /// Reserved for removing every argument. A message is append-only, so
    /// this has no effect.
    #[allow(non_snake_case)]
    pub fn removeAll() {
    }

    /// Reserved for renaming a message. The address is fixed when the
    /// message is created, so this has no effect.
    pub fn address(_address: &str) {
    }

    /// Appends `tag` to the type tag string by editing the buffer in place,
    /// and moves the start of the payload region along if the string grew.
    /// The caller still owes the payload.
    fn add_type(&mut self, tag: TypeTag)
        requires
            old(self).wf(),
        ensures
            final(self).bytes@ == with_tag(
                old(self).bytes@,
                old(self).typelist_start as int,
                old(self).typelist@.len() as int,
                old(self).args_start as int,
                tag.wire_char(),
            ),
            final(self).typelist@ == old(self).typelist@.push(tag),
            final(self).typelist_start == old(self).typelist_start,
            final(self).args_start == old(self).args_start + if (old(self).typelist@.len() + 2) % 4
                == 0 {
                4int
            } else {
                0int
            },
            final(self).model_address == old(self).model_address,
            final(self).model_args == old(self).model_args,
    {
        let count: usize = self.typelist.len();
        proof {
            lemma_tag_string_len(tag_chars(self.model_args@));
        }
        if (count + 2) % ALIGNMENT == 0 {
            let at: usize = self.args_start;
            insert_zeros(&mut self.bytes, at, ALIGNMENT);
            assert(at + ALIGNMENT <= self.bytes.len());
            self.args_start = at + ALIGNMENT;
        }
        let slot: usize = self.typelist_start + count + 1;
        self.bytes.set(slot, tag.to_wire_char());
        self.typelist.push(tag);
    }
}

} // verus!
