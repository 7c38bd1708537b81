//! Serialising a whole message in one pass.

use vstd::prelude::*;
use crate::arg::{encode, Arg, ArgValue, OscError};
use crate::laws::lemma_payloads_push;
use crate::message::{payloads, tag_chars, MessageView, COMMA};
use crate::wire::{extend, pad};

verus! {

/// Every argument in `args` has an encoding.
pub open spec fn encodable(args: Seq<Arg>) -> bool {
    forall|i: int| 0 <= i < args.len() ==> (#[trigger] args[i]).value() is Some
}

/// The values that `args` encode, in order.
pub open spec fn values(args: Seq<Arg>) -> Seq<ArgValue> {
    args.map_values(|arg: Arg| arg.value().unwrap())
}

/// Serialises the message with the given address and arguments from
/// scratch: the address, then the type tag string, then the payloads.
///
/// Fails, producing nothing, exactly when some argument cannot be encoded.
pub fn serialize(address: &str, args: &[Arg]) -> (res: Result<Vec<u8>, OscError>)
    ensures
        match res {
            Ok(bytes) => encodable(args@) && bytes@ == (MessageView {
                address: address@,
                args: values(args@),
            }).wire(),
            Err(e) => !encodable(args@) && e == OscError::UnsupportedType,
        },
{
    let mut bytes: Vec<u8> = Vec::new();
    extend(&mut bytes, address.as_bytes());
    bytes.push(0);
    pad(&mut bytes);

    let mut tags: Vec<u8> = Vec::new();
    tags.push(COMMA);
    let mut body: Vec<u8> = Vec::new();
    let mut i: usize = 0;
    while i < args.len()
        invariant
            i <= args@.len(),
            encodable(args@.take(i as int)),
            tags@ == seq![COMMA] + tag_chars(values(args@.take(i as int))),
            body@ == payloads(values(args@.take(i as int))),
        decreases args@.len() - i,
    {
        let ghost seen = args@.take(i as int);
        let ghost upto = args@.take(i + 1);
        match encode(&args[i]) {
            Ok((tag, mut payload)) => {
                tags.push(tag.to_wire_char());
                body.append(&mut payload);
            },
            Err(e) => {
                return Err(e);
            },
        }
        proof {
            let value = args@[i as int].value().unwrap();
            assert(values(upto) =~= values(seen).push(value));
            lemma_payloads_push(values(seen), value);
            assert forall|j: int| 0 <= j < upto.len() implies (#[trigger] upto[j]).value() is Some by {
                if j < i {
                    assert(seen[j].value() is Some);
                }
            }
        }
        i += 1;
    }
    assert(args@.take(i as int) =~= args@);
    tags.push(0);
    pad(&mut tags);
    bytes.append(&mut tags);
    bytes.append(&mut body);
    Ok(bytes)
}

} // verus!
