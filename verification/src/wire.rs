//! The two wire forms of a payload's argument list: the hex text form the
//! service returns across the JSON boundary, and the chain's canonical
//! binary form embedded in a signed envelope. Both decode to the same
//! logical argument values.

use vstd::prelude::*;
use crate::codec::{
    binary_bytes_decoded, binary_byte_lists_decoded, binary_encode_byte_lists,
    binary_encode_bytes, binary_of_byte_lists, binary_of_bytes, lemma_binary_byte_lists_round_trip,
    lemma_binary_bytes_round_trip, lemma_text_bytes_round_trip, text_bytes_decoded,
    text_encode_bytes, text_of_bytes,
};
use crate::payload::{arguments_of, ArgValue, PayloadModel, PublishPayload};

verus! {

/// The text form of the argument list: one `0x`-prefixed hex string for
/// the seed, one for the metadata, and one per module blob.
pub struct TextArguments {
    pub seed_hex: Vec<u8>,
    pub metadata_hex: Vec<u8>,
    pub module_hex: Vec<Vec<u8>>,
}

/// The binary form of the argument list: each argument spelled in the
/// chain's canonical binary serialization.
pub struct BinaryArguments {
    pub seed_bytes: Vec<u8>,
    pub metadata_bytes: Vec<u8>,
    pub modules_bytes: Vec<u8>,
}

/// Text spelling of each module blob, in order.
pub open spec fn text_of_modules(ms: Seq<Seq<u8>>) -> Seq<Seq<u8>> {
    Seq::new(ms.len(), |i: int| text_of_bytes(ms[i]))
}

/// The argument values a text-form triple decodes to, when every part is
/// well-formed hex.
pub open spec fn text_arguments_decoded(
    seed: Seq<u8>,
    metadata: Seq<u8>,
    modules: Seq<Seq<u8>>,
) -> Option<Seq<ArgValue>> {
    if text_bytes_decoded(seed) is Some && text_bytes_decoded(metadata) is Some && (forall|i: int|
        0 <= i < modules.len() ==> text_bytes_decoded(#[trigger] modules[i]) is Some) {
        Some(
            seq![
                ArgValue::Bytes(text_bytes_decoded(seed)->Some_0),
                ArgValue::Bytes(text_bytes_decoded(metadata)->Some_0),
                ArgValue::Vector(
                    Seq::new(modules.len(), |i: int| text_bytes_decoded(modules[i])->Some_0),
                ),
            ],
        )
    } else {
        None
    }
}

/// The argument values a binary-form triple decodes to; each part must be
/// consumed exactly.
pub open spec fn binary_arguments_decoded(
    seed: Seq<u8>,
    metadata: Seq<u8>,
    modules: Seq<u8>,
) -> Option<Seq<ArgValue>> {
    match (binary_bytes_decoded(seed), binary_bytes_decoded(metadata), binary_byte_lists_decoded(
        modules,
    )) {
        (Some(a), Some(b), Some(c)) => if a.1.len() == 0 && b.1.len() == 0 && c.1.len() == 0 {
            Some(seq![ArgValue::Bytes(a.0), ArgValue::Bytes(b.0), ArgValue::Vector(c.0)])
        } else {
            None
        },
        _ => None,
    }
}

impl PublishPayload {
    /// Spells the argument list for the text boundary.
    pub fn text_arguments(&self) -> (r: TextArguments)
        ensures
            r.seed_hex@ == text_of_bytes(self@.seed),
            r.metadata_hex@ == text_of_bytes(self@.metadata),
            r.module_hex.deep_view() == text_of_modules(self@.modules),
    {
        let ghost m = self.modules.deep_view();
        let mut module_hex: Vec<Vec<u8>> = Vec::new();
        let mut i: usize = 0;
        while i < self.modules.len()
            invariant
                m == self.modules.deep_view(),
                m.len() == self.modules@.len(),
                i <= self.modules@.len(),
                module_hex@.len() == i,
                forall|j: int| 0 <= j < i ==> #[trigger] module_hex@[j]@ == text_of_bytes(m[j]),
            decreases self.modules@.len() - i,
        {
            proof {
                assert(self.modules@[i as int].deep_view() =~= self.modules@[i as int]@);
            }
            module_hex.push(text_encode_bytes(&self.modules[i]));
            i += 1;
        }
        proof {
            assert forall|j: int|
                0 <= j < m.len() implies module_hex.deep_view()[j] == text_of_modules(m)[j] by {
                assert(module_hex@[j]@ == text_of_bytes(m[j]));
            }
            assert(module_hex.deep_view() =~= text_of_modules(m));
        }
        TextArguments {
            seed_hex: text_encode_bytes(&self.seed),
            metadata_hex: text_encode_bytes(&self.metadata),
            module_hex,
        }
    }

    /// Spells the argument list for the binary boundary.
    pub fn binary_arguments(&self) -> (r: BinaryArguments)
        ensures
            r.seed_bytes@ == binary_of_bytes(self@.seed),
            r.metadata_bytes@ == binary_of_bytes(self@.metadata),
            r.modules_bytes@ == binary_of_byte_lists(self@.modules),
    {
        BinaryArguments {
            seed_bytes: binary_encode_bytes(&self.seed),
            metadata_bytes: binary_encode_bytes(&self.metadata),
            modules_bytes: binary_encode_byte_lists(&self.modules),
        }
    }
}

/// The structured payload document the service returns: the fixed entry
/// function, an empty type-argument list, and the three text-form
/// arguments.
pub struct PayloadDocument {
    pub function: String,
    pub type_arguments: Vec<String>,
    pub arguments: TextArguments,
}

impl PublishPayload {
    /// Spells the whole payload as the text-boundary document.
    pub fn text_document(&self) -> (r: PayloadDocument)
        ensures
            r.function@ == "0x1::resource_account::create_resource_account_and_publish_package"@,
            r.type_arguments@.len() == 0,
            r.arguments.seed_hex@ == text_of_bytes(self@.seed),
            r.arguments.metadata_hex@ == text_of_bytes(self@.metadata),
            r.arguments.module_hex.deep_view() == text_of_modules(self@.modules),
    {
        PayloadDocument {
            function: crate::payload::entry_function_id(),
            type_arguments: crate::payload::type_argument_list(),
            arguments: self.text_arguments(),
        }
    }
}

/// Law: encoding equivalence. For any payload, the text form and the
/// canonical binary form of its arguments both decode to the same logical
/// argument values — the payload's own argument list.
pub proof fn lemma_encoding_equivalence(p: PayloadModel)
    ensures
        text_arguments_decoded(text_of_bytes(p.seed), text_of_bytes(p.metadata), text_of_modules(
            p.modules,
        )) == Some(arguments_of(p)),
        binary_arguments_decoded(binary_of_bytes(p.seed), binary_of_bytes(p.metadata), binary_of_byte_lists(
            p.modules,
        )) == Some(arguments_of(p)),
{
    lemma_text_bytes_round_trip(p.seed);
    lemma_text_bytes_round_trip(p.metadata);
    let tm = text_of_modules(p.modules);
    assert forall|i: int| 0 <= i < tm.len() implies text_bytes_decoded(#[trigger] tm[i]) is Some by {
        lemma_text_bytes_round_trip(p.modules[i]);
    }
    assert forall|i: int| 0 <= i < tm.len() implies Seq::new(
        tm.len(),
        |j: int| text_bytes_decoded(tm[j])->Some_0,
    )[i] == p.modules[i] by {
        lemma_text_bytes_round_trip(p.modules[i]);
    }
    assert(Seq::new(tm.len(), |j: int| text_bytes_decoded(tm[j])->Some_0) =~= p.modules);
    assert(text_arguments_decoded(text_of_bytes(p.seed), text_of_bytes(p.metadata), tm)
        == Some(seq![ArgValue::Bytes(p.seed), ArgValue::Bytes(p.metadata), ArgValue::Vector(p.modules)]));
    assert(seq![ArgValue::Bytes(p.seed), ArgValue::Bytes(p.metadata), ArgValue::Vector(p.modules)]
        =~= arguments_of(p));

    lemma_binary_bytes_round_trip(p.seed, Seq::<u8>::empty());
    assert(binary_of_bytes(p.seed) + Seq::<u8>::empty() =~= binary_of_bytes(p.seed));
    lemma_binary_bytes_round_trip(p.metadata, Seq::<u8>::empty());
    assert(binary_of_bytes(p.metadata) + Seq::<u8>::empty() =~= binary_of_bytes(p.metadata));
    lemma_binary_byte_lists_round_trip(p.modules, Seq::<u8>::empty());
    assert(binary_of_byte_lists(p.modules) + Seq::<u8>::empty() =~= binary_of_byte_lists(
        p.modules,
    ));
}

} // verus!
