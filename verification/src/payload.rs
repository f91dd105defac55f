//! Payload assembly: one structured call description — the chain's fixed
//! "create resource account and publish package" entry point, no type
//! arguments, and the ordered value arguments seed, metadata, module list.

use vstd::prelude::*;
use vstd::string::StringExecFns;
use crate::errors::DeployError;

verus! {

/// The chain's ceiling on the payload's raw argument bytes.
pub const MAX_PAYLOAD_BYTES: u64 = 65536;

/// Spec-level value of one payload argument: a byte string, or a vector of
/// byte strings.
pub enum ArgValue {
    Bytes(Seq<u8>),
    Vector(Seq<Seq<u8>>),
}

/// Spec-level content of an assembled payload.
pub struct PayloadModel {
    pub seed: Seq<u8>,
    pub metadata: Seq<u8>,
    pub modules: Seq<Seq<u8>>,
}

/// The assembled publish payload: signer-agnostic and transport-agnostic —
/// it carries no sender, sequence number, or signature.
pub struct PublishPayload {
    pub seed: Vec<u8>,
    pub metadata: Vec<u8>,
    pub modules: Vec<Vec<u8>>,
}

impl View for PublishPayload {
    type V = PayloadModel;

    open spec fn view(&self) -> PayloadModel {
        PayloadModel {
            seed: self.seed@,
            metadata: self.metadata@,
            modules: self.modules.deep_view(),
        }
    }
}

/// One payload argument as assembled.
pub enum PayloadArg {
    Bytes(Vec<u8>),
    Vector(Vec<Vec<u8>>),
}

impl View for PayloadArg {
    type V = ArgValue;

    open spec fn view(&self) -> ArgValue {
        match *self {
            PayloadArg::Bytes(b) => ArgValue::Bytes(b@),
            PayloadArg::Vector(v) => ArgValue::Vector(v.deep_view()),
        }
    }
}

impl DeepView for PayloadArg {
    type V = ArgValue;

    open spec fn deep_view(&self) -> ArgValue {
        self.view()
    }
}

/// The argument list of a payload: seed bytes, metadata bytes, then the
/// module list as a single vector-typed argument.
pub open spec fn arguments_of(p: PayloadModel) -> Seq<ArgValue> {
    seq![ArgValue::Bytes(p.seed), ArgValue::Bytes(p.metadata), ArgValue::Vector(p.modules)]
}

/// Combined length of all module blobs.
pub open spec fn total_module_len(ms: Seq<Seq<u8>>) -> int
    decreases ms.len(),
{
    if ms.len() == 0 {
        0
    } else {
        total_module_len(ms.drop_last()) + ms.last().len()
    }
}

/// Raw size of the payload's arguments: seed, metadata and all modules.
pub open spec fn raw_argument_size(seed: Seq<u8>, metadata: Seq<u8>, modules: Seq<Seq<u8>>) -> int {
    seed.len() + metadata.len() + total_module_len(modules)
}

pub proof fn lemma_total_module_len_nonneg(ms: Seq<Seq<u8>>)
    ensures
        total_module_len(ms) >= 0,
    decreases ms.len(),
{
    if ms.len() > 0 {
        lemma_total_module_len_nonneg(ms.drop_last());
    }
}

/// Appending one blob adds exactly its length.
pub proof fn lemma_total_module_len_step(ms: Seq<Seq<u8>>, i: int)
    requires
        0 <= i < ms.len(),
    ensures
        total_module_len(ms.take(i + 1)) == total_module_len(ms.take(i)) + ms[i].len(),
{
    assert(ms.take(i + 1).drop_last() =~= ms.take(i));
    assert(ms.take(i + 1).last() == ms[i]);
}

/// No prefix of the module list is longer than the whole.
pub proof fn lemma_total_module_len_prefix(ms: Seq<Seq<u8>>, i: int)
    requires
        0 <= i <= ms.len(),
    ensures
        total_module_len(ms.take(i)) <= total_module_len(ms),
    decreases ms.len() - i,
{
    if i == ms.len() {
        assert(ms.take(i) =~= ms);
    } else {
        lemma_total_module_len_step(ms, i);
        lemma_total_module_len_prefix(ms, i + 1);
    }
}

/// A verified copy of a byte string.
pub fn copy_bytes(v: &Vec<u8>) -> (r: Vec<u8>)
    ensures
        r@ == v@,
{
    let mut r: Vec<u8> = Vec::new();
    let mut i: usize = 0;
    while i < v.len()
        invariant
            i <= v@.len(),
            r@.len() == i,
            forall|j: int| 0 <= j < i ==> r@[j] == v@[j],
        decreases v@.len() - i,
    {
        r.push(v[i]);
        i += 1;
    }
    proof {
        assert(r@ =~= v@);
    }
    r
}

/// A verified copy of a list of byte strings.
pub fn copy_byte_lists(v: &Vec<Vec<u8>>) -> (r: Vec<Vec<u8>>)
    ensures
        r.deep_view() == v.deep_view(),
        r@.len() == v@.len(),
{
    let mut r: Vec<Vec<u8>> = Vec::new();
    let mut i: usize = 0;
    while i < v.len()
        invariant
            i <= v@.len(),
            r@.len() == i,
            forall|j: int| 0 <= j < i ==> #[trigger] r@[j]@ == v@[j]@,
        decreases v@.len() - i,
    {
        r.push(copy_bytes(&v[i]));
        i += 1;
    }
    proof {
        assert forall|j: int| 0 <= j < v@.len() implies r.deep_view()[j] == v.deep_view()[j] by {
            assert(r@[j]@ == v@[j]@);
        }
        assert(r.deep_view() =~= v.deep_view());
    }
    r
}

/// Assembles the publish payload from the seed, the serialized package
/// metadata, and the compiled module blobs. Rejects empty metadata, and a
/// payload over the chain's size ceiling; otherwise carries the three
/// inputs through unchanged.
pub fn assemble(seed: Vec<u8>, metadata: Vec<u8>, modules: Vec<Vec<u8>>) -> (r: Result<
    PublishPayload,
    DeployError,
>)
    ensures
        r is Ok <==> (metadata@.len() > 0 && raw_argument_size(seed@, metadata@, modules.deep_view())
            <= MAX_PAYLOAD_BYTES),
        r is Ok ==> r->Ok_0@ == (PayloadModel {
            seed: seed@,
            metadata: metadata@,
            modules: modules.deep_view(),
        }),
        r is Err ==> r->Err_0 == (if metadata@.len() == 0 {
            DeployError::EmptyMetadata
        } else {
            DeployError::PayloadTooLarge
        }),
{
    if metadata.len() == 0 {
        return Err(DeployError::EmptyMetadata);
    }
    let mut total: u128 = seed.len() as u128 + metadata.len() as u128;
    if total > MAX_PAYLOAD_BYTES as u128 {
        proof {
            lemma_total_module_len_nonneg(modules.deep_view());
        }
        return Err(DeployError::PayloadTooLarge);
    }
    let ghost ms = modules.deep_view();
    let mut i: usize = 0;
    while i < modules.len()
        invariant
            metadata@.len() > 0,
            i <= modules@.len(),
            ms == modules.deep_view(),
            ms.len() == modules@.len(),
            total == seed@.len() + metadata@.len() + total_module_len(ms.take(i as int)),
            total <= MAX_PAYLOAD_BYTES,
        decreases modules@.len() - i,
    {
        proof {
            lemma_total_module_len_step(ms, i as int);
            assert(ms[i as int] == modules@[i as int].deep_view());
            assert(ms[i as int].len() == modules@[i as int]@.len());
        }
        total = total + modules[i].len() as u128;
        if total > MAX_PAYLOAD_BYTES as u128 {
            proof {
                lemma_total_module_len_prefix(ms, i + 1);
            }
            return Err(DeployError::PayloadTooLarge);
        }
        i += 1;
    }
    proof {
        assert(ms.take(i as int) =~= ms);
    }
    Ok(PublishPayload { seed, metadata, modules })
}

impl PublishPayload {
    /// The ordered argument list — seed, metadata, then the module list as
    /// one vector argument, whatever the module count (zero included).
    pub fn argument_list(&self) -> (r: Vec<PayloadArg>)
        ensures
            r.deep_view() == arguments_of(self@),
    {
        let mut r: Vec<PayloadArg> = Vec::new();
        r.push(PayloadArg::Bytes(copy_bytes(&self.seed)));
        r.push(PayloadArg::Bytes(copy_bytes(&self.metadata)));
        r.push(PayloadArg::Vector(copy_byte_lists(&self.modules)));
        proof {
            assert(r.deep_view() =~= arguments_of(self@));
        }
        r
    }
}

/// The fully-qualified identifier of the chain's entry point that creates a
/// resource account and publishes a package under it.
pub fn entry_function_id() -> (r: String)
    ensures
        r@ == "0x1::resource_account::create_resource_account_and_publish_package"@,
{
    String::from_str("0x1::resource_account::create_resource_account_and_publish_package")
}

/// The payload's type-argument list, which is always empty.
pub fn type_argument_list() -> (r: Vec<String>)
    ensures
        r@.len() == 0,
{
    Vec::new()
}

/// Law: the assembled argument list is `[seed, metadata, modules]`, in that
/// order, regardless of how many modules were compiled.
pub proof fn lemma_argument_order(p: PayloadModel)
    ensures
        arguments_of(p).len() == 3,
        arguments_of(p)[0] == ArgValue::Bytes(p.seed),
        arguments_of(p)[1] == ArgValue::Bytes(p.metadata),
        arguments_of(p)[2] == ArgValue::Vector(p.modules),
{
}

} // verus!
