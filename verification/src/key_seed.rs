//! Key seed: the one secret from which all private keys of a node are derived.

use vstd::bytes::{spec_u32_to_le_bytes, u32_to_le_bytes};
use vstd::prelude::*;

verus! {

/// Size in bytes of a seed's entropy and of every derived key.
pub const KEY_SIZE: usize = 32;

/// Longest component that a derivation path takes, in bytes.
pub const MAX_COMPONENT_LENGTH: usize = 256;

/// Top-level path component for all keys derived here: the bytes of
/// `synchro`.
pub const TOPLEVEL_DERIVATION_COMPONENT: [u8; 7] = [0x73, 0x79, 0x6e, 0x63, 0x68, 0x72, 0x6f];

/// `hkd32::PathBuf`, a derivation path: only `path_components` says
/// anything of what one holds.
#[verifier::external_type_specification]
#[verifier::external_body]
pub struct ExDerivationPath(hkd32::PathBuf);

/// `hkd32::Error`, which tells nothing but that a call failed.
#[verifier::external_type_specification]
#[verifier::external_body]
pub struct ExDerivationError(hkd32::Error);

/// The components of a derivation path, first to last.
pub uninterp spec fn path_components(path: hkd32::PathBuf) -> Seq<Seq<u8>>;

/// The key that `hkd32` derives from a seed's entropy along the given
/// components.
pub uninterp spec fn derived_subkey(entropy: Seq<u8>, components: Seq<Seq<u8>>) -> Seq<u8>;

/// The 24-word English mnemonic phrase that stands for the given entropy.
pub uninterp spec fn mnemonic_phrase(entropy: Seq<u8>) -> Seq<char>;

/// Whether a derivation path takes `bytes` as a component: it is not empty
/// and no longer than `MAX_COMPONENT_LENGTH`.
pub open spec fn valid_component(bytes: Seq<u8>) -> bool {
    0 < bytes.len() <= MAX_COMPONENT_LENGTH
}

/// The path along which the seed for `domain` and `version` is derived: the
/// top-level component, the domain, and the version as four little-endian
/// bytes.
pub open spec fn derivation_path(domain: Seq<u8>, version: u32) -> Seq<Seq<u8>> {
    seq![TOPLEVEL_DERIVATION_COMPONENT@, domain, spec_u32_to_le_bytes(version)]
}

/// An empty derivation path, from `hkd32::PathBuf::new`.
#[verifier::external_body]
fn new_path() -> (path: hkd32::PathBuf)
    ensures
        path_components(path) == Seq::<Seq<u8>>::empty(),
{
    hkd32::PathBuf::new()
}

/// Appends `bytes` to `path` as its last component, with
/// `hkd32::Component::new` and `hkd32::PathBuf::push`. The component is
/// refused, and the path left as it was, exactly when `bytes` is empty or
/// longer than `MAX_COMPONENT_LENGTH`.
#[verifier::external_body]
fn push_component(path: &mut hkd32::PathBuf, bytes: &[u8]) -> (pushed: Result<(), hkd32::Error>)
    ensures
        pushed is Ok <==> valid_component(bytes@),
        pushed is Ok ==> path_components(*final(path)) == path_components(*old(path)).push(bytes@),
        pushed is Err ==> path_components(*final(path)) == path_components(*old(path)),
{
    match hkd32::Component::new(bytes) {
        Ok(component) => {
            path.push(component);
            Ok(())
        },
        Err(e) => Err(e),
    }
}

/// The key at `path` below the seed with the given entropy, from
/// `hkd32::mnemonic::Phrase::derive_subkey` on the phrase that
/// `Phrase::from_entropy` makes of the entropy.
#[verifier::external_body]
fn derive_subkey(entropy: &[u8; 32], path: &hkd32::PathBuf) -> (key: [u8; 32])
    ensures
        key@ == derived_subkey(entropy@, path_components(*path)),
{
    let phrase = hkd32::mnemonic::Phrase::from_entropy(*entropy, Default::default());
    let material = phrase.derive_subkey(path);
    let mut key = [0u8; 32];
    key.copy_from_slice(material.as_bytes());
    key
}

/// Fresh entropy from the operating system's random source, as
/// `hkd32::mnemonic::Phrase::random` draws it. Nothing is known of it but
/// its size. Where the operating system has no randomness to give, the
/// outside function does not return; no argument can bring that about.
#[verifier::external_body]
fn random_entropy() -> (entropy: [u8; 32]) {
    *hkd32::mnemonic::Phrase::random(Default::default()).entropy()
}

/// The mnemonic phrase of the given entropy, from
/// `hkd32::mnemonic::Phrase::from_entropy` and `Phrase::phrase`.
#[verifier::external_body]
fn phrase_of(entropy: &[u8; 32]) -> (phrase: String)
    ensures
        phrase@ == mnemonic_phrase(entropy@),
{
    hkd32::mnemonic::Phrase::from_entropy(*entropy, Default::default()).phrase().to_owned()
}

/// Base derivation key for all private keys of a node.
///
/// A seed is generated once, or made from entropy that was kept, and never
/// changes afterwards. Its model is its entropy.
pub struct KeySeed {
    entropy: [u8; 32],
}

impl View for KeySeed {
    type V = Seq<u8>;

    closed spec fn view(&self) -> Seq<u8> {
        self.entropy@
    }
}

impl Clone for KeySeed {
    /// A seed with the same entropy.
    fn clone(&self) -> (copy: Self)
        ensures
            copy@ == self@,
    {
        KeySeed { entropy: self.entropy }
    }
}

impl KeySeed {
    /// Generates a random seed.
    pub fn generate() -> (seed: KeySeed)
        ensures
            seed@.len() == KEY_SIZE,
    {
        KeySeed { entropy: random_entropy() }
    }

    /// The seed with the given entropy.
    pub fn from_entropy(entropy: [u8; 32]) -> (seed: KeySeed)
        ensures
            seed@ == entropy@,
    {
        KeySeed { entropy }
    }

    /// The entropy of this seed.
    pub fn entropy(&self) -> (entropy: [u8; 32])
        ensures
            entropy@ == self@,
    {
        self.entropy
    }

    /// The mnemonic phrase of this seed.
    pub fn phrase(&self) -> (phrase: String)
        ensures
            phrase@ == mnemonic_phrase(self@),
    {
        phrase_of(&self.entropy)
    }

    /// The seed value for `domain` and `version`: the key derived from this
    /// seed along `derivation_path(domain, version)`.
    pub fn derive_seed(&self, domain: &[u8], version: u32) -> (seed: [u8; 32])
        requires
            valid_component(domain@),
        ensures
            seed@ == derived_subkey(self@, derivation_path(domain@, version)),
    {
        let toplevel = TOPLEVEL_DERIVATION_COMPONENT;
        let version_bytes = u32_to_le_bytes(version);
        proof {
            lemma_derivation_path_is_valid(domain@, version);
        }
        let mut components: Vec<&[u8]> = Vec::new();
        components.push(toplevel.as_slice());
        components.push(domain);
        components.push(version_bytes.as_slice());
        let ghost wanted = derivation_path(domain@, version);
        assert(components@.map_values(|c: &[u8]| c@) =~= wanted);

        let mut path = new_path();
        let mut i: usize = 0;
        while i < components.len()
            invariant
                i <= components.len(),
                components@.map_values(|c: &[u8]| c@) == wanted,
                forall|k: int| 0 <= k < wanted.len() ==> valid_component(#[trigger] wanted[k]),
                path_components(path) == wanted.subrange(0, i as int),
            decreases components.len() - i,
        {
            let pushed = push_component(&mut path, components[i]);
            assert(components@.map_values(|c: &[u8]| c@)[i as int] == components@[i as int]@);
            assert(valid_component(wanted[i as int]));
            assert(pushed is Ok);
            assert(wanted.subrange(0, i as int).push(wanted[i as int]) =~= wanted.subrange(
                0,
                i + 1,
            ));
            i = i + 1;
        }
        assert(wanted.subrange(0, wanted.len() as int) =~= wanted);
        derive_subkey(&self.entropy, &path)
    }
}

/// Derivation is a function of the seed, the domain and the version: two
/// derivations from seeds with the same entropy, for the same domain and
/// the same version, give the same key.
pub proof fn lemma_derive_seed_deterministic(
    seed: KeySeed,
    other: KeySeed,
    domain: Seq<u8>,
    other_domain: Seq<u8>,
    version: u32,
    other_version: u32,
)
    requires
        seed@ == other@,
        domain == other_domain,
        version == other_version,
    ensures
        derived_subkey(seed@, derivation_path(domain, version)) == derived_subkey(
            other@,
            derivation_path(other_domain, other_version),
        ),
{
}

/// Two pairs of a domain and a version that differ are derived along paths
/// that differ.
pub proof fn lemma_derivation_paths_differ(
    domain: Seq<u8>,
    version: u32,
    other_domain: Seq<u8>,
    other_version: u32,
)
    requires
        domain != other_domain || version != other_version,
    ensures
        derivation_path(domain, version) != derivation_path(other_domain, other_version),
{
    let path = derivation_path(domain, version);
    let other = derivation_path(other_domain, other_version);
    if path == other {
        assert(path[1] == other[1]);
        assert(path[2] == other[2]);
        vstd::bytes::lemma_auto_spec_u32_to_from_le_bytes();
        assert(spec_u32_to_le_bytes(version).len() == 4);
        assert(spec_u32_to_le_bytes(other_version).len() == 4);
        assert(vstd::bytes::spec_u32_from_le_bytes(spec_u32_to_le_bytes(version)) == version);
        assert(vstd::bytes::spec_u32_from_le_bytes(spec_u32_to_le_bytes(other_version))
            == other_version);
    }
}

/// Every path along which a seed is derived is made of components that a
/// derivation path takes, as long as the domain is one.
pub proof fn lemma_derivation_path_is_valid(domain: Seq<u8>, version: u32)
    requires
        valid_component(domain),
    ensures
        derivation_path(domain, version).len() == 3,
        forall|i: int|
            0 <= i < 3 ==> valid_component(#[trigger] derivation_path(domain, version)[i]),
{
    vstd::bytes::lemma_auto_spec_u32_to_from_le_bytes();
    assert(spec_u32_to_le_bytes(version).len() == 4);
}

} // verus!
