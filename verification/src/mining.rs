//! Mining configuration state, the pluggable digest strategies, the
//! difficulty predicate, and the nonce-search engine.
//!
//! A search walks nonces 0, 1, 2, ... and computes, for each, the digest of a
//! five-byte message: the entropy seed as one big-endian byte followed by the
//! nonce as four little-endian bytes. The first nonce whose digest starts
//! with the required number of zero bytes wins; if the whole 32-bit nonce
//! space is exhausted the search reports failure.

use crate::msg::hash::HashAlgorithm;
use crate::msg::mine::{send_mine_progress_message, spec_mine_progress_message};
use crate::text::{ascii_bytes, dec_bytes, hex_bytes, push_dec_u32, push_hex, push_str};
use vstd::bytes::{spec_u32_to_le_bytes, u32_to_le_bytes};
use vstd::prelude::*;

verus! {

/// Configuration of the mining search: required leading zero bytes, the
/// entropy seed folded into every digest, the selected digest family, and
/// the last nonce found.
#[derive(Debug, Clone, Copy)]
pub struct MiningState {
    pub zeros: u8,
    pub entropy: u8,
    pub is_configured: bool,
    pub last_nonce: Option<u32>,
    pub hash_algorithm: HashAlgorithm,
}

impl MiningState {
    /// The state the console starts from: nothing configured, Keccak-256
    /// selected, no nonce found yet.
    pub open spec fn spec_default() -> MiningState {
        MiningState {
            zeros: 0,
            entropy: 0,
            is_configured: false,
            last_nonce: None,
            hash_algorithm: HashAlgorithm::Keccak256,
        }
    }

    /// The derived `is_configured` flag is kept in sync with the two
    /// configuration inputs: it holds exactly when both are non-zero.
    pub open spec fn wf(self) -> bool {
        self.is_configured == (self.zeros > 0 && self.entropy > 0)
    }

    pub fn new() -> (s: Self)
        ensures
            s == MiningState::spec_default(),
            s.wf(),
    {
        MiningState {
            zeros: 0,
            entropy: 0,
            is_configured: false,
            last_nonce: None,
            hash_algorithm: HashAlgorithm::Keccak256,
        }
    }

    /// Return the state to the defaults.
    pub fn reset(&mut self)
        ensures
            *final(self) == MiningState::spec_default(),
            final(self).wf(),
    {
        *self = MiningState::new();
    }

    pub fn set_zeros(&mut self, zeros: u8)
        ensures
            *final(self) == (MiningState {
                zeros,
                is_configured: zeros > 0 && old(self).entropy > 0,
                ..*old(self)
            }),
            final(self).wf(),
    {
        self.zeros = zeros;
        self.update_configuration_status();
    }

    pub fn set_entropy(&mut self, entropy: u8)
        ensures
            *final(self) == (MiningState {
                entropy,
                is_configured: old(self).zeros > 0 && entropy > 0,
                ..*old(self)
            }),
            final(self).wf(),
    {
        self.entropy = entropy;
        self.update_configuration_status();
    }

    fn update_configuration_status(&mut self)
        ensures
            *final(self) == (MiningState {
                is_configured: old(self).zeros > 0 && old(self).entropy > 0,
                ..*old(self)
            }),
    {
        self.is_configured = self.zeros > 0 && self.entropy > 0;
    }

    pub fn is_ready_to_mine(&self) -> (r: bool)
        ensures
            r == self.is_configured,
    {
        self.is_configured
    }

    pub fn set_last_nonce(&mut self, nonce: u32)
        ensures
            *final(self) == (MiningState { last_nonce: Some(nonce), ..*old(self) }),
    {
        self.last_nonce = Some(nonce);
    }

    pub fn set_hash_algorithm(&mut self, algorithm: HashAlgorithm)
        ensures
            *final(self) == (MiningState { hash_algorithm: algorithm, ..*old(self) }),
    {
        self.hash_algorithm = algorithm;
    }

    pub fn get_hash_algorithm(&self) -> (r: HashAlgorithm)
        ensures
            r == self.hash_algorithm,
    {
        self.hash_algorithm
    }
}

impl Default for MiningState {
    fn default() -> (s: Self)
        ensures
            s == MiningState::spec_default(),
    {
        MiningState::new()
    }
}

/// A configuration missing either input is never ready to mine.
pub proof fn lemma_unconfigured_not_ready(s: MiningState)
    requires
        s.wf(),
        s.zeros == 0 || s.entropy == 0,
    ensures
        !s.is_configured,
{
}

/// A search run against a configuration missing either input can only have
/// refused to run.
pub proof fn lemma_unconfigured_mine_refused(
    a: HashAlgorithm,
    s: MiningState,
    r: Result<u32, MiningError>,
)
    requires
        s.wf(),
        s.zeros == 0 || s.entropy == 0,
        spec_mine_result(a, s, r),
    ensures
        r == Err::<u32, MiningError>(MiningError::NotConfigured),
{
}

/// The SHA-256 digest of a byte message, as the `sha2` crate computes it.
pub uninterp spec fn sha256_of(msg: Seq<u8>) -> Seq<u8>;

/// The Keccak-256 digest of a byte message, as the `sha3` crate computes it.
pub uninterp spec fn keccak256_of(msg: Seq<u8>) -> Seq<u8>;

/// Relies on `sha2::Sha256` through the `Digest` trait: one 32-byte digest
/// over the input bytes, a function of those bytes alone.
#[verifier::external_body]
fn sha256_digest(msg: &[u8]) -> (r: [u8; 32])
    ensures
        r@ == sha256_of(msg@),
{
    <sha2::Sha256 as sha2::Digest>::digest(msg).into()
}

/// Relies on `sha3::Keccak256` through the `Digest` trait: one 32-byte
/// digest over the input bytes, a function of those bytes alone.
#[verifier::external_body]
fn keccak256_digest(msg: &[u8]) -> (r: [u8; 32])
    ensures
        r@ == keccak256_of(msg@),
{
    <sha3::Keccak256 as sha3::digest::Digest>::digest(msg).into()
}

/// The bytes fed to the digest for one nonce check: the entropy seed as one
/// big-endian byte, then the nonce as four little-endian bytes.
pub open spec fn search_message(entropy: u8, nonce: u32) -> Seq<u8> {
    seq![entropy] + spec_u32_to_le_bytes(nonce)
}

/// Build the digest input for one nonce check.
fn build_search_message(entropy: u8, nonce: u32) -> (r: Vec<u8>)
    ensures
        r@ == search_message(entropy, nonce),
{
    let mut msg: Vec<u8> = Vec::new();
    msg.push(entropy);
    let mut le = u32_to_le_bytes(nonce);
    msg.append(&mut le);
    proof {
        assert(msg@ =~= search_message(entropy, nonce));
    }
    msg
}

/// The digest a given algorithm assigns to one (entropy, nonce) pair.
pub open spec fn digest_spec(a: HashAlgorithm, entropy: u8, nonce: u32) -> Seq<u8> {
    match a {
        HashAlgorithm::Sha256 => sha256_of(search_message(entropy, nonce)),
        HashAlgorithm::Keccak256 => keccak256_of(search_message(entropy, nonce)),
    }
}

/// A digest strategy: each strategy computes one fixed mathematical digest
/// of the search message for a given (entropy, nonce) pair.
pub trait Hasher: Sized {
    /// The digest this strategy assigns to one (entropy, nonce) pair.
    spec fn digest_of(&self, data: u8, nonce: u32) -> Seq<u8>;

    /// Compute the digest of the search message built from `data` and `nonce`.
    fn hash(&self, data: u8, nonce: u32) -> (r: [u8; 32])
        ensures
            r@ == self.digest_of(data, nonce),
    ;
}

/// The SHA-256 digest strategy.
pub struct Sha256Hasher;

impl Hasher for Sha256Hasher {
    open spec fn digest_of(&self, data: u8, nonce: u32) -> Seq<u8> {
        digest_spec(HashAlgorithm::Sha256, data, nonce)
    }

    fn hash(&self, data: u8, nonce: u32) -> (r: [u8; 32]) {
        let msg = build_search_message(data, nonce);
        sha256_digest(msg.as_slice())
    }
}

/// The Keccak-256 digest strategy.
pub struct Keccak256Hasher;

impl Hasher for Keccak256Hasher {
    open spec fn digest_of(&self, data: u8, nonce: u32) -> Seq<u8> {
        digest_spec(HashAlgorithm::Keccak256, data, nonce)
    }

    fn hash(&self, data: u8, nonce: u32) -> (r: [u8; 32]) {
        let msg = build_search_message(data, nonce);
        keccak256_digest(msg.as_slice())
    }
}

/// Whether a digest clears a difficulty: its first `required_zeros` bytes
/// are all zero, which is never the case when the difficulty exceeds the
/// digest length.
pub open spec fn matches_difficulty(digest: Seq<u8>, required_zeros: u8) -> bool {
    &&& required_zeros <= digest.len()
    &&& forall|i: int| 0 <= i < required_zeros ==> digest[i] == 0u8
}

/// The difficulty predicate on digests.
pub struct ZeroChecker;

impl ZeroChecker {
    /// Whether the first `required_zeros` bytes of `hash` are all zero;
    /// difficulties above the digest length never match.
    pub fn check_zeros(hash: &[u8; 32], required_zeros: u8) -> (r: bool)
        ensures
            r == matches_difficulty(hash@, required_zeros),
    {
        let zeros_to_check: usize = required_zeros as usize;
        if zeros_to_check > 32 {
            return false;
        }
        for i in 0..zeros_to_check
            invariant
                zeros_to_check == required_zeros <= 32,
                hash@.len() == 32,
                forall|j: int| 0 <= j < i ==> hash@[j] == 0u8,
        {
            if hash[i] != 0 {
                return false;
            }
        }
        true
    }
}

/// Whether `nonce` wins a search under algorithm `a`, seed `entropy` and
/// difficulty `zeros`.
pub open spec fn is_winning(a: HashAlgorithm, entropy: u8, zeros: u8, nonce: u32) -> bool {
    matches_difficulty(digest_spec(a, entropy, nonce), zeros)
}

/// How often the running search reports progress, in nonces.
pub const PROGRESS_INTERVAL: u32 = 50000;

/// How often the running search toggles the activity indicator, in nonces.
pub const INDICATOR_INTERVAL: u32 = 10000;

/// Everything a search writes to the transport before it examines nonce `k`:
/// one progress line for each multiple of the progress interval below `k`.
pub open spec fn progress_before(entropy: u8, k: nat) -> Seq<u8>
    decreases k,
{
    if k == 0 {
        Seq::empty()
    } else {
        progress_before(entropy, (k - 1) as nat) + if ((k - 1) as nat) % (
        PROGRESS_INTERVAL as nat) == 0 {
            spec_mine_progress_message((k - 1) as nat, entropy as nat)
        } else {
            Seq::empty()
        }
    }
}

/// The report of a winning nonce, with the first eight digest bytes in hex.
pub open spec fn spec_found_message(nonce: nat, digest: Seq<u8>) -> Seq<u8> {
    ascii_bytes("FOUND: nonce="@) + dec_bytes(nonce) + ascii_bytes(", hash="@) + hex_bytes(
        digest.take(8),
    ) + ascii_bytes("\r\n"@)
}

/// Append the report of a winning nonce.
fn send_found_message(uart: &mut Vec<u8>, nonce: u32, digest: &[u8; 32])
    ensures
        final(uart)@ == old(uart)@ + spec_found_message(nonce as nat, digest@),
{
    push_str(uart, "FOUND: nonce=");
    push_dec_u32(uart, nonce);
    push_str(uart, ", hash=");
    let prefix: &[u8] = &digest.as_slice()[0..8];
    push_hex(uart, prefix);
    push_str(uart, "\r\n");
    proof {
        assert(prefix@ =~= digest@.take(8));
        assert(uart@ =~= old(uart)@ + spec_found_message(nonce as nat, digest@));
    }
}

/// The activity indicator the platform provides; the search toggles it on a
/// fixed iteration cadence to signal liveness.
pub trait ActivityIndicator {
    fn toggle(&mut self);
}

/// How a search leaves off: a winning nonce, a request on an unconfigured
/// state, or a search space exhausted without a match.
#[derive(Debug, PartialEq, Eq, Structural)]
pub enum MiningError {
    NotConfigured,
    Overflow,
}

/// The bytes a finished search has written to the transport, given its
/// result: progress lines up to where it stopped, and the found report on
/// success.
pub open spec fn spec_mine_emission(
    a: HashAlgorithm,
    s: MiningState,
    r: Result<u32, MiningError>,
) -> Seq<u8> {
    match r {
        Ok(nonce) => progress_before(s.entropy, nonce as nat + 1) + spec_found_message(
            nonce as nat,
            digest_spec(a, s.entropy, nonce),
        ),
        Err(MiningError::NotConfigured) => Seq::empty(),
        Err(MiningError::Overflow) => progress_before(s.entropy, 0x1_0000_0000),
    }
}

/// What the result of a finished search says, given the configuration it ran
/// under: a search on an unconfigured state refuses to run; a returned nonce
/// is the least winning one; exhaustion means no nonce wins at all.
pub open spec fn spec_mine_result(
    a: HashAlgorithm,
    s: MiningState,
    r: Result<u32, MiningError>,
) -> bool {
    if !s.is_configured {
        r == Err::<u32, MiningError>(MiningError::NotConfigured)
    } else {
        match r {
            Ok(nonce) => {
                &&& is_winning(a, s.entropy, s.zeros, nonce)
                &&& forall|m: u32| m < nonce ==> !is_winning(a, s.entropy, s.zeros, m)
            },
            Err(e) => {
                &&& e == MiningError::Overflow
                &&& forall|m: u32| !is_winning(a, s.entropy, s.zeros, m)
            },
        }
    }
}

/// A search engine: one digest strategy plus the configuration to run under.
pub struct Miner<H: Hasher> {
    pub hasher: H,
    pub state: MiningState,
}

impl<H: Hasher> Miner<H> {
    pub fn new(hasher: H) -> (m: Self)
        ensures
            m.hasher == hasher,
            m.state == MiningState::spec_default(),
    {
        Miner { hasher, state: MiningState::new() }
    }

    pub fn update_state(&mut self, state: MiningState)
        ensures
            *final(self) == (Miner { state, ..*old(self) }),
    {
        self.state = state;
    }

    /// Run the search to completion. On an unconfigured state it refuses at
    /// once and writes nothing. Otherwise it returns the least nonce whose
    /// digest clears the difficulty, or reports exhaustion when no nonce in
    /// the 32-bit space does; either way, every progress line owed up to the
    /// stopping point has been written.
    pub fn mine<L: ActivityIndicator>(&self, uart: &mut Vec<u8>, led: &mut L) -> (r: Result<
        u32,
        MiningError,
    >)
        requires
            self.state.wf(),
        ensures
            !self.state.is_configured ==> r == Err::<u32, MiningError>(
                MiningError::NotConfigured,
            ) && final(uart)@ == old(uart)@,
            self.state.is_configured ==> match r {
                Ok(nonce) => {
                    &&& matches_difficulty(
                        self.hasher.digest_of(self.state.entropy, nonce),
                        self.state.zeros,
                    )
                    &&& forall|m: u32|
                        m < nonce ==> !matches_difficulty(
                            self.hasher.digest_of(self.state.entropy, m),
                            self.state.zeros,
                        )
                    &&& final(uart)@ == old(uart)@ + progress_before(
                        self.state.entropy,
                        nonce as nat + 1,
                    ) + spec_found_message(
                        nonce as nat,
                        self.hasher.digest_of(self.state.entropy, nonce),
                    )
                },
                Err(e) => {
                    &&& e == MiningError::Overflow
                    &&& forall|m: u32|
                        !matches_difficulty(
                            self.hasher.digest_of(self.state.entropy, m),
                            self.state.zeros,
                        )
                    &&& final(uart)@ == old(uart)@ + progress_before(
                        self.state.entropy,
                        0x1_0000_0000,
                    )
                },
            },
    {
        if !self.state.is_ready_to_mine() {
            return Err(MiningError::NotConfigured);
        }
        let entropy = self.state.entropy;
        let zeros = self.state.zeros;
        let mut nonce: u32 = 0;
        loop
            invariant
                self.state.wf(),
                self.state.is_configured,
                entropy == self.state.entropy,
                zeros == self.state.zeros,
                forall|m: u32|
                    m < nonce ==> !matches_difficulty(self.hasher.digest_of(entropy, m), zeros),
                uart@ == old(uart)@ + progress_before(entropy, nonce as nat),
            decreases u32::MAX - nonce,
        {
            let digest = self.hasher.hash(entropy, nonce);
            if nonce % INDICATOR_INTERVAL == 0 {
                led.toggle();
            }
            if nonce % PROGRESS_INTERVAL == 0 {
                send_mine_progress_message(uart, nonce, entropy);
            }
            proof {
                assert(uart@ =~= old(uart)@ + progress_before(entropy, nonce as nat + 1));
            }
            if ZeroChecker::check_zeros(&digest, zeros) {
                send_found_message(uart, nonce, &digest);
                return Ok(nonce);
            }
            if nonce == u32::MAX {
                return Err(MiningError::Overflow);
            }
            nonce = nonce + 1;
        }
    }
}

/// Builds search engines for each supported digest strategy.
pub struct MinerFactory;

impl MinerFactory {
    pub fn create_sha256_miner() -> (m: Miner<Sha256Hasher>)
        ensures
            m.state == MiningState::spec_default(),
    {
        Miner::new(Sha256Hasher)
    }

    pub fn create_keccak256_miner() -> (m: Miner<Keccak256Hasher>)
        ensures
            m.state == MiningState::spec_default(),
    {
        Miner::new(Keccak256Hasher)
    }

    pub fn create_miner_for_algorithm(algorithm: HashAlgorithm) -> (m: MinerType)
        ensures
            m.spec_algorithm() == algorithm,
            m.spec_state() == MiningState::spec_default(),
    {
        match algorithm {
            HashAlgorithm::Sha256 => MinerType::Sha256(Self::create_sha256_miner()),
            HashAlgorithm::Keccak256 => MinerType::Keccak256(Self::create_keccak256_miner()),
        }
    }
}

/// The closed set of search engines, one per digest strategy.
pub enum MinerType {
    Sha256(Miner<Sha256Hasher>),
    Keccak256(Miner<Keccak256Hasher>),
}

impl MinerType {
    /// The digest family this engine searches with.
    pub open spec fn spec_algorithm(&self) -> HashAlgorithm {
        match self {
            MinerType::Sha256(_) => HashAlgorithm::Sha256,
            MinerType::Keccak256(_) => HashAlgorithm::Keccak256,
        }
    }

    /// The configuration this engine would run under.
    pub open spec fn spec_state(&self) -> MiningState {
        match self {
            MinerType::Sha256(m) => m.state,
            MinerType::Keccak256(m) => m.state,
        }
    }

    pub fn update_state(&mut self, state: MiningState)
        ensures
            final(self).spec_state() == state,
            final(self).spec_algorithm() == old(self).spec_algorithm(),
    {
        match self {
            MinerType::Sha256(miner) => miner.update_state(state),
            MinerType::Keccak256(miner) => miner.update_state(state),
        }
    }

    /// Run the search to completion with the selected digest strategy; see
    /// [`Miner::mine`].
    pub fn mine<L: ActivityIndicator>(&mut self, uart: &mut Vec<u8>, led: &mut L) -> (r: Result<
        u32,
        MiningError,
    >)
        requires
            old(self).spec_state().wf(),
        ensures
            *final(self) == *old(self),
            spec_mine_result(old(self).spec_algorithm(), old(self).spec_state(), r),
            final(uart)@ == old(uart)@ + spec_mine_emission(
                old(self).spec_algorithm(),
                old(self).spec_state(),
                r,
            ),
    {
        let ghost a = old(self).spec_algorithm();
        let ghost s = old(self).spec_state();
        match self {
            MinerType::Sha256(miner) => {
                let r = miner.mine(uart, led);
                proof {
                    if s.is_configured {
                        match r {
                            Ok(nonce) => {
                                assert forall|m: u32| m < nonce implies !is_winning(
                                    a,
                                    s.entropy,
                                    s.zeros,
                                    m,
                                ) by {
                                    assert(!matches_difficulty(
                                        miner.hasher.digest_of(s.entropy, m),
                                        s.zeros,
                                    ));
                                }
                            },
                            Err(_) => {
                                assert forall|m: u32| !is_winning(a, s.entropy, s.zeros, m) by {
                                    assert(!matches_difficulty(
                                        miner.hasher.digest_of(s.entropy, m),
                                        s.zeros,
                                    ));
                                }
                            },
                        }
                    }
                }
                r
            },
            MinerType::Keccak256(miner) => {
                let r = miner.mine(uart, led);
                proof {
                    if s.is_configured {
                        match r {
                            Ok(nonce) => {
                                assert forall|m: u32| m < nonce implies !is_winning(
                                    a,
                                    s.entropy,
                                    s.zeros,
                                    m,
                                ) by {
                                    assert(!matches_difficulty(
                                        miner.hasher.digest_of(s.entropy, m),
                                        s.zeros,
                                    ));
                                }
                            },
                            Err(_) => {
                                assert forall|m: u32| !is_winning(a, s.entropy, s.zeros, m) by {
                                    assert(!matches_difficulty(
                                        miner.hasher.digest_of(s.entropy, m),
                                        s.zeros,
                                    ));
                                }
                            },
                        }
                    }
                }
                r
            },
        }
    }
}

} // verus!
