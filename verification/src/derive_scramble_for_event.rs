use vstd::prelude::*;
use vstd::string::StringSliceAdditionalSpecFns;
use vstd::utf8::is_ascii_chars;

use rand::RngCore;
use sha2::Digest;

use crate::event::{event_id, Event};
use crate::strings::{concat_strs, contains_char, decimal, decimal_string, str_equals};

verus! {

/// A fixed (non-zero) value to distinguish a valid byte string from a random one.
pub const PROTOCOL_INDICATOR: u8 = 0x67;

/// The number of bytes of a derivation seed.
pub const DERIVATION_SEED_BYTE_LENGTH: usize = 32;

/// The derivation level at which scrambles are derived.
pub const SCRAMBLE_DERIVATION_LEVEL: u8 = 8;

/// An error for an argument that the caller passed.
#[derive(Debug)]
pub struct ArgumentError {
    pub description: String,
}

// ------------------------------------------------------------------------------------------
// Trusted items: SHA-256 (`sha2`), hex (`hex`), ASCII (`ascii`), randomness (`rand`).
// ------------------------------------------------------------------------------------------

/// The SHA-256 digest of a byte sequence (32 bytes).
pub uninterp spec fn sha256_digest(data: Seq<u8>) -> Seq<u8>;

/// `sha2::Sha256::digest`: the result is the SHA-256 digest of `data`, as a function of `data`
/// alone. Nothing more is stated of the digest.
#[verifier::external_body]
fn sha256(data: &[u8]) -> (r: [u8; 32])
    ensures
        r@ == sha256_digest(data@),
{
    sha2::Sha256::digest(data).into()
}

/// The value of one hex digit byte (either case), as `hex` reads it.
pub open spec fn hex_digit_value(b: u8) -> Option<u8> {
    if 0x30 <= b <= 0x39 {
        Some((b - 0x30) as u8)
    } else if 0x61 <= b <= 0x66 {
        Some((b - 0x61 + 10) as u8)
    } else if 0x41 <= b <= 0x46 {
        Some((b - 0x41 + 10) as u8)
    } else {
        None
    }
}

/// The bytes that a hex text (given as its bytes) stands for: two digits per byte, high digit
/// first; `None` for an odd length or a byte that is not a hex digit.
pub open spec fn hex_decoded(s: Seq<u8>) -> Option<Seq<u8>> {
    if s.len() % 2 == 0 && forall|i: int| 0 <= i < s.len() ==> (#[trigger] hex_digit_value(s[i])) is Some {
        Some(
            Seq::new(
                (s.len() / 2) as nat,
                |k: int|
                    (hex_digit_value(s[2 * k]).unwrap() * 16 + hex_digit_value(s[2 * k + 1]).unwrap()) as u8,
            ),
        )
    } else {
        None
    }
}

/// The lower-case hex digit for `n < 16`.
pub open spec fn lower_hex_char(n: int) -> char {
    if n < 10 {
        (0x30 + n) as char
    } else {
        (0x61 + n - 10) as char
    }
}

/// The lower-case hex text of a byte sequence: two digits per byte, high digit first.
pub open spec fn hex_encoded(bytes: Seq<u8>) -> Seq<char> {
    Seq::new(
        2 * bytes.len(),
        |i: int|
            if i % 2 == 0 {
                lower_hex_char((bytes[i / 2] / 16) as int)
            } else {
                lower_hex_char((bytes[i / 2] % 16) as int)
            },
    )
}

/// The bytes of a text made of ASCII characters.
pub open spec fn ascii_bytes(chars: Seq<char>) -> Seq<u8> {
    Seq::new(chars.len(), |i: int| chars[i] as u8)
}

/// `hex::decode`: `None` exactly when the input has odd length or holds a byte that is not a hex
/// digit; otherwise the decoded bytes, two digits per byte with the high digit first.
#[verifier::external_body]
fn hex_decode(data: &[u8]) -> (r: Option<Vec<u8>>)
    ensures
        r is None <==> hex_decoded(data@) is None,
        r matches Some(v) ==> hex_decoded(data@) == Some(v@),
{
    hex::decode(data).ok()
}

/// `hex::encode`: two lower-case hex digits per byte, high digit first.
#[verifier::external_body]
fn hex_encode(data: &[u8]) -> (r: String)
    ensures
        r@ == hex_encoded(data@),
{
    hex::encode(data)
}

/// `ascii::AsciiString::from_ascii`: succeeds exactly when every character is ASCII; the
/// resulting string holds the same characters.
#[verifier::external_body]
fn ascii_string_from(s: &str) -> (r: Option<String>)
    ensures
        r is Some <==> is_ascii_chars(s@),
        r matches Some(t) ==> t@ == s@,
{
    ascii::AsciiString::from_ascii(s).ok().map(String::from)
}

/// `rand::rng().fill_bytes`: 32 bytes from the thread's random number generator. Nothing is
/// stated of them: they come from chance.
#[verifier::external_body]
fn thread_random_bytes() -> (r: [u8; 32]) {
    let mut bytes: [u8; 32] = [0; 32];
    rand::rng().fill_bytes(&mut bytes);
    bytes
}

// ------------------------------------------------------------------------------------------
// Seeds
// ------------------------------------------------------------------------------------------

/// The first byte of a byte array.
pub fn protocol_indicator(array: &[u8]) -> (r: u8)
    requires
        array@.len() > 0,
    ensures
        r == array@[0],
{
    array[0]
}

/// The level after one more derivation: one more, capped at `0xFF`.
pub open spec fn next_level(level: u8) -> u8 {
    if level == 0xFF {
        0xFF
    } else {
        (level + 1) as u8
    }
}

/// A level that does not exceed `0xFF`.
pub open spec fn capped_level(level: int) -> u8 {
    if level >= 0xFF {
        0xFF
    } else {
        level as u8
    }
}

/// The bytes of the seed derived from `seed` with a salt whose hash is `salt_hash`.
pub open spec fn derived_seed_bytes(seed: Seq<u8>, salt_hash: Seq<u8>) -> Seq<u8> {
    sha256_digest(seed + salt_hash).update(0, PROTOCOL_INDICATOR).update(1, next_level(seed[1]))
}

/// The bytes of the seed derived through a hierarchy of salts, given by their hashes, in order.
pub open spec fn hierarchy_seed_bytes(seed: Seq<u8>, salt_hashes: Seq<Seq<u8>>) -> Seq<u8>
    decreases salt_hashes.len(),
{
    if salt_hashes.len() == 0 {
        seed
    } else {
        derived_seed_bytes(
            hierarchy_seed_bytes(seed, salt_hashes.drop_last()),
            salt_hashes.last(),
        )
    }
}

/// Deriving through two hierarchies one after the other is deriving through the one hierarchy
/// that joins them.
pub proof fn lemma_hierarchy_concatenation(seed: Seq<u8>, first: Seq<Seq<u8>>, second: Seq<Seq<u8>>)
    ensures
        hierarchy_seed_bytes(seed, first + second) == hierarchy_seed_bytes(
            hierarchy_seed_bytes(seed, first),
            second,
        ),
    decreases second.len(),
{
    if second.len() == 0 {
        assert(first + second =~= first);
    } else {
        lemma_hierarchy_concatenation(seed, first, second.drop_last());
        assert((first + second).drop_last() =~= first + second.drop_last());
        assert((first + second).last() == second.last());
    }
}

/// A 32-byte derivation seed: byte 0 is the protocol indicator, byte 1 is the derivation level.
#[derive(Copy, Clone, Debug)]
pub struct DerivationSeed([u8; 32]);

impl DerivationSeed {
    #[verifier::type_invariant]
    spec fn well_formed(self) -> bool {
        self.0@[0] == PROTOCOL_INDICATOR
    }

    /// The seed's bytes.
    pub closed spec fn bytes(self) -> Seq<u8> {
        self.0@
    }

    /// A seed made of the given bytes; refused unless the first byte is `0x67`.
    pub fn try_new(bytes: [u8; 32]) -> (r: Result<Self, ArgumentError>)
        ensures
            bytes@[0] == PROTOCOL_INDICATOR <==> r is Ok,
            r matches Ok(seed) ==> seed.bytes() == bytes@,
            r matches Err(e) ==> e.description@
                == "Invalid protocol indicator. The first byte must be 0x67."@,
    {
        if protocol_indicator(&bytes) != PROTOCOL_INDICATOR {
            return Err(
                ArgumentError {
                    description: "Invalid protocol indicator. The first byte must be 0x67.".to_owned(),
                },
            );
        }
        Ok(Self(bytes))
    }

    /// A seed made of random bytes, with the protocol indicator first and the level `0xFF`.
    pub fn from_random_bytes(bytes: [u8; 32]) -> (r: Self)
        ensures
            r.bytes() == bytes@.update(0, PROTOCOL_INDICATOR).update(1, 0xFF),
    {
        let mut bytes = bytes;
        bytes[0] = PROTOCOL_INDICATOR;
        bytes[1] = 0xFF;
        Self(bytes)
    }

    /// A seed from the thread's random number generator, with the level `0xFF`.
    pub fn from_thread_rng() -> (r: Self)
        ensures
            r.bytes()[0] == PROTOCOL_INDICATOR,
            r.bytes()[1] == 0xFF,
    {
        Self::from_random_bytes(thread_random_bytes())
    }

    /// The derivation level (byte 1).
    pub fn level(&self) -> (r: u8)
        ensures
            r == self.bytes()[1],
            self.bytes().len() == 32,
            self.bytes()[0] == PROTOCOL_INDICATOR,
    {
        proof {
            use_type_invariant(self);
        }
        self.0[1]
    }

    /// The seed derived from this one with the given salt: the SHA-256 digest of the seed
    /// followed by the salt's hash, with the protocol indicator written over byte 0 and the
    /// next level over byte 1.
    pub fn derive(&self, derivation_salt: &DerivationSalt) -> (r: Self)
        ensures
            r.bytes() == derived_seed_bytes(self.bytes(), derivation_salt.hashed_salt()),
            sha256_digest(self.bytes() + derivation_salt.hashed_salt()).len() == 32,
            forall|i: int|
                2 <= i < 32 ==> #[trigger] r.bytes()[i] == sha256_digest(
                    self.bytes() + derivation_salt.hashed_salt(),
                )[i],
            r.bytes().len() == 32,
            r.bytes()[0] == PROTOCOL_INDICATOR,
            r.bytes()[1] == next_level(self.bytes()[1]),
            derivation_salt.hashed_salt() == sha256_digest(ascii_bytes(derivation_salt.salt_text())),
    {
        proof {
            use_type_invariant(derivation_salt);
        }
        let mut data: [u8; 64] = [0; 64];
        let mut i: usize = 0;
        while i < 32
            invariant
                0 <= i <= 32,
                forall|k: int| 0 <= k < i ==> data@[k] == self.0@[k],
                forall|k: int| 32 <= k < i + 32 ==> data@[k] == derivation_salt.hashed_salt@[k - 32],
            decreases 32 - i,
        {
            data[i] = self.0[i];
            data[i + 32] = derivation_salt.hashed_salt[i];
            i += 1;
        }
        assert(data@ =~= self.0@ + derivation_salt.hashed_salt@);
        let mut out = sha256(&data);
        out[0] = PROTOCOL_INDICATOR;
        // The level does not overflow: it is capped at `0xFF`.
        out[1] = if self.0[1] == 0xFF {
            0xFF
        } else {
            self.0[1] + 1
        };
        Self(out)
    }

    /// The seed derived through each salt of the hierarchy in turn.
    pub fn derive_hierarchy(&self, derivation_salts: &Vec<DerivationSalt>) -> (r: Self)
        ensures
            r.bytes() == hierarchy_seed_bytes(self.bytes(), salt_hashes(derivation_salts@)),
            r.bytes()[1] == capped_level(self.bytes()[1] + derivation_salts@.len()),
    {
        proof {
            use_type_invariant(self);
        }
        let mut derivation_seed = *self;
        let mut i: usize = 0;
        while i < derivation_salts.len()
            invariant
                0 <= i <= derivation_salts@.len(),
                derivation_seed.bytes() == hierarchy_seed_bytes(
                    self.bytes(),
                    salt_hashes(derivation_salts@.take(i as int)),
                ),
                derivation_seed.bytes()[1] == capped_level(self.bytes()[1] + i),
            decreases derivation_salts@.len() - i,
        {
            proof {
                assert(salt_hashes(derivation_salts@.take(i + 1)).drop_last() =~= salt_hashes(
                    derivation_salts@.take(i as int),
                ));
            }
            derivation_seed = derivation_seed.derive(&derivation_salts[i]);
            i += 1;
        }
        assert(derivation_salts@.take(i as int) =~= derivation_salts@);
        derivation_seed
    }

    /// The seed written as hex text (either case, two digits per byte).
    pub fn from_str(value: &str) -> (r: Result<Self, String>)
        ensures
            match hex_decoded(value.spec_bytes()) {
                None => r matches Err(e) && e@ == "Invalid hex byte input."@,
                Some(b) => if b.len() != 32 {
                    r matches Err(e) && e@ == "Invalid hex byte length: "@ + decimal(b.len())
                        + " (expected: 32 bytes)"@
                } else if b[0] != PROTOCOL_INDICATOR {
                    r matches Err(e) && e@
                        == "Invalid protocol indicator. The first byte must be 0x67."@
                } else {
                    r matches Ok(seed) && seed.bytes() == b
                },
            },
    {
        let Some(bytes) = hex_decode(value.as_bytes()) else {
            return Err("Invalid hex byte input.".to_owned());
        };
        let len = bytes.len();
        if len != DERIVATION_SEED_BYTE_LENGTH {
            let message = concat_strs("Invalid hex byte length: ", decimal_string(len as u64).as_str());
            return Err(concat_strs(message.as_str(), " (expected: 32 bytes)"));
        }
        let mut derivation_seed_bytes: [u8; 32] = [0; 32];
        let mut i: usize = 0;
        while i < 32
            invariant
                0 <= i <= 32,
                bytes@.len() == 32,
                forall|k: int| 0 <= k < i ==> derivation_seed_bytes@[k] == bytes@[k],
            decreases 32 - i,
        {
            derivation_seed_bytes[i] = bytes[i];
            i += 1;
        }
        assert(derivation_seed_bytes@ =~= bytes@);
        match DerivationSeed::try_new(derivation_seed_bytes) {
            Ok(seed) => Ok(seed),
            Err(err) => Err(err.description),
        }
    }

    /// The seed as lower-case hex text. A seed always has 32 bytes and the protocol indicator
    /// first, so `from_str` reads the text back as this seed (`lemma_seed_text_round_trip`).
    pub fn to_string(&self) -> (r: String)
        ensures
            r@ == hex_encoded(self.bytes()),
            self.bytes().len() == 32,
            self.bytes()[0] == PROTOCOL_INDICATOR,
    {
        proof {
            use_type_invariant(self);
        }
        hex_encode(&self.0)
    }
}

/// The hashes of a sequence of salts.
pub open spec fn salt_hashes(salts: Seq<DerivationSalt>) -> Seq<Seq<u8>> {
    Seq::new(salts.len(), |i: int| salts[i].hashed_salt())
}

impl View for DerivationSeed {
    type V = Seq<u8>;

    open spec fn view(&self) -> Seq<u8> {
        self.bytes()
    }
}

// ------------------------------------------------------------------------------------------
// Salts
// ------------------------------------------------------------------------------------------

/// A salt: a non-empty ASCII text without slashes, with its SHA-256 hash.
#[derive(Debug)]
pub struct DerivationSalt {
    unhashed_salt: String,
    hashed_salt: [u8; 32],
}

impl DerivationSalt {
    /// The salt's text.
    pub closed spec fn salt_text(self) -> Seq<char> {
        self.unhashed_salt@
    }

    /// The salt's hash.
    pub closed spec fn hashed_salt(self) -> Seq<u8> {
        self.hashed_salt@
    }

    #[verifier::type_invariant]
    spec fn well_formed(self) -> bool {
        &&& self.unhashed_salt@.len() > 0
        &&& !self.unhashed_salt@.contains('/')
        &&& is_ascii_chars(self.unhashed_salt@)
        &&& self.hashed_salt@ == sha256_digest(ascii_bytes(self.unhashed_salt@))
    }

    /// A salt with the given text; refused when empty, holding a slash or not ASCII.
    pub fn from_str(salt: &str) -> (r: Result<Self, String>)
        ensures
            salt@.len() == 0 ==> (r matches Err(e) && e@
                == "Empty salt values are not currently allowed."@),
            salt@.len() > 0 && salt@.contains('/') ==> (r matches Err(e) && e@
                == "Salt values must not contain slashes."@),
            salt@.len() > 0 && !salt@.contains('/') && !is_ascii_chars(salt@) ==> (r matches Err(e)
                && e@ == "Salt values must currently be ASCII."@),
            salt@.len() > 0 && !salt@.contains('/') && is_ascii_chars(salt@) ==> (r matches Ok(s)
                && s.salt_text() == salt@ && s.hashed_salt() == sha256_digest(ascii_bytes(salt@))),
    {
        if salt.is_empty() {
            return Err("Empty salt values are not currently allowed.".to_owned());
        }
        if contains_char(salt, '/') {
            return Err("Salt values must not contain slashes.".to_owned());
        }
        let unhashed_salt = match ascii_string_from(salt) {
            Some(unhashed_salt) => unhashed_salt,
            None => return Err("Salt values must currently be ASCII.".to_owned()),
        };
        let salt_str = unhashed_salt.as_str();
        let bytes = salt_str.as_bytes();
        proof {
            broadcast use vstd::string::is_ascii_spec_bytes;
            assert(vstd::string::is_ascii(salt_str));
            assert(bytes@ =~= ascii_bytes(salt@));
        }
        let hashed_salt = sha256(bytes);
        Ok(Self { unhashed_salt, hashed_salt })
    }

    /// The salt for an event: the event's ID.
    pub fn from(event: Event) -> (r: Self)
        ensures
            r.salt_text() == event_id(event),
            r.hashed_salt() == sha256_digest(ascii_bytes(event_id(event))),
    {
        let id = event.id();
        proof {
            lemma_event_id_is_salt(event);
        }
        match Self::from_str(id) {
            Ok(salt) => salt,
            Err(_) => {
                proof {
                    assert(false);
                }
                Self::from_str(id).unwrap()
            },
        }
    }

    /// The salt's text: non-empty ASCII without slashes, whose SHA-256 hash is the salt's hash.
    pub fn unhashed_salt(&self) -> (r: &str)
        ensures
            r@ == self.salt_text(),
            r@.len() > 0,
            !r@.contains('/'),
            is_ascii_chars(r@),
            self.hashed_salt() == sha256_digest(ascii_bytes(r@)),
    {
        proof {
            use_type_invariant(self);
        }
        self.unhashed_salt.as_str()
    }
}

impl Clone for DerivationSalt {
    fn clone(&self) -> (r: Self)
        ensures
            r == *self,
    {
        proof {
            use_type_invariant(self);
        }
        Self { unhashed_salt: self.unhashed_salt.clone(), hashed_salt: self.hashed_salt }
    }
}

/// The hex digit of a value below 16 is read back as that value.
proof fn lemma_hex_digit_round_trip(n: int)
    requires
        0 <= n < 16,
    ensures
        hex_digit_value(lower_hex_char(n) as u8) == Some(n as u8),
{
}

/// Hex text is ASCII, and reading the hex text of a byte sequence gives the sequence back.
pub proof fn lemma_hex_round_trip(bytes: Seq<u8>)
    ensures
        is_ascii_chars(hex_encoded(bytes)),
        hex_decoded(ascii_bytes(hex_encoded(bytes))) == Some(bytes),
{
    let text = ascii_bytes(hex_encoded(bytes));
    assert forall|i: int| 0 <= i < text.len() implies (#[trigger] hex_digit_value(text[i])) is Some by {
        if i % 2 == 0 {
            lemma_hex_digit_round_trip((bytes[i / 2] / 16) as int);
        } else {
            lemma_hex_digit_round_trip((bytes[i / 2] % 16) as int);
        }
    }
    assert forall|k: int| 0 <= k < bytes.len() implies (hex_digit_value(text[2 * k]).unwrap() * 16
        + hex_digit_value(text[2 * k + 1]).unwrap()) as u8 == bytes[k] by {
        lemma_hex_digit_round_trip((bytes[k] / 16) as int);
        lemma_hex_digit_round_trip((bytes[k] % 16) as int);
        assert((2 * k) / 2 == k);
        assert((2 * k + 1) / 2 == k);
    }
    assert(hex_decoded(text).unwrap() =~= bytes);
}

/// Any text that holds the hex form of a seed's bytes is read back as those bytes, so that
/// `DerivationSeed::from_str` gives back the seed that `to_string` wrote.
pub proof fn lemma_seed_text_round_trip(seed_bytes: Seq<u8>, text: &str)
    requires
        text@ == hex_encoded(seed_bytes),
    ensures
        hex_decoded(text.spec_bytes()) == Some(seed_bytes),
{
    broadcast use vstd::string::is_ascii_spec_bytes;

    lemma_hex_round_trip(seed_bytes);
    assert(vstd::string::is_ascii(text));
    assert(text.spec_bytes() =~= ascii_bytes(text@));
}

// ------------------------------------------------------------------------------------------
// Scramble derivation
// ------------------------------------------------------------------------------------------

/// The seed from which the scramble for `subevent` is drawn: the given seed is derived through
/// the salt hierarchy, must then be at the scramble derivation level (8), and is derived once
/// more with the subevent's ID as salt. When the hierarchy has at least two levels, the
/// second-to-last must be the subevent's ID.
pub fn derive_scramble_for_event_seeded(
    derivation_seed: &DerivationSeed,
    derivation_salt_hierarchy: &Vec<DerivationSalt>,
    subevent: Event,
) -> (r: Result<DerivationSeed, String>)
    ensures
        ({
            let salts = derivation_salt_hierarchy@;
            let n = salts.len();
            let derived = hierarchy_seed_bytes(derivation_seed.bytes(), salt_hashes(salts));
            if n > 1 && salts[n - 2].salt_text() != event_id(subevent) {
                r matches Err(e) && e@ == "Mismatched subevent in second-to-last level of hierarchy"@
            } else if derived[1] != SCRAMBLE_DERIVATION_LEVEL {
                r matches Err(e) && e@ == "Expected derivation level 8, saw: "@ + decimal(
                    derived[1] as nat,
                )
            } else {
                r matches Ok(seed) && seed.bytes() == derived_seed_bytes(
                    derived,
                    sha256_digest(ascii_bytes(event_id(subevent))),
                )
            }
        }),
{
    let n = derivation_salt_hierarchy.len();
    if n > 1 && !str_equals(derivation_salt_hierarchy[n - 2].unhashed_salt(), subevent.id()) {
        return Err("Mismatched subevent in second-to-last level of hierarchy".to_owned());
    }
    let derivation_seed = derivation_seed.derive_hierarchy(derivation_salt_hierarchy);
    if derivation_seed.level() != SCRAMBLE_DERIVATION_LEVEL {
        return Err(
            concat_strs(
                "Expected derivation level 8, saw: ",
                decimal_string(derivation_seed.level() as u64).as_str(),
            ),
        );
    }
    let salt = DerivationSalt::from(subevent);
    proof {
        use_type_invariant(&salt);
    }
    Ok(derivation_seed.derive(&salt))
}

// ------------------------------------------------------------------------------------------
// Seeded random numbers
// ------------------------------------------------------------------------------------------

/// The `n` little-endian bytes of `x` (the lowest byte first), dropping higher bytes.
pub open spec fn le_bytes(x: nat, n: nat) -> Seq<u8>
    decreases n,
{
    if n == 0 {
        Seq::empty()
    } else {
        seq![(x % 256) as u8] + le_bytes(x / 256, (n - 1) as nat)
    }
}

/// The number that a little-endian byte sequence stands for.
pub open spec fn le_value(bytes: Seq<u8>) -> nat
    decreases bytes.len(),
{
    if bytes.len() == 0 {
        0
    } else {
        (bytes[0] + 256 * le_value(bytes.drop_first())) as nat
    }
}

/// `256` to the power `n`.
pub open spec fn pow256(n: nat) -> nat
    decreases n,
{
    if n == 0 {
        1
    } else {
        256 * pow256((n - 1) as nat)
    }
}

/// The bytes that a seeded random number generator hashes for its `index`-th number: the seed,
/// sixteen zero bytes, and the index as sixteen little-endian bytes.
pub open spec fn rng_hash_input(seed: Seq<u8>, index: nat) -> Seq<u8> {
    seed + Seq::new(16, |i: int| 0u8) + le_bytes(index, 16)
}

/// The `index`-th number of a seeded random number generator: the first eight bytes of the
/// SHA-256 digest of its input, read as a little-endian number.
pub open spec fn rng_value(seed: Seq<u8>, index: nat) -> nat {
    le_value(sha256_digest(rng_hash_input(seed, index)).take(8))
}

/// A little-endian sequence of `n` bytes stands for a number below `256^n`.
proof fn lemma_le_value_bound(bytes: Seq<u8>)
    ensures
        le_value(bytes) < pow256(bytes.len()),
    decreases bytes.len(),
{
    if bytes.len() > 0 {
        let rest = bytes.drop_first();
        lemma_le_value_bound(rest);
        let a = le_value(rest);
        let p = pow256(rest.len());
        assert(bytes[0] + 256 * a < 256 * p) by (nonlinear_arith)
            requires
                a < p,
                bytes[0] < 256,
        ;
    }
}

/// A random number generator that draws its numbers from a derivation seed, one hash per number.
pub struct DerivationSeedRng {
    derivation_seed: DerivationSeed,
    index: u128,
}

impl DerivationSeedRng {
    /// The seed that the generator draws from.
    pub closed spec fn seed(self) -> Seq<u8> {
        self.derivation_seed.bytes()
    }

    /// How many numbers the generator has drawn.
    pub closed spec fn position(self) -> nat {
        self.index as nat
    }

    /// A generator at the start of the seed's numbers.
    pub fn new(derivation_seed: DerivationSeed) -> (r: Self)
        ensures
            r.seed() == derivation_seed.bytes(),
            r.position() == 0,
    {
        Self { derivation_seed, index: 0 }
    }

    /// The next 64-bit number.
    pub fn next_u64(&mut self) -> (r: u64)
        requires
            old(self).position() < u128::MAX,
        ensures
            r == rng_value(old(self).seed(), old(self).position()),
            final(self).seed() == old(self).seed(),
            final(self).position() == old(self).position() + 1,
    {
        let mut data: [u8; 64] = [0; 64];
        let mut i: usize = 0;
        while i < 32
            invariant
                0 <= i <= 32,
                forall|k: int| 0 <= k < i ==> data@[k] == self.derivation_seed.0@[k],
                forall|k: int| i <= k < 64 ==> data@[k] == 0,
            decreases 32 - i,
        {
            data[i] = self.derivation_seed.0[i];
            i += 1;
        }
        let mut x: u128 = self.index;
        let mut k: usize = 0;
        while k < 16
            invariant
                0 <= k <= 16,
                forall|j: int| 0 <= j < 32 ==> data@[j] == self.derivation_seed.0@[j],
                forall|j: int| 32 <= j < 48 ==> data@[j] == 0,
                forall|j: int| 48 + k <= j < 64 ==> data@[j] == 0,
                le_bytes(self.index as nat, 16) == data@.subrange(48, 48 + k as int) + le_bytes(
                    x as nat,
                    (16 - k) as nat,
                ),
            decreases 16 - k,
        {
            let ghost before = data@.subrange(48, 48 + k as int);
            data[48 + k] = (x % 256) as u8;
            assert(data@.subrange(48, 48 + k as int + 1) =~= before + seq![(x % 256) as u8]);
            assert(le_bytes(x as nat, (16 - k) as nat) == seq![(x % 256) as u8] + le_bytes(
                (x / 256) as nat,
                (16 - k - 1) as nat,
            ));
            x = x / 256;
            k += 1;
        }
        assert(data@ =~= rng_hash_input(self.derivation_seed.0@, self.index as nat));
        let hash = sha256(&data);
        let mut value: u64 = 0;
        let mut t: usize = 8;
        while t > 0
            invariant
                0 <= t <= 8,
                hash@.len() == 32,
                value as nat == le_value(hash@.subrange(t as int, 8)),
            decreases t,
        {
            proof {
                lemma_le_value_bound(hash@.subrange(t as int, 8));
                assert(hash@.subrange(t as int - 1, 8).drop_first() =~= hash@.subrange(t as int, 8));
                assert(pow256(0) == 1);
                assert(pow256(1) == 256);
                assert(pow256(2) == 65536);
                assert(pow256(3) == 16777216);
                assert(pow256(4) == 4294967296);
                assert(pow256(5) == 1099511627776);
                assert(pow256(6) == 281474976710656);
                assert(pow256(7) == 72057594037927936);
            }
            value = value * 256 + hash[t - 1] as u64;
            t -= 1;
        }
        assert(hash@.subrange(0, 8) =~= hash@.take(8));
        self.index = self.index + 1;
        value
    }

    /// The next 32-bit number: the low half of the next 64-bit number.
    pub fn next_u32(&mut self) -> (r: u32)
        requires
            old(self).position() < u128::MAX,
        ensures
            r == rng_value(old(self).seed(), old(self).position()) % 0x1_0000_0000,
            final(self).seed() == old(self).seed(),
            final(self).position() == old(self).position() + 1,
    {
        let v = self.next_u64();
        let r = (v % 0x1_0000_0000) as u32;
        r
    }
}

/// Every event ID is a valid salt text: non-empty ASCII without slashes.
proof fn lemma_event_id_is_salt(event: Event)
    ensures
        event_id(event).len() > 0,
        !event_id(event).contains('/'),
        is_ascii_chars(event_id(event)),
{
    match event {
        Event::Cube3x3x3Speedsolving => reveal_strlit("333"),
        Event::Cube2x2x2Speedsolving => reveal_strlit("222"),
        Event::Cube4x4x4Speedsolving => reveal_strlit("444"),
        Event::Cube5x5x5Speedsolving => reveal_strlit("555"),
        Event::Cube6x6x6Speedsolving => reveal_strlit("666"),
        Event::Cube7x7x7Speedsolving => reveal_strlit("777"),
        Event::Cube3x3x3Blindfolded => reveal_strlit("333bf"),
        Event::Cube3x3x3FewestMoves => reveal_strlit("333fm"),
        Event::Cube3x3x3OneHanded => reveal_strlit("333oh"),
        Event::ClockSpeedsolving => reveal_strlit("clock"),
        Event::MegaminxSpeedsolving => reveal_strlit("minx"),
        Event::PyraminxSpeedsolving => reveal_strlit("pyram"),
        Event::SkewbSpeedsolving => reveal_strlit("skewb"),
        Event::Square1Speedsolving => reveal_strlit("sq1"),
        Event::Cube4x4x4Blindfolded => reveal_strlit("444bf"),
        Event::Cube5x5x5Blindfolded => reveal_strlit("555bf"),
        Event::Cube3x3x3MultiBlind => reveal_strlit("333mbf"),
        Event::FTOSpeedsolving => reveal_strlit("fto"),
        Event::MasterTetraminxSpeedsolving => reveal_strlit("master_tetraminx"),
        Event::KilominxSpeedsolving => reveal_strlit("kilominx"),
        Event::RediCubeSpeedsolving => reveal_strlit("redi_cube"),
        Event::BabyFTOSpeedsolving => reveal_strlit("baby_fto"),
    }
}

} // verus!
