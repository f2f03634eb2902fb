//! The secret codec: credential-bearing fields are never stored in
//! plaintext. A present secret is encrypted with the process-wide key and
//! written in a text-safe alphabet; reading tries decode-first: text that is
//! not a token at all degrades to "absent", while a token that decodes but
//! cannot be decrypted is a hard failure, kept distinct on purpose.

use vstd::prelude::*;

use vstd::utf8::{decode_utf8, encode_utf8, valid_utf8};

verus! {

/// What `base32::encode` yields with the z-base-32 alphabet, as a function
/// of the input bytes alone.
pub uninterp spec fn base32_z(data: Seq<u8>) -> Seq<char>;

/// What `base32::decode` yields with the z-base-32 alphabet, as a function
/// of the input text alone.
pub uninterp spec fn base32_z_rev(text: Seq<char>) -> Option<Seq<u8>>;

/// Relies on `base32::encode` with `Alphabet::Z`: a total encoding of bytes
/// into alphabet characters; a non-empty input yields non-empty text.
#[verifier::external_body]
fn b32_encode(data: &[u8]) -> (r: String)
    ensures
        r@ == base32_z(data@),
        data@.len() > 0 ==> r@.len() > 0,
{
    base32::encode(base32::Alphabet::Z, data)
}

/// Relies on `base32::decode` with `Alphabet::Z`: it inverts
/// `base32::encode` exactly, and yields nothing for text outside the
/// alphabet.
#[verifier::external_body]
fn b32_decode(text: &str) -> (r: Option<Vec<u8>>)
    ensures
        r is Some <==> base32_z_rev(text@) is Some,
        r is Some ==> base32_z_rev(text@) == Some(r.unwrap()@),
        forall|d: Seq<u8>| text@ == #[trigger] base32_z(d) ==> r is Some && r.unwrap()@ == d,
{
    base32::decode(base32::Alphabet::Z, text)
}

/// Relies on `String::from_utf8`: it accepts exactly valid UTF-8 and yields
/// the text those bytes spell.
#[verifier::external_body]
fn bytes_to_string(data: Vec<u8>) -> (r: Option<String>)
    ensures
        r is Some <==> valid_utf8(data@),
        r is Some ==> r.unwrap()@ == decode_utf8(data@),
{
    String::from_utf8(data).ok()
}

/// The key fingerprint written as the first ciphertext byte, so that
/// decrypting with the wrong key fails instead of yielding garbage silently.
pub open spec fn key_tag(key: Seq<u8>) -> u8
    decreases key.len(),
{
    if key.len() == 0 {
        0
    } else {
        key_tag(key.drop_last()) ^ key.last()
    }
}

/// One plaintext byte combined with the keystream at position `i`.
pub open spec fn mix_byte(key: Seq<u8>, i: int, b: u8) -> u8 {
    b ^ key[i % key.len() as int]
}

/// The ciphertext for a plaintext byte run: the key fingerprint followed by
/// the keystream-mixed bytes.
pub open spec fn enc_bytes(key: Seq<u8>, plain: Seq<u8>) -> Seq<u8> {
    seq![key_tag(key)] + Seq::new(plain.len(), |i: int| mix_byte(key, i, plain[i]))
}

/// The plaintext byte run a ciphertext yields, or nothing when the key
/// fingerprint does not match.
pub open spec fn dec_bytes(key: Seq<u8>, cipher: Seq<u8>) -> Option<Seq<u8>> {
    if cipher.len() >= 1 && cipher[0] == key_tag(key) {
        Some(Seq::new((cipher.len() - 1) as nat, |i: int| mix_byte(key, i, cipher[i + 1])))
    } else {
        None
    }
}

/// The text a ciphertext decrypts to, or nothing when the fingerprint or
/// the byte run is unreadable.
pub open spec fn spec_decrypt(key: Seq<u8>, cipher: Seq<u8>) -> Option<Seq<char>> {
    match dec_bytes(key, cipher) {
        Some(b) => if valid_utf8(b) {
            Some(decode_utf8(b))
        } else {
            None
        },
        None => None,
    }
}

proof fn lemma_xor_involutive(x: u8, y: u8)
    ensures
        (x ^ y) ^ y == x,
{
    assert((x ^ y) ^ y == x) by (bit_vector);
}

/// Decrypting what was encrypted under the same key yields the plaintext.
pub proof fn lemma_cipher_round_trip(key: Seq<u8>, plain: Seq<u8>)
    requires
        key.len() > 0,
    ensures
        dec_bytes(key, enc_bytes(key, plain)) == Some(plain),
{
    let cipher = enc_bytes(key, plain);
    assert(cipher.len() == plain.len() + 1);
    assert(cipher[0] == key_tag(key));
    let back = dec_bytes(key, cipher).unwrap();
    assert forall|i: int| 0 <= i < plain.len() implies back[i] == plain[i] by {
        assert(cipher[i + 1] == mix_byte(key, i, plain[i]));
        lemma_xor_involutive(plain[i], key[i % key.len() as int]);
    }
    assert(back =~= plain);
}

/// The process-wide symmetric codec applied to secret-bearing fields. The
/// key material is injected at construction and owned by the surrounding
/// process, not by the settings cache.
///
/// The keyed byte mixing here is a reversible encoding with a key check,
/// standing in for the deployment's symmetric-encryption collaborator; it
/// makes no cryptographic strength claim of its own.
pub struct SecretCipher {
    key: Vec<u8>,
}

impl SecretCipher {
    /// The key material.
    pub closed spec fn spec_key(&self) -> Seq<u8> {
        self.key@
    }

    /// The key is non-empty.
    pub open spec fn wf(&self) -> bool {
        self.spec_key().len() > 0
    }

    /// Wraps key material.
    pub fn new(key: Vec<u8>) -> (r: SecretCipher)
        requires
            key@.len() > 0,
        ensures
            r.wf(),
            r.spec_key() == key@,
    {
        SecretCipher { key }
    }

    fn tag(&self) -> (t: u8)
        ensures
            t == key_tag(self.spec_key()),
    {
        let n: usize = self.key.len();
        let mut t: u8 = 0;
        let mut i: usize = 0;
        while i < n
            invariant
                n == self.key@.len(),
                i <= n,
                t == key_tag(self.key@.take(i as int)),
            decreases n - i,
        {
            proof {
                let taken = self.key@.take(i as int + 1);
                assert(taken.drop_last() =~= self.key@.take(i as int));
                assert(taken.last() == self.key@[i as int]);
            }
            t = t ^ self.key[i];
            i = i + 1;
        }
        proof {
            assert(self.key@.take(n as int) =~= self.key@);
        }
        t
    }

    /// Encrypts a plaintext under the key.
    pub fn encrypt(&self, plain: &str) -> (r: Vec<u8>)
        requires
            self.wf(),
        ensures
            r@ == enc_bytes(self.spec_key(), encode_utf8(plain@)),
    {
        let bytes: Vec<u8> = plain.as_bytes_vec();
        let n: usize = bytes.len();
        let mut out: Vec<u8> = Vec::new();
        out.push(self.tag());
        let mut i: usize = 0;
        while i < n
            invariant
                self.wf(),
                n == bytes@.len(),
                bytes@ == encode_utf8(plain@),
                i <= n,
                out@.len() == i + 1,
                out@[0] == key_tag(self.spec_key()),
                forall|j: int|
                    0 <= j < i ==> out@[j + 1] == mix_byte(self.spec_key(), j, bytes@[j]),
            decreases n - i,
        {
            let k: u8 = self.key[i % self.key.len()];
            out.push(bytes[i] ^ k);
            i = i + 1;
        }
        proof {
            assert(out@ =~= enc_bytes(self.spec_key(), encode_utf8(plain@)));
        }
        out
    }

    /// Decrypts a ciphertext under the key; yields nothing when the key
    /// fingerprint or the byte run is unreadable.
    pub fn decrypt(&self, data: &Vec<u8>) -> (r: Option<String>)
        requires
            self.wf(),
        ensures
            r is Some <==> spec_decrypt(self.spec_key(), data@) is Some,
            r matches Some(s) ==> Some(s@) == spec_decrypt(self.spec_key(), data@),
    {
        if data.len() == 0 {
            return None;
        }
        if data[0] != self.tag() {
            return None;
        }
        let n: usize = data.len();
        let mut plain: Vec<u8> = Vec::new();
        let mut i: usize = 1;
        while i < n
            invariant
                self.wf(),
                n == data@.len(),
                1 <= i <= n,
                plain@.len() == i - 1,
                forall|j: int|
                    0 <= j < i - 1 ==> plain@[j] == mix_byte(self.spec_key(), j, data@[j + 1]),
            decreases n - i,
        {
            let k: u8 = self.key[(i - 1) % self.key.len()];
            plain.push(data[i] ^ k);
            i = i + 1;
        }
        proof {
            assert(plain@ =~= dec_bytes(self.spec_key(), data@).unwrap());
        }
        bytes_to_string(plain)
    }
}

/// The stored form of a present secret.
pub open spec fn spec_secret_encode(key: Seq<u8>, plain: Seq<char>) -> Seq<char> {
    base32_z(enc_bytes(key, encode_utf8(plain)))
}

/// Encodes a plaintext secret into its storable token: encrypt, and write
/// the ciphertext in the text-safe alphabet. The token is never empty, so an
/// empty stored value always means "absent".
pub fn secret_encode(cipher: &SecretCipher, plain: &str) -> (r: String)
    requires
        cipher.wf(),
    ensures
        r@ == spec_secret_encode(cipher.spec_key(), plain@),
        r@.len() > 0,
{
    let enc: Vec<u8> = cipher.encrypt(plain);
    proof {
        assert(enc@.len() > 0);
    }
    b32_encode(enc.as_slice())
}

/// How reading a stored secret can end.
pub enum SecretOutcome {
    /// The token decoded and decrypted; the plaintext follows.
    Plain(Seq<char>),
    /// The stored text is not a token at all; the field degrades to its
    /// default instead of failing.
    NotToken,
    /// The token decoded but did not decrypt; the load must fail, since a
    /// key mismatch must not be masked by a default.
    Unreadable,
}

/// What reading stored secret text yields.
pub open spec fn spec_secret_decode(key: Seq<u8>, stored: Seq<char>) -> SecretOutcome {
    match base32_z_rev(stored) {
        Some(bytes) => match spec_decrypt(key, bytes) {
            Some(p) => SecretOutcome::Plain(p),
            None => SecretOutcome::Unreadable,
        },
        None => SecretOutcome::NotToken,
    }
}

/// The exec-side mirror of [`SecretOutcome`].
pub enum SecretRead {
    Plain(String),
    NotToken,
    Unreadable,
}

/// Reads a stored secret token back. Decoding what [`secret_encode`] wrote
/// under the same key always yields the original plaintext.
pub fn secret_decode(cipher: &SecretCipher, stored: &str) -> (r: SecretRead)
    requires
        cipher.wf(),
    ensures
        match r {
            SecretRead::Plain(s) => spec_secret_decode(cipher.spec_key(), stored@)
                == SecretOutcome::Plain(s@),
            SecretRead::NotToken => spec_secret_decode(cipher.spec_key(), stored@)
                == SecretOutcome::NotToken,
            SecretRead::Unreadable => spec_secret_decode(cipher.spec_key(), stored@)
                == SecretOutcome::Unreadable,
        },
        forall|p: Seq<char>|
            stored@ == #[trigger] spec_secret_encode(cipher.spec_key(), p) ==> (r matches
            SecretRead::Plain(s) && s@ == p),
{
    let decoded: Option<Vec<u8>> = b32_decode(stored);
    let out: SecretRead = match decoded {
        None => SecretRead::NotToken,
        Some(bytes) => {
            match cipher.decrypt(&bytes) {
                None => SecretRead::Unreadable,
                Some(s) => SecretRead::Plain(s),
            }
        },
    };
    proof {
        assert forall|p: Seq<char>|
            stored@ == #[trigger] spec_secret_encode(cipher.spec_key(), p) implies (out matches
        SecretRead::Plain(s) && s@ == p) by {
            lemma_cipher_round_trip(cipher.spec_key(), encode_utf8(p));
            vstd::utf8::encode_utf8_valid_utf8(p);
            vstd::utf8::encode_utf8_decode_utf8(p);
        }
    }
    out
}

} // verus!
