//! Trial decryption of shielded UTxOs with viewing keys.

use vstd::prelude::*;
use crate::model::{ShieldedUtxoState, ShieldedUtxoView};
use midnight_transient_crypto::encryption::{Ciphertext, SecretKey};

verus! {

/// What trial decryption reveals of a coin.
#[derive(Clone, Copy, Debug)]
pub struct DecryptedCoinInfo {
    /// Token value.
    pub value: u128,
    /// Token type id (none for the native token).
    pub token_type: Option<[u8; 32]>,
}

/// Trial decryption of shielded UTxOs with a viewing key.
pub trait UtxoDecryptor {
    /// Whether some ciphertext of `utxo` decrypts under `viewing_key`.
    fn can_decrypt(&self, viewing_key: &[u8; 32], utxo: &ShieldedUtxoState) -> bool;

    /// The coin info, if the viewing key decrypts one of the ciphertexts.
    fn decrypt_info(&self, viewing_key: &[u8; 32], utxo: &ShieldedUtxoState) -> Option<DecryptedCoinInfo>;
}

/// A decryptor that decrypts nothing.
pub struct MockDecryptor;

impl UtxoDecryptor for MockDecryptor {
    fn can_decrypt(&self, viewing_key: &[u8; 32], utxo: &ShieldedUtxoState) -> (r: bool)
        ensures
            !r,
    {
        false
    }

    fn decrypt_info(&self, viewing_key: &[u8; 32], utxo: &ShieldedUtxoState) -> (r: Option<DecryptedCoinInfo>)
        ensures
            r is None,
    {
        None
    }
}

#[verifier::external_type_specification]
#[verifier::external_body]
pub struct ExSecretKey(SecretKey);

#[verifier::external_type_specification]
#[verifier::external_body]
pub struct ExCiphertext(Ciphertext);

/// Whether 32 bytes are the representation of an encryption secret key.
pub uninterp spec fn secret_key_accepted(repr: Seq<u8>) -> bool;

/// Whether bytes are the serialization of a ciphertext.
pub uninterp spec fn ciphertext_decodes(bytes: Seq<u8>) -> bool;

/// The coin that the secret key represented by `repr` decrypts from the
/// ciphertext serialized by `bytes`, if it decrypts one: its value and the
/// 32 bytes of its token type.
pub uninterp spec fn decrypted_coin(repr: Seq<u8>, bytes: Seq<u8>) -> Option<(u128, Seq<u8>)>;

/// The coin information of a decrypted coin that the node reads: its value
/// and the 32-byte id of its token type.
#[derive(Clone, Copy, Debug, PartialEq, Eq)]
pub struct CoinInfo {
    pub value: u128,
    pub token_type: [u8; 32],
}

/// The value of an optional coin information.
pub open spec fn coin_view(c: Option<CoinInfo>) -> Option<(u128, Seq<u8>)> {
    match c {
        Some(i) => Some((i.value, i.token_type@)),
        None => None,
    }
}

/// A secret key together with the 32 bytes it was read from.
pub struct ViewingKey {
    repr: [u8; 32],
    sk: SecretKey,
}

impl ViewingKey {
    /// The bytes the key was read from.
    pub closed spec fn repr_bytes(&self) -> Seq<u8> {
        self.repr@
    }
}

/// A ciphertext together with the bytes it was read from.
pub struct DecodedCiphertext {
    bytes: Vec<u8>,
    ct: Ciphertext,
}

impl DecodedCiphertext {
    /// The bytes the ciphertext was read from.
    pub closed spec fn source_bytes(&self) -> Seq<u8> {
        self.bytes@
    }
}

/// The secret key that a viewing key represents.
///
/// Trusted: calls `SecretKey::from_repr`, which succeeds exactly when the
/// bytes are a canonical scalar, a function of the bytes alone; the bytes are
/// kept with the key.
#[verifier::external_body]
fn secret_key_from_repr(viewing_key: &[u8; 32]) -> (r: Option<ViewingKey>)
    ensures
        r is Some <==> secret_key_accepted(viewing_key@),
        r matches Some(k) ==> k.repr_bytes() == viewing_key@,
{
    let ct = SecretKey::from_repr(viewing_key);
    if ct.is_none().into() {
        None
    } else {
        Some(ViewingKey { repr: *viewing_key, sk: ct.unwrap() })
    }
}

/// The ciphertext that bytes serialize.
///
/// Trusted: calls `Deserializable::deserialize` of `Ciphertext` on the bytes
/// at recursion depth 0; whether it succeeds is a function of the bytes
/// alone. The bytes are kept with the ciphertext.
#[verifier::external_body]
fn ciphertext_from_bytes(bytes: &[u8]) -> (r: Option<DecodedCiphertext>)
    ensures
        r is Some <==> ciphertext_decodes(bytes@),
        r matches Some(c) ==> c.source_bytes() == bytes@,
{
    let mut data = bytes;
    match <Ciphertext as midnight_serialize::Deserializable>::deserialize(&mut data, 0) {
        Ok(ct) => Some(DecodedCiphertext { bytes: bytes.to_vec(), ct }),
        Err(_) => None,
    }
}

/// The value and token type of the coin info that `key` decrypts from `ct`,
/// if it does.
///
/// Trusted: calls `SecretKey::decrypt::<Info>` and copies the `value` and the
/// bytes of the `type_` of the `Info` it returns. Key and ciphertext are
/// deterministic readings of the bytes they keep (see the two functions
/// above), and decryption is deterministic, so the result is named as a
/// function of those bytes.
#[verifier::external_body]
fn decrypt_coin(key: &ViewingKey, ct: &DecodedCiphertext) -> (r: Option<CoinInfo>)
    ensures
        coin_view(r) == decrypted_coin(key.repr_bytes(), ct.source_bytes()),
{
    match key.sk.decrypt::<midnight_coin_structure::coin::Info>(&ct.ct) {
        Some(info) => Some(CoinInfo { value: info.value, token_type: info.type_.0.0 }),
        None => None,
    }
}

/// The id of the native token: the all-zero hash, as the ledger's coin
/// structure writes its native token type.
pub open spec fn native_token_id() -> Seq<u8> {
    Seq::new(32, |i: int| 0u8)
}

/// The token type a decrypted coin reports: none for the native token, else
/// the coin's token id.
pub open spec fn reported_token_type(id: Seq<u8>) -> Option<Seq<u8>> {
    if id == native_token_id() { None } else { Some(id) }
}

/// Whether a token id is the native token's.
pub fn is_native_token(id: &[u8; 32]) -> (r: bool)
    ensures
        r == (id@ == native_token_id()),
{
    let mut i: usize = 0;
    while i < 32
        invariant
            i <= 32,
            id@.len() == 32,
            forall|k: int| 0 <= k < i ==> id@[k] == 0u8,
        decreases 32 - i,
    {
        if id[i] != 0 {
            assert(id@[i as int] != native_token_id()[i as int]);
            return false;
        }
        i = i + 1;
    }
    assert(id@ =~= native_token_id());
    true
}

/// The coin that ciphertext `c` yields under the key `vk`: none when it
/// does not deserialize.
pub open spec fn trial_value(vk: Seq<u8>, c: Seq<u8>) -> Option<(u128, Seq<u8>)> {
    if ciphertext_decodes(c) { decrypted_coin(vk, c) } else { None }
}

/// The coin of the first of the ciphertexts `cts` that decrypts under `vk`.
pub open spec fn first_decrypted(vk: Seq<u8>, cts: Seq<Seq<u8>>) -> Option<(u128, Seq<u8>)>
    decreases cts.len(),
{
    if cts.len() == 0 {
        None
    } else {
        match trial_value(vk, cts[0]) {
            Some(v) => Some(v),
            None => first_decrypted(vk, cts.drop_first()),
        }
    }
}

/// What trial decryption of ciphertexts gives with a viewing key: nothing
/// for a key that is no secret key, else the coin of the first ciphertext
/// that decrypts.
pub open spec fn spec_trial_decrypt(vk: Seq<u8>, cts: Seq<Seq<u8>>) -> Option<(u128, Seq<u8>)> {
    if secret_key_accepted(vk) { first_decrypted(vk, cts) } else { None }
}

/// A decryptor that uses the ledger's encryption scheme.
pub struct RealDecryptor;

impl RealDecryptor {
    /// Tries the ciphertexts in order with the viewing key and returns the
    /// coin information of the first coin that decrypts; ciphertexts that do
    /// not deserialize are skipped. A viewing key that is no secret key
    /// decrypts nothing.
    pub fn try_decrypt_ciphertexts(viewing_key: &[u8; 32], ciphertexts: &Vec<Vec<u8>>) -> (r: Option<CoinInfo>)
        ensures
            coin_view(r) == spec_trial_decrypt(viewing_key@, ciphertexts@.map_values(|c: Vec<u8>| c@)),
    {
        let ghost cts = ciphertexts@.map_values(|c: Vec<u8>| c@);
        let key = match secret_key_from_repr(viewing_key) {
            Some(k) => k,
            None => {
                return None;
            },
        };
        let mut i: usize = 0;
        assert(cts.skip(0) =~= cts);
        while i < ciphertexts.len()
            invariant
                i <= ciphertexts.len(),
                cts == ciphertexts@.map_values(|c: Vec<u8>| c@),
                secret_key_accepted(viewing_key@),
                key.repr_bytes() == viewing_key@,
                first_decrypted(viewing_key@, cts) == first_decrypted(viewing_key@, cts.skip(i as int)),
            decreases ciphertexts.len() - i,
        {
            let ghost rest = cts.skip(i as int);
            assert(rest[0] == ciphertexts@[i as int]@);
            assert(rest.drop_first() =~= cts.skip(i + 1));
            match ciphertext_from_bytes(ciphertexts[i].as_slice()) {
                Some(ct) => {
                    match decrypt_coin(&key, &ct) {
                        Some(v) => {
                            return Some(v);
                        },
                        None => {},
                    }
                },
                None => {},
            }
            i = i + 1;
        }
        assert(cts.skip(i as int).len() == 0);
        None
    }
}

impl UtxoDecryptor for RealDecryptor {
    fn can_decrypt(&self, viewing_key: &[u8; 32], utxo: &ShieldedUtxoState) -> (r: bool)
        ensures
            r == spec_trial_decrypt(viewing_key@, utxo@.ciphertexts) is Some,
    {
        Self::try_decrypt_ciphertexts(viewing_key, &utxo.ciphertexts).is_some()
    }

    fn decrypt_info(&self, viewing_key: &[u8; 32], utxo: &ShieldedUtxoState) -> (r: Option<DecryptedCoinInfo>)
        ensures
            match spec_trial_decrypt(viewing_key@, utxo@.ciphertexts) {
                Some(c) => r matches Some(info) && info.value == c.0
                    && match reported_token_type(c.1) {
                        Some(id) => info.token_type matches Some(t) && t@ == id,
                        None => info.token_type is None,
                    },
                None => r is None,
            },
    {
        match Self::try_decrypt_ciphertexts(viewing_key, &utxo.ciphertexts) {
            Some(coin) => {
                let token_type = if is_native_token(&coin.token_type) { None } else { Some(coin.token_type) };
                Some(DecryptedCoinInfo { value: coin.value, token_type })
            },
            None => None,
        }
    }
}

/// Ciphertexts none of which deserializes decrypt to nothing, whatever the key.
pub proof fn lemma_undecodable_decrypts_nothing(vk: Seq<u8>, cts: Seq<Seq<u8>>)
    requires
        forall|i: int| 0 <= i < cts.len() ==> !ciphertext_decodes(#[trigger] cts[i]),
    ensures
        spec_trial_decrypt(vk, cts) is None,
    decreases cts.len(),
{
    if cts.len() > 0 {
        assert(!ciphertext_decodes(cts[0]));
        assert forall|i: int| 0 <= i < cts.drop_first().len() implies !ciphertext_decodes(#[trigger] cts.drop_first()[i]) by {
            assert(cts.drop_first()[i] == cts[i + 1]);
        }
        lemma_undecodable_decrypts_nothing(vk, cts.drop_first());
    }
}

/// Trial decryption only looks at ciphertexts up to the first that yields a
/// coin: appending ciphertexts after one that decrypts changes nothing.
pub proof fn lemma_first_decryption_wins(vk: Seq<u8>, cts: Seq<Seq<u8>>, more: Seq<Seq<u8>>)
    requires
        first_decrypted(vk, cts) is Some,
    ensures
        first_decrypted(vk, cts + more) == first_decrypted(vk, cts),
    decreases cts.len(),
{
    if cts.len() > 0 {
        assert((cts + more)[0] == cts[0]);
        if trial_value(vk, cts[0]) is None {
            assert((cts + more).drop_first() =~= cts.drop_first() + more);
            lemma_first_decryption_wins(vk, cts.drop_first(), more);
        }
    }
}


/// Whether ciphertext `c` deserializes and decrypts to a coin under `vk`.
pub open spec fn opens(vk: Seq<u8>, c: Seq<u8>) -> bool {
    ciphertext_decodes(c) && decrypted_coin(vk, c) is Some
}

proof fn lemma_first_decrypted_is_first_opening(vk: Seq<u8>, cts: Seq<Seq<u8>>)
    ensures
        (exists|i: int| 0 <= i < cts.len() && #[trigger] opens(vk, cts[i])) ==> first_decrypted(vk, cts) is Some,
        first_decrypted(vk, cts) matches Some(c) ==> exists|i: int| 0 <= i < cts.len()
            && #[trigger] opens(vk, cts[i]) && decrypted_coin(vk, cts[i]) == Some(c)
            && forall|j: int| 0 <= j < i ==> !opens(vk, #[trigger] cts[j]),
    decreases cts.len(),
{
    if cts.len() > 0 {
        let rest = cts.drop_first();
        lemma_first_decrypted_is_first_opening(vk, rest);
        if trial_value(vk, cts[0]) is None {
            assert(!opens(vk, cts[0]));
            if exists|i: int| 0 <= i < cts.len() && #[trigger] opens(vk, cts[i]) {
                let i = choose|i: int| 0 <= i < cts.len() && #[trigger] opens(vk, cts[i]);
                assert(i > 0);
                assert(rest[i - 1] == cts[i]);
                assert(opens(vk, rest[i - 1]));
            }
            if first_decrypted(vk, cts) is Some {
                let c = first_decrypted(vk, cts)->0;
                let i2 = choose|i: int| 0 <= i < rest.len()
                    && #[trigger] opens(vk, rest[i]) && decrypted_coin(vk, rest[i]) == Some(c)
                    && forall|j: int| 0 <= j < i ==> !opens(vk, #[trigger] rest[j]);
                let i = i2 + 1;
                assert(cts[i] == rest[i2]);
                assert forall|j: int| 0 <= j < i implies !opens(vk, #[trigger] cts[j]) by {
                    if j > 0 {
                        assert(cts[j] == rest[j - 1]);
                    }
                }
                assert(opens(vk, cts[i]));
            }
        } else {
            assert(opens(vk, cts[0]));
        }
    }
}

/// Trial decryption finds a coin whenever one of the ciphertexts opens under
/// the viewing key (which must be a secret key); the coin it gives is that of
/// the first ciphertext that opens, every earlier one being passed over.
pub proof fn lemma_trial_decrypt_finds_first_opening(vk: Seq<u8>, cts: Seq<Seq<u8>>)
    ensures
        secret_key_accepted(vk) && (exists|i: int| 0 <= i < cts.len() && #[trigger] opens(vk, cts[i]))
            ==> spec_trial_decrypt(vk, cts) is Some,
        !secret_key_accepted(vk) ==> spec_trial_decrypt(vk, cts) is None,
        (forall|i: int| 0 <= i < cts.len() ==> !opens(vk, #[trigger] cts[i])) ==> spec_trial_decrypt(vk, cts) is None,
        spec_trial_decrypt(vk, cts) matches Some(c) ==> exists|i: int| 0 <= i < cts.len()
            && #[trigger] opens(vk, cts[i]) && decrypted_coin(vk, cts[i]) == Some(c)
            && forall|j: int| 0 <= j < i ==> !opens(vk, #[trigger] cts[j]),
{
    lemma_first_decrypted_is_first_opening(vk, cts);
    if spec_trial_decrypt(vk, cts) is Some {
        let c = spec_trial_decrypt(vk, cts)->0;
        let i = choose|i: int| 0 <= i < cts.len()
            && #[trigger] opens(vk, cts[i]) && decrypted_coin(vk, cts[i]) == Some(c)
            && forall|j: int| 0 <= j < i ==> !opens(vk, #[trigger] cts[j]);
        assert(opens(vk, cts[i]));
    }
}

/// A ciphertext that does not open under the key, whether it fails to
/// deserialize or deserializes but does not decrypt, is passed over.
pub proof fn lemma_unopened_ciphertext_passed_over(vk: Seq<u8>, c: Seq<u8>, cts: Seq<Seq<u8>>)
    requires
        !opens(vk, c),
    ensures
        spec_trial_decrypt(vk, seq![c] + cts) == spec_trial_decrypt(vk, cts),
{
    let all = seq![c] + cts;
    assert(all[0] == c);
    assert(all.drop_first() =~= cts);
}

} // verus!
