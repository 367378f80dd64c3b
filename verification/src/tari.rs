//! Calls into the Tari crates: seeds, keys, addresses and amounts.
//!
//! Everything here is believed, not proved. A name without a definition stands for what a function
//! of those crates returns; the functions below say which one.

use std::str::FromStr;

use tari_common::configuration::Network;
use tari_common_types::seeds::cipher_seed::CipherSeed;
use tari_common_types::seeds::mnemonic::{Mnemonic, MnemonicLanguage};
use tari_common_types::seeds::seed_words::SeedWords;
use tari_common_types::tari_address::{TariAddress, TariAddressFeatures};
use tari_common_types::types::CompressedPublicKey;
use tari_transaction_components::consensus::ConsensusConstantsBuilder;
use tari_transaction_components::key_manager::wallet_types::{SeedWordsWallet, WalletType};
use tari_transaction_components::key_manager::KeyManager;
use tari_transaction_components::offline_signing::models::{
    PrepareOneSidedTransactionForSigningResult, SignedOneSidedTransactionResult,
};
use tari_transaction_components::offline_signing::sign_locked_transaction;
use tari_transaction_components::tari_amount::MicroMinotari;
use tari_transaction_components::transaction_components::MemoField;
use tari_utilities::byte_array::ByteArray;

use vstd::prelude::*;

use crate::amount::{plain_number, safe_amount};
use crate::driver::{result_view, text_result_view};
use crate::signable::{signable, AddressSize, MemoSize};
use crate::text::{hex_digits, texts, trim};

verus! {

/// A wallet seed: version, birthday, entropy and salt.
#[verifier::external_type_specification]
#[verifier::external_body]
pub struct ExCipherSeed(CipherSeed);

/// What `CipherSeed::from_mnemonic` makes of a phrase split at its spaces, or the text of its error.
pub uninterp spec fn seed_of(phrase: Seq<char>) -> Result<CipherSeed, Seq<char>>;

/// The birthday of a seed, in days.
pub uninterp spec fn seed_birthday(seed: CipherSeed) -> u16;

/// The entropy of a seed, from which its keys derive.
pub uninterp spec fn seed_entropy(seed: CipherSeed) -> Seq<u8>;

/// The salt of a seed, with which its phrase is enciphered.
pub uninterp spec fn seed_salt(seed: CipherSeed) -> Seq<u8>;

/// What `CipherSeed::to_mnemonic` writes in English, joined by spaces, for a seed with that birthday,
/// entropy and salt.
pub uninterp spec fn phrase_of(birthday: u16, entropy: Seq<u8>, salt: Seq<u8>) -> Seq<char>;

/// The public view and spend keys of the seed-words wallet with that entropy.
pub uninterp spec fn public_keys(entropy: Seq<u8>) -> (Seq<u8>, Seq<u8>);

/// The base58 text of the one-sided dual address of a view and a spend key on the Esmeralda network.
pub uninterp spec fn dual_address(view_key: Seq<u8>, spend_key: Seq<u8>) -> Seq<char>;

/// What `MicroMinotari::from_str` reads, or the text of its error.
pub uninterp spec fn micro_minotari(text: Seq<char>) -> Result<u64, Seq<char>>;

/// `SeedWords::from_str`, which only splits at spaces and never fails, then
/// `CipherSeed::from_mnemonic` without a passphrase. The same phrase always gives the same seed, and
/// the empty phrase gives none. Some languages are looked up without diacritics and without any
/// characters outside ASCII, so that nothing is said of what else a phrase with a seed may hold.
#[verifier::external_body]
pub(crate) fn recover_seed(phrase: &str) -> (r: Result<CipherSeed, String>)
    ensures
        result_view(r) == seed_of(phrase@),
        r is Ok ==> phrase@.len() > 0,
{
    let words = SeedWords::from_str(phrase).map_err(|error| error.to_string())?;
    CipherSeed::from_mnemonic(&words, None).map_err(|error| error.to_string())
}

/// `CipherSeed::random`: entropy and salt by chance, today as birthday. Nothing is said of it.
#[verifier::external_body]
pub(crate) fn random_seed() -> (r: CipherSeed) {
    CipherSeed::random()
}

/// `CipherSeed::change_birthday` sets the birthday and leaves entropy and salt as they are.
pub assume_specification[ CipherSeed::change_birthday ](seed: &mut CipherSeed, birthday: u16)
    ensures
        seed_birthday(*final(seed)) == birthday,
        seed_entropy(*final(seed)) == seed_entropy(*old(seed)),
        seed_salt(*final(seed)) == seed_salt(*old(seed)),
;

/// `CipherSeed::to_mnemonic` in English without a passphrase, then `SeedWords::join` with a space.
/// Enciphering works with parameters and lengths that are fixed, and each group of bits is the number
/// of a word, so that it always succeeds. The phrase depends on birthday, entropy and salt alone; it
/// has no white space at its ends, and `CipherSeed::from_mnemonic` reads from it a seed with the same
/// birthday, entropy and salt.
#[verifier::external_body]
pub(crate) fn write_seed(seed: &CipherSeed) -> (r: Result<String, String>)
    ensures
        r is Ok,
        r->Ok_0@ == phrase_of(seed_birthday(*seed), seed_entropy(*seed), seed_salt(*seed)),
        r->Ok_0@.len() > 0,
        trim(r->Ok_0@) == r->Ok_0@,
        seed_of(r->Ok_0@) is Ok,
        seed_birthday(seed_of(r->Ok_0@)->Ok_0) == seed_birthday(*seed),
        seed_entropy(seed_of(r->Ok_0@)->Ok_0) == seed_entropy(*seed),
        seed_salt(seed_of(r->Ok_0@)->Ok_0) == seed_salt(*seed),
{
    seed.to_mnemonic(MnemonicLanguage::English, None)
        .map(|words| words.join(" ").reveal().to_string())
        .map_err(|error| error.to_string())
}

/// `SeedWordsWallet::construct_new`, then `WalletType::get_public_view_key` and
/// `get_public_spend_key`. The private keys are made from digests of the length that they need, so
/// that it always succeeds. The keys derive from the entropy alone, and each has 32 bytes.
#[verifier::external_body]
pub(crate) fn wallet_public_keys(seed: CipherSeed) -> (r: Result<(Vec<u8>, Vec<u8>), String>)
    ensures
        r is Ok,
        (r->Ok_0.0@, r->Ok_0.1@) == public_keys(seed_entropy(seed)),
        r->Ok_0.0@.len() == 32,
        r->Ok_0.1@.len() == 32,
{
    let wallet = SeedWordsWallet::construct_new(seed).map_err(|error| error.to_string())?;
    let wallet = WalletType::SeedWords(wallet);
    let view_key = wallet.get_public_view_key().as_bytes().to_vec();
    let spend_key = wallet.get_public_spend_key().as_bytes().to_vec();
    Ok((view_key, spend_key))
}

/// `TariAddress::new_dual_address` for one-sided payments on Esmeralda without a payment id, then
/// `to_base58`. Keys of 32 bytes are all it needs.
#[verifier::external_body]
pub(crate) fn address_text(view_key: &Vec<u8>, spend_key: &Vec<u8>) -> (r: Option<String>)
    ensures
        r is Some == (view_key@.len() == 32 && spend_key@.len() == 32),
        r matches Some(address) ==> address@ == dual_address(view_key@, spend_key@),
{
    let view_key = CompressedPublicKey::from_canonical_bytes(view_key).ok()?;
    let spend_key = CompressedPublicKey::from_canonical_bytes(spend_key).ok()?;
    let features = TariAddressFeatures::create_one_sided_only();
    TariAddress::new_dual_address(view_key, spend_key, Network::Esmeralda, features, None)
        .ok()
        .map(|address| address.to_base58())
}

/// `MicroMinotari::from_str`. A text of digits only is read as that number of µT; what it makes of
/// other texts is not said.
#[verifier::external_body]
pub(crate) fn read_amount(text: &str) -> (r: Result<u64, String>)
    requires
        safe_amount(text@),
    ensures
        result_view(r) == micro_minotari(text@),
        plain_number(text@) is Some ==> r is Ok && r->Ok_0 == plain_number(text@)->0,
{
    MicroMinotari::from_str(text).map(|amount| amount.as_u64()).map_err(|error| error.to_string())
}

/// A key manager of a wallet.
#[verifier::external_type_specification]
#[verifier::external_body]
pub struct ExKeyManager(KeyManager);

/// A transaction that a wallet daemon has drafted.
#[verifier::external_type_specification]
#[verifier::external_body]
pub struct ExPreparedTransaction(PrepareOneSidedTransactionForSigningResult);

/// A transaction that has been signed.
#[verifier::external_type_specification]
#[verifier::external_body]
pub struct ExSignedTransaction(SignedOneSidedTransactionResult);

/// A memo that goes with an amount.
#[verifier::external_type_specification]
#[verifier::external_body]
pub struct ExMemoField(MemoField);

/// A drafted transaction, with its id and its fee in µT.
pub struct Draft {
    pub payload: PrepareOneSidedTransactionForSigningResult,
    pub tx_id: u64,
    pub fee_paid: u64,
}

/// The draft in a JSON text with its transaction id and its fee, or the text of the parser's error.
pub uninterp spec fn draft_in(body: Seq<char>) -> Result<
    (PrepareOneSidedTransactionForSigningResult, u64, u64),
    Seq<char>,
>;

/// An outcome that `sign_locked_transaction` can have on a key manager and a draft: a signed
/// transaction, or the text of an error.
pub uninterp spec fn may_sign(
    manager: KeyManager,
    payload: PrepareOneSidedTransactionForSigningResult,
    outcome: Result<SignedOneSidedTransactionResult, Seq<char>>,
) -> bool;

/// The values of the outputs that a draft brings along, in µT.
pub uninterp spec fn output_amounts(payload: PrepareOneSidedTransactionForSigningResult) -> Seq<u64>;

/// What the recipients of a draft are to get, in µT.
pub uninterp spec fn recipient_amounts(payload: PrepareOneSidedTransactionForSigningResult) -> Seq<u64>;

/// The memos of a draft that are sealed into outputs: those of its recipients, then those of the
/// outputs that it brings along.
pub uninterp spec fn sealed_memos(payload: PrepareOneSidedTransactionForSigningResult) -> Seq<MemoField>;

/// The other memos of a draft: those of its inputs, then its own.
pub uninterp spec fn open_memos(payload: PrepareOneSidedTransactionForSigningResult) -> Seq<MemoField>;

/// The lengths in a memo.
pub uninterp spec fn memo_size(memo: MemoField) -> MemoSize;

/// The lengths of the address of a draft's first recipient, if it has one.
pub uninterp spec fn first_address_size(payload: PrepareOneSidedTransactionForSigningResult) -> Option<
    AddressSize,
>;

/// The ids of the keys of a draft's inputs, then of its outputs: for each, its mask and its script.
pub uninterp spec fn key_ids(payload: PrepareOneSidedTransactionForSigningResult) -> Seq<Seq<char>>;

/// The key manager of a seed.
pub uninterp spec fn key_manager_of(seed: CipherSeed) -> KeyManager;

/// Nonce and signature of the excess signature of a transaction's first kernel, by their bytes.
pub uninterp spec fn kernel_signature_of(signed: SignedOneSidedTransactionResult) -> Option<(Seq<u8>, Seq<u8>)>;

/// A signed transaction as JSON text, or the text of the writer's error.
pub uninterp spec fn transaction_json_of(signed: SignedOneSidedTransactionResult) -> Result<Seq<char>, Seq<char>>;

/// A draft by its parts, or the text of an error.
pub open spec fn draft_view(r: Result<Draft, String>) -> Result<
    (PrepareOneSidedTransactionForSigningResult, u64, u64),
    Seq<char>,
> {
    match r {
        Ok(draft) => Ok((draft.payload, draft.tx_id, draft.fee_paid)),
        Err(message) => Err(message@),
    }
}

/// `serde_json::from_str` into a `PrepareOneSidedTransactionForSigningResult`, with its `tx_id` and
/// the `fee` of its `info`.
#[verifier::external_body]
pub(crate) fn read_draft(body: &str) -> (r: Result<Draft, String>)
    ensures
        draft_view(r) == draft_in(body@),
{
    let payload: PrepareOneSidedTransactionForSigningResult =
        serde_json::from_str(body).map_err(|error| error.to_string())?;
    let tx_id: u64 = payload.tx_id.into();
    let fee_paid = payload.info.fee.as_u64();
    Ok(Draft { payload, tx_id, fee_paid })
}

/// `SeedWordsWallet::construct_new`, which always succeeds, then `KeyManager::new`, which fails for
/// hardware wallets only.
#[verifier::external_body]
pub(crate) fn open_key_manager(seed: CipherSeed) -> (r: Result<KeyManager, String>)
    ensures
        r is Ok,
        r->Ok_0 == key_manager_of(seed),
{
    let wallet = SeedWordsWallet::construct_new(seed).map_err(|error| error.to_string())?;
    KeyManager::new(WalletType::SeedWords(wallet)).map_err(|error| error.to_string())
}

/// `WalletOutput::value` of each of a draft's `outputs`.
#[verifier::external_body]
pub(crate) fn read_output_amounts(payload: &PrepareOneSidedTransactionForSigningResult) -> (r: Vec<u64>)
    ensures
        r@ == output_amounts(*payload),
{
    payload.info.outputs.iter().map(|output| output.value().as_u64()).collect()
}

/// The `amount` of each of a draft's `recipients`.
#[verifier::external_body]
pub(crate) fn read_recipient_amounts(payload: &PrepareOneSidedTransactionForSigningResult) -> (r: Vec<u64>)
    ensures
        r@ == recipient_amounts(*payload),
{
    payload.info.recipients.iter().map(|recipient| recipient.amount.as_u64()).collect()
}

/// The `payment_id` of each of a draft's `recipients`, and `WalletOutput::payment_id` of each of its
/// `outputs`.
#[verifier::external_body]
pub(crate) fn read_sealed_memos(payload: &PrepareOneSidedTransactionForSigningResult) -> (r: Vec<MemoField>)
    ensures
        r@ == sealed_memos(*payload),
{
    let recipients = payload.info.recipients.iter().map(|recipient| recipient.payment_id.clone());
    recipients.chain(payload.info.outputs.iter().map(|output| output.payment_id().clone())).collect()
}

/// `WalletOutput::payment_id` of each of a draft's `inputs`, and the draft's own `payment_id`.
#[verifier::external_body]
pub(crate) fn read_open_memos(payload: &PrepareOneSidedTransactionForSigningResult) -> (r: Vec<MemoField>)
    ensures
        r@ == open_memos(*payload),
{
    let inputs = payload.info.inputs.iter().map(|input| input.payment_id().clone());
    inputs.chain(std::iter::once(payload.info.payment_id.clone())).collect()
}

/// The lengths that `MemoField` tells: `TariAddress::get_size` and the length of `TariAddress::to_vec`
/// for `get_sender_address` or `get_recipient_address`, of which at most one gives an address; the
/// length of `payment_id_as_bytes`; and that of `get_sent_hashes`.
#[verifier::external_body]
pub(crate) fn measure_memo(memo: &MemoField) -> (r: MemoSize)
    ensures
        r == memo_size(*memo),
{
    let address = memo.get_sender_address().or(memo.get_recipient_address());
    MemoSize {
        address: address.map(|address| AddressSize {
            declared: address.get_size(),
            written: address.to_vec().len(),
        }),
        payment_id: memo.payment_id_as_bytes().len(),
        hashes: memo.get_sent_hashes().map(|hashes| hashes.len()),
    }
}

/// `TariAddress::get_size` and the length of `TariAddress::to_vec` for the `address` of a draft's first
/// recipient.
#[verifier::external_body]
pub(crate) fn read_first_address_size(payload: &PrepareOneSidedTransactionForSigningResult) -> (r: Option<
    AddressSize,
>)
    ensures
        r == first_address_size(*payload),
{
    payload.info.recipients.first().map(|recipient| AddressSize {
        declared: recipient.address.get_size(),
        written: recipient.address.to_vec().len(),
    })
}

/// The texts of `WalletOutput::commitment_mask_key_id` and `WalletOutput::script_key_id` for each of a
/// draft's `inputs` and `outputs`.
#[verifier::external_body]
pub(crate) fn read_key_ids(payload: &PrepareOneSidedTransactionForSigningResult) -> (r: Vec<String>)
    ensures
        texts(r@) == key_ids(*payload),
{
    payload.info.inputs.iter().chain(payload.info.outputs.iter())
        .flat_map(|output| [output.commitment_mask_key_id(), output.script_key_id()])
        .map(|key_id| key_id.to_string())
        .collect()
}

/// `sign_locked_transaction` under the consensus constants of Esmeralda.
///
/// It adds up the outputs and the recipients' amounts, each with a check, and then the two totals
/// without one. `MemoField::to_bytes` writes the lengths in a memo with an address as single bytes,
/// and an encrypted memo is copied into a buffer whose length follows from what
/// `TariAddress::get_size` tells of that address. Key ids are followed by recursion. The draft has to
/// allow all of that.
///
/// Signatures are made with random nonces: of the outcome it is only said that it is one that the call
/// can have.
#[verifier::external_body]
pub(crate) fn sign_draft(
    manager: &KeyManager,
    payload: PrepareOneSidedTransactionForSigningResult,
) -> (r: Result<SignedOneSidedTransactionResult, String>)
    requires
        signable(payload),
    ensures
        may_sign(*manager, payload, result_view(r)),
{
    let constants = ConsensusConstantsBuilder::new(Network::Esmeralda).build();
    sign_locked_transaction(manager, constants, Network::Esmeralda, payload)
        .map_err(|error| error.to_string())
}

/// A pair of byte lists by their bytes.
pub open spec fn byte_pair_view(pair: Option<(Vec<u8>, Vec<u8>)>) -> Option<(Seq<u8>, Seq<u8>)> {
    match pair {
        Some((a, b)) => Some((a@, b@)),
        None => None,
    }
}

/// The first of `AggregateBody::kernels` of a signed transaction: `get_compressed_public_nonce` and
/// `get_signature` of its excess signature.
#[verifier::external_body]
pub(crate) fn kernel_signature(signed: &SignedOneSidedTransactionResult) -> (r: Option<(Vec<u8>, Vec<u8>)>)
    ensures
        byte_pair_view(r) == kernel_signature_of(*signed),
{
    let kernel = signed.signed_transaction.transaction.body().kernels().first()?;
    let nonce = kernel.excess_sig.get_compressed_public_nonce().as_bytes().to_vec();
    let signature = kernel.excess_sig.get_signature().as_bytes().to_vec();
    Some((nonce, signature))
}

/// `serde_json::to_string` of the transaction inside a signed one.
#[verifier::external_body]
pub(crate) fn transaction_json(signed: &SignedOneSidedTransactionResult) -> (r: Result<String, String>)
    ensures
        text_result_view(r) == transaction_json_of(*signed),
{
    serde_json::to_string(&signed.signed_transaction.transaction).map_err(|error| error.to_string())
}

/// `hex::encode` writes each byte as two lower-case hexadecimal digits.
#[verifier::external_body]
pub(crate) fn encode_hex(bytes: &Vec<u8>) -> (r: String)
    ensures
        r@ == hex_digits(bytes@),
{
    hex::encode(bytes)
}

} // verus!
