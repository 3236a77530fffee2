//! Key material: phrase generation, address derivation, address syntax and
//! the clock, each behind one call into its provider.
use vstd::prelude::*;
use alloy::signers::local::coins_bip39::{English, Mnemonic};
use alloy::signers::local::MnemonicBuilder;

verus! {

/// The address that a seed phrase derives to (English word list, default
/// derivation path, no password), or `None` where the phrase is malformed.
pub uninterp spec fn derived_address(phrase: Seq<char>) -> Option<Seq<char>>;

/// Whether a text is accepted as a 20-byte hex chain address.
pub uninterp spec fn address_text_ok(text: Seq<char>) -> bool;

/// Relies on alloy's `MnemonicBuilder::<English>::build` and
/// `PrivateKeySigner::address`: the phrase alone decides the outcome, an
/// error where the phrase is not a valid mnemonic, else the signer whose
/// address is rendered by `Address`'s `Display`.
#[verifier::external_body]
pub(crate) fn derive_address(phrase: &String) -> (r: Option<String>)
    ensures
        match r {
            Some(a) => derived_address(phrase@) == Some(a@),
            None => derived_address(phrase@) is None,
        },
{
    MnemonicBuilder::<English>::default().phrase(phrase.clone()).build().ok().map(
        |w| w.address().to_string(),
    )
}

/// Relies on coins_bip39's `Mnemonic::<English>::new_with_count` with the
/// thread RNG and `to_phrase`: a fresh random 24-word phrase.
#[verifier::external_body]
pub(crate) fn fresh_phrase() -> (r: Option<String>) {
    Mnemonic::<English>::new_with_count(&mut rand::thread_rng(), 24).ok().map(|m| m.to_phrase())
}

/// Relies on alloy's `Address` `FromStr`: whether the text parses.
#[verifier::external_body]
pub(crate) fn parses_as_address(text: &String) -> (r: bool)
    ensures
        r == address_text_ok(text@),
{
    text.parse::<alloy::primitives::Address>().is_ok()
}

/// Relies on std's `SystemTime::now` and `duration_since(UNIX_EPOCH)`: the
/// current time in whole seconds, `None` where the clock is before the epoch.
#[verifier::external_body]
pub(crate) fn unix_now() -> (r: Option<u64>) {
    std::time::SystemTime::now().duration_since(std::time::UNIX_EPOCH).ok().map(|d| d.as_secs())
}

} // verus!
