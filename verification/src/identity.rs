use vstd::prelude::*;

use solana_sdk::signer::Signer;

verus! {

/// The ed25519 public key derived from a 32-byte secret seed.
pub uninterp spec fn pubkey_bytes_of(secret: Seq<u8>) -> Seq<u8>;

/// The base58 text of a 32-byte public key.
pub uninterp spec fn pubkey_text_of(pubkey: Seq<u8>) -> Seq<char>;

/// The ed25519 signature over a text's bytes by the given secret seed.
pub uninterp spec fn signature_of(secret: Seq<u8>, message: Seq<char>) -> Seq<u8>;

/// Whether a signature verifies over a text's bytes under a public key.
pub uninterp spec fn signature_verifies(
    pubkey: Seq<u8>,
    message: Seq<char>,
    signature: Seq<u8>,
) -> bool;

/// Relies on solana_sdk's Keypair::new_from_array and Signer::pubkey:
/// the public key is derived from the 32-byte secret seed alone and is
/// 32 bytes long.
#[verifier::external_body]
pub fn derive_pubkey(secret: &Vec<u8>) -> (r: Vec<u8>)
    requires
        secret@.len() == 32,
    ensures
        r@ == pubkey_bytes_of(secret@),
        r@.len() == 32,
{
    let mut seed = [0u8; 32];
    seed.copy_from_slice(secret.as_slice());
    let keypair = solana_sdk::signature::Keypair::new_from_array(seed);
    keypair.pubkey().to_bytes().to_vec()
}

/// Relies on solana_sdk's Pubkey Display: the base58 text is a function
/// of the 32 key bytes alone.
#[verifier::external_body]
pub fn pubkey_display(pubkey: &Vec<u8>) -> (r: String)
    requires
        pubkey@.len() == 32,
    ensures
        r@ == pubkey_text_of(pubkey@),
{
    let mut bytes = [0u8; 32];
    bytes.copy_from_slice(pubkey.as_slice());
    solana_sdk::pubkey::Pubkey::new_from_array(bytes).to_string()
}

/// Relies on solana_sdk's Signer::sign_message for Keypair: the ed25519
/// signature is 64 bytes, a function of the secret seed and the signed
/// text alone, and verifies under the keypair's own public key.
#[verifier::external_body]
pub fn sign_text(secret: &Vec<u8>, message: &str) -> (r: Vec<u8>)
    requires
        secret@.len() == 32,
    ensures
        r@ == signature_of(secret@, message@),
        r@.len() == 64,
        signature_verifies(pubkey_bytes_of(secret@), message@, r@),
{
    let mut seed = [0u8; 32];
    seed.copy_from_slice(secret.as_slice());
    let keypair = solana_sdk::signature::Keypair::new_from_array(seed);
    keypair.sign_message(message.as_bytes()).as_ref().to_vec()
}

/// Relies on solana_sdk's Signature::verify: deterministic ed25519
/// verification of the text's bytes under the given public key.
#[verifier::external_body]
pub fn verify_text(pubkey: &Vec<u8>, message: &str, signature: &Vec<u8>) -> (r: bool)
    requires
        signature@.len() == 64,
    ensures
        r == signature_verifies(pubkey@, message@, signature@),
{
    let mut bytes = [0u8; 64];
    bytes.copy_from_slice(signature.as_slice());
    let signature = solana_sdk::signature::Signature::from(bytes);
    signature.verify(pubkey.as_slice(), message.as_bytes())
}

/// The challenge text that is signed and submitted: the identity's
/// textual representation, a dash, and the server-issued challenge.
pub fn format_challenge(pubkey_text: &str, server_challenge: &str) -> (r: String)
    ensures
        r@ == pubkey_text@ + "-"@ + server_challenge@,
{
    let mut text = String::from_str(pubkey_text);
    text.append("-");
    text.append(server_challenge);
    proof {
        assert(text@ =~= pubkey_text@ + "-"@ + server_challenge@);
    }
    text
}

/// Everything the handshake submits to obtain the credential pair.
pub struct TokenRequest {
    /// The full challenge text that was signed.
    pub challenge: String,
    /// The caller's public identity.
    pub client_pubkey: Vec<u8>,
    /// The signature over the challenge text's bytes.
    pub signed_challenge: Vec<u8>,
}

/// Forms and signs the handshake challenge: the signed payload is
/// exactly the identity's textual representation, a dash, and the
/// server-issued challenge, and the signature verifies under the
/// identity's public key.
pub fn prepare_token_request(secret: &Vec<u8>, server_challenge: &str) -> (r: TokenRequest)
    requires
        secret@.len() == 32,
    ensures
        r.client_pubkey@ == pubkey_bytes_of(secret@),
        r.challenge@ == pubkey_text_of(pubkey_bytes_of(secret@)) + "-"@ + server_challenge@,
        r.signed_challenge@ == signature_of(secret@, r.challenge@),
        signature_verifies(pubkey_bytes_of(secret@), r.challenge@, r.signed_challenge@),
{
    let client_pubkey = derive_pubkey(secret);
    let pubkey_text = pubkey_display(&client_pubkey);
    let challenge = format_challenge(pubkey_text.as_str(), server_challenge);
    let signed_challenge = sign_text(secret, challenge.as_str());
    TokenRequest { challenge, client_pubkey, signed_challenge }
}

} // verus!
