//! The wallet record codec: the durable textual form of a keypair (two hex
//! fields), encoding, and decoding with its full error cascade.

use vstd::prelude::*;
use vstd::string::StringExecFns;
use crate::crypto;
use crate::errors::WalletError;
use crate::hexstr;
use crate::keypair::KeyPair;

verus! {

/// The persisted form of a keypair: the 65 public bytes and the 32 secret
/// bytes, each as lowercase hex. The `public_hex` field doubles as the
/// wallet's displayed address.
pub struct WalletRecord {
    pub public_hex: String,
    pub secret_hex: String,
}

/// What encoding a keypair yields, at the level of views.
pub open spec fn spec_encode(secret: Seq<u8>, public: Seq<u8>) -> (Seq<char>, Seq<char>) {
    (hexstr::hex_of(public), hexstr::hex_of(secret))
}

/// What decoding a record yields: the public and secret bytes, or the first
/// failing check in the documented order. The stored public value is not
/// trusted: it must re-parse as a curve point and equal the point re-derived
/// from the secret, else decoding fails with `PointNotOnCurve` or
/// `KeyMismatch`.
pub open spec fn spec_decode(public_hex: Seq<char>, secret_hex: Seq<char>) -> Result<
    (Seq<u8>, Seq<u8>),
    WalletError,
> {
    if !(hexstr::is_hex_str(public_hex) && hexstr::is_hex_str(secret_hex)) {
        Err(WalletError::InvalidEncoding)
    } else {
        let public = hexstr::bytes_of_hex(public_hex);
        let secret = hexstr::bytes_of_hex(secret_hex);
        if secret.len() != 32 {
            Err(WalletError::InvalidSecretLength)
        } else if public.len() != 65 || public[0] != 4 {
            Err(WalletError::InvalidPublicLength)
        } else if !crypto::pubkey_parses(public) {
            Err(WalletError::PointNotOnCurve)
        } else if !crypto::valid_secret(secret) {
            Err(WalletError::InvalidSecret)
        } else if public != crypto::pubkey_of(secret) {
            Err(WalletError::KeyMismatch)
        } else {
            Ok((public, secret))
        }
    }
}

/// Encodes a keypair into its record form: both fields lowercase hex, the
/// public point first. Total and deterministic.
pub fn encode(kp: &KeyPair) -> (r: WalletRecord)
    ensures
        r.public_hex@ == hexstr::hex_of(kp.public@),
        r.secret_hex@ == hexstr::hex_of(kp.secret@),
        (r.public_hex@, r.secret_hex@) == spec_encode(kp.secret@, kp.public@),
{
    WalletRecord {
        public_hex: hexstr::hex_encode(kp.public.as_slice()),
        secret_hex: hexstr::hex_encode(kp.secret.as_slice()),
    }
}

/// Decodes a record back into a keypair, running the checks of
/// `spec_decode` in order and returning exactly the error it names.
pub fn decode(rec: &WalletRecord) -> (r: Result<KeyPair, WalletError>)
    ensures
        r is Ok <==> spec_decode(rec.public_hex@, rec.secret_hex@) is Ok,
        r matches Ok(kp) ==> {
            &&& kp.wf()
            &&& kp.public@ == spec_decode(rec.public_hex@, rec.secret_hex@)->Ok_0.0
            &&& kp.secret@ == spec_decode(rec.public_hex@, rec.secret_hex@)->Ok_0.1
        },
        r matches Err(e) ==> e == spec_decode(rec.public_hex@, rec.secret_hex@)->Err_0,
{
    let public = match hexstr::hex_decode(rec.public_hex.as_str()) {
        Some(v) => v,
        None => {
            return Err(WalletError::InvalidEncoding);
        },
    };
    let secret = match hexstr::hex_decode(rec.secret_hex.as_str()) {
        Some(v) => v,
        None => {
            return Err(WalletError::InvalidEncoding);
        },
    };
    if secret.len() != 32 {
        return Err(WalletError::InvalidSecretLength);
    }
    if public.len() != 65 {
        return Err(WalletError::InvalidPublicLength);
    }
    if public[0] != 4 {
        return Err(WalletError::InvalidPublicLength);
    }
    if !crypto::public_parses(public.as_slice()) {
        return Err(WalletError::PointNotOnCurve);
    }
    let derived = match crypto::derive_public(secret.as_slice()) {
        Some(d) => d,
        None => {
            return Err(WalletError::InvalidSecret);
        },
    };
    if !(derived == public) {
        proof {
            assert(derived@ != public@);
        }
        return Err(WalletError::KeyMismatch);
    }
    proof {
        assert(derived@ =~= public@);
    }
    Ok(KeyPair { secret, public })
}

/// The document text a record is persisted as: a pretty-printed object with
/// the `public` field first, then `secret`.
pub open spec fn spec_document(public_hex: Seq<char>, secret_hex: Seq<char>) -> Seq<char> {
    "{\n  \"public\": \""@ + public_hex + "\",\n  \"secret\": \""@ + secret_hex + "\"\n}"@
}

/// Renders a record as its persisted document text. The hex fields need no
/// escaping, so the text is exactly `spec_document` of them.
pub fn render_document(rec: &WalletRecord) -> (r: String)
    ensures
        r@ == spec_document(rec.public_hex@, rec.secret_hex@),
{
    let mut out: String = "{\n  \"public\": \"".to_owned();
    out.append(rec.public_hex.as_str());
    out.append("\",\n  \"secret\": \"");
    out.append(rec.secret_hex.as_str());
    out.append("\"\n}");
    proof {
        assert(out@ =~= spec_document(rec.public_hex@, rec.secret_hex@));
    }
    out
}

/// Law: decoding what encoding produced gives the keypair back — for every
/// well-formed keypair, `spec_decode` of `spec_encode` succeeds with the
/// same secret and public bytes.
pub proof fn lemma_encode_decode(kp: KeyPair)
    requires
        kp.wf(),
    ensures
        spec_decode(hexstr::hex_of(kp.public@), hexstr::hex_of(kp.secret@)) == Ok::<
            (Seq<u8>, Seq<u8>),
            WalletError,
        >((kp.public@, kp.secret@)),
{
    hexstr::lemma_hex_round_trip(kp.public@);
    hexstr::lemma_hex_round_trip(kp.secret@);
}

} // verus!
