use vstd::prelude::*;

use sequoia_openpgp::policy::StandardPolicy;
use sequoia_openpgp::serialize::stream::{Armorer, Encryptor2, LiteralWriter, Message, Recipient};
use sequoia_openpgp::Cert;
use std::string::FromUtf8Error;
use vstd::utf8::{decode_utf8, decode_utf8_encode_utf8, encode_utf8, valid_utf8};

use crate::armor::{armored_message, armored_text, is_armored_message, lemma_header_not_empty};

use crate::error::EncryptError;

verus! {

#[verifier::external_type_specification]
#[verifier::external_body]
pub struct ExCert(sequoia_openpgp::Cert);

#[verifier::external_type_specification]
#[verifier::external_body]
pub struct ExStandardPolicy<'a>(sequoia_openpgp::policy::StandardPolicy<'a>);

#[verifier::external_type_specification]
#[verifier::external_body]
pub struct ExMessage<'a>(sequoia_openpgp::serialize::stream::Message<'a>);

#[verifier::external_type_specification]
#[verifier::external_body]
pub struct ExRecipient<'a>(sequoia_openpgp::serialize::stream::Recipient<'a>);

#[verifier::external_type_specification]
#[verifier::external_body]
pub struct ExAnyhowError(anyhow::Error);

#[verifier::external_type_specification]
#[verifier::external_body]
pub struct ExFromUtf8Error(std::string::FromUtf8Error);

/// Whether the text parses as exactly one OpenPGP certificate.
pub uninterp spec fn parses_as_cert(text: Seq<char>) -> bool;

/// Relies on `<Cert as FromStr>::from_str`: parses the text as one
/// certificate; whether it succeeds depends on the text alone.
#[verifier::external_body]
fn parse_cert(text: &str) -> (r: Result<Cert, anyhow::Error>)
    ensures
        r is Ok <==> parses_as_cert(text@),
{
    <Cert as std::str::FromStr>::from_str(text)
}

/// Relies on `StandardPolicy::new`: the default set of acceptable
/// algorithms and key properties.
#[verifier::external_body]
fn standard_policy() -> (r: StandardPolicy<'static>) {
    StandardPolicy::new()
}

/// Relies on `Cert::keys` and its filters `with_policy` (at the current
/// time), `supported`, `alive`, `revoked(false)` and
/// `for_transport_encryption`, and on `Recipient::from`: the keys of the
/// certificate that may receive encrypted messages now. Which keys qualify
/// depends on the current time, so nothing is stated of them.
#[verifier::external_body]
fn transport_recipients<'a>(policy: &'a StandardPolicy<'static>, cert: &'a Cert) -> (r: Vec<Recipient<'a>>) {
    cert.keys()
        .with_policy(policy, None)
        .supported()
        .alive()
        .revoked(false)
        .for_transport_encryption()
        .map(Recipient::from)
        .collect()
}

/// Relies on `Message::new`: starts a message stack that writes to the sink.
#[verifier::external_body]
fn open_message<'a>(sink: &'a mut Vec<u8>) -> (r: Message<'a>) {
    Message::new(sink)
}

/// Relies on `Armorer::build`: wraps the stack in ASCII armor for a message.
#[verifier::external_body]
fn push_armorer<'a>(inner: Message<'a>) -> (r: Result<Message<'a>, anyhow::Error>) {
    Armorer::new(inner).build()
}

/// Relies on `Encryptor2::build`: encrypts the rest of the stack to the
/// recipients; it fails when there are none.
#[verifier::external_body]
fn push_encryptor<'a>(inner: Message<'a>, recipients: Vec<Recipient<'a>>) -> (r: Result<
    Message<'a>,
    anyhow::Error,
>)
    ensures
        recipients@.len() == 0 ==> r is Err,
{
    Encryptor2::for_recipients(inner, recipients).build()
}

/// Relies on `LiteralWriter::build`: the rest of the stack becomes one
/// literal data packet.
#[verifier::external_body]
fn push_literal_writer<'a>(inner: Message<'a>) -> (r: Result<Message<'a>, anyhow::Error>) {
    LiteralWriter::new(inner).build()
}

/// Relies on `io::Write::write_all` of the message stack.
#[verifier::external_body]
fn write_bytes<'a>(message: &mut Message<'a>, bytes: &[u8]) -> (r: Result<(), anyhow::Error>) {
    std::io::Write::write_all(message, bytes).map_err(anyhow::Error::from)
}

/// Relies on `Message::finalize`: flushes and closes every layer of the
/// stack, innermost first.
#[verifier::external_body]
fn finalize_message<'a>(message: Message<'a>) -> (r: Result<(), anyhow::Error>) {
    message.finalize()
}

/// Relies on `String::from_utf8`: succeeds exactly on valid UTF-8 and then
/// holds the decoded characters.
#[verifier::external_body]
fn text_from_utf8(bytes: Vec<u8>) -> (r: Result<String, FromUtf8Error>)
    ensures
        r is Ok <==> valid_utf8(bytes@),
        r is Ok ==> r->Ok_0@ == decode_utf8(bytes@),
{
    String::from_utf8(bytes)
}

/// The description of an outside failure, with a fallback where it is empty.
fn described(text: String) -> (r: String)
    ensures
        r@.len() > 0,
        text@.len() > 0 ==> r@ == text@,
{
    if text.as_str().is_empty() {
        proof {
            reveal_strlit("unspecified failure");
        }
        "unspecified failure".to_owned()
    } else {
        text
    }
}

/// Runs the message pipeline (armor, encryption to the recipients, one
/// literal data packet) over the plaintext, writing into `out`. Without
/// recipients the encryption layer cannot be built; that failure is
/// reported as a missing-recipient error with the pipeline's own text.
fn run_pipeline<'a>(
    recipients: Vec<Recipient<'a>>,
    out: &'a mut Vec<u8>,
    plaintext: &str,
) -> (r: Result<(), EncryptError>)
    ensures
        recipients@.len() == 0 ==> r is Err,
        r is Err && r->Err_0 is NoRecipients ==> recipients@.len() == 0,
        r is Err ==> r->Err_0 is NoRecipients || r->Err_0 is Pipeline,
        r is Err ==> r->Err_0.description().len() > 0,
{
    let no_recipients = recipients.len() == 0;
    let message = open_message(out);
    let message = match push_armorer(message) {
        Ok(m) => m,
        Err(e) => return Err(EncryptError::Pipeline(described(e.to_string()))),
    };
    let message = match push_encryptor(message, recipients) {
        Ok(m) => m,
        Err(e) => {
            let text = described(e.to_string());
            if no_recipients {
                return Err(EncryptError::NoRecipients(text));
            }
            return Err(EncryptError::Pipeline(text));
        },
    };
    let mut message = match push_literal_writer(message) {
        Ok(m) => m,
        Err(e) => return Err(EncryptError::Pipeline(described(e.to_string()))),
    };
    match write_bytes(&mut message, plaintext.as_bytes()) {
        Ok(()) => {},
        Err(e) => return Err(EncryptError::Pipeline(described(e.to_string()))),
    }
    match finalize_message(message) {
        Ok(()) => Ok(()),
        Err(e) => Err(EncryptError::Pipeline(described(e.to_string()))),
    }
}

/// Encrypts the plaintext to the recipients and appends the armored message
/// to the sink. The sink changes only on success, and then only by the
/// appended message. With no recipient it fails.
pub fn encrypt_to_recipients<'a>(
    recipients: Vec<Recipient<'a>>,
    sink: &mut Vec<u8>,
    plaintext: &str,
) -> (r: Result<(), EncryptError>)
    ensures
        recipients@.len() == 0 ==> r is Err,
        r is Err && r->Err_0 is NoRecipients ==> recipients@.len() == 0,
        r is Err ==> final(sink)@ == old(sink)@,
        r is Err ==> r->Err_0 is NoRecipients || r->Err_0 is Pipeline,
        r is Err ==> r->Err_0.description().len() > 0,
        r is Ok ==> final(sink)@.len() > old(sink)@.len(),
        r is Ok ==> final(sink)@.subrange(0, old(sink)@.len() as int) == old(sink)@,
        r is Ok ==> armored_message(
            final(sink)@.subrange(old(sink)@.len() as int, final(sink)@.len() as int),
        ),
{
    let mut out: Vec<u8> = Vec::new();
    match run_pipeline(recipients, &mut out, plaintext) {
        Ok(()) => {},
        Err(e) => return Err(e),
    }
    if !is_armored_message(&out) {
        proof {
            reveal_strlit("the produced message is not ASCII-armored");
        }
        return Err(EncryptError::Pipeline("the produced message is not ASCII-armored".to_owned()));
    }
    proof {
        lemma_header_not_empty();
    }
    let ghost before = sink@;
    let ghost message = out@;
    sink.append(&mut out);
    assert(sink@.subrange(0, before.len() as int) =~= before);
    assert(sink@.subrange(before.len() as int, sink@.len() as int) =~= message);
    Ok(())
}

/// Encrypts the plaintext to the keys of the certificate that the policy
/// accepts for transport encryption, appending the armored message to the
/// sink. The sink changes only on success, and then only by the appended
/// message.
pub fn encrypt(
    policy: &StandardPolicy<'static>,
    sink: &mut Vec<u8>,
    plaintext: &str,
    recipient: &Cert,
) -> (r: Result<(), EncryptError>)
    ensures
        r is Err ==> final(sink)@ == old(sink)@,
        r is Err ==> r->Err_0 is NoRecipients || r->Err_0 is Pipeline,
        r is Err ==> r->Err_0.description().len() > 0,
        r is Ok ==> final(sink)@.len() > old(sink)@.len(),
        r is Ok ==> final(sink)@.subrange(0, old(sink)@.len() as int) == old(sink)@,
        r is Ok ==> armored_message(
            final(sink)@.subrange(old(sink)@.len() as int, final(sink)@.len() as int),
        ),
{
    let recipients = transport_recipients(policy, recipient);
    encrypt_to_recipients(recipients, sink, plaintext)
}

/// Reads the bytes of a produced message as text.
pub fn ciphertext_text(bytes: Vec<u8>) -> (r: Result<String, EncryptError>)
    ensures
        r is Ok <==> valid_utf8(bytes@),
        r is Ok ==> r->Ok_0@ == decode_utf8(bytes@),
        r is Ok ==> encode_utf8(r->Ok_0@) == bytes@,
        r is Err ==> r->Err_0 is Encoding && r->Err_0.description().len() > 0,
{
    match text_from_utf8(bytes) {
        Ok(text) => {
            proof {
                decode_utf8_encode_utf8(bytes@);
            }
            Ok(text)
        },
        Err(e) => Err(EncryptError::Encoding(described(e.to_string()))),
    }
}

/// Parses the public key text as a certificate and encrypts the secret to
/// it under the standard policy, giving the armored message as text. It
/// fails with a parse error exactly when the text is not a certificate.
pub fn encrypt_text(public_key: &str, secret: &str) -> (r: Result<String, EncryptError>)
    ensures
        !parses_as_cert(public_key@) <==> r is Err && r->Err_0 is Parse,
        r is Ok ==> armored_text(r->Ok_0@),
        r is Err ==> r->Err_0.description().len() > 0,
{
    let cert = match parse_cert(public_key) {
        Ok(c) => c,
        Err(e) => return Err(EncryptError::Parse(described(e.to_string()))),
    };
    let policy = standard_policy();
    let mut ciphertext: Vec<u8> = Vec::new();
    match encrypt(&policy, &mut ciphertext, secret, &cert) {
        Ok(()) => {},
        Err(e) => return Err(e),
    }
    assert(ciphertext@ =~= ciphertext@.subrange(0, ciphertext@.len() as int));
    ciphertext_text(ciphertext)
}

} // verus!
