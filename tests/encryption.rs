use std::io::Read;

use sequoia_openpgp::cert::CertBuilder;
use sequoia_openpgp::crypto::SessionKey;
use sequoia_openpgp::packet::{PKESK, SKESK};
use sequoia_openpgp::parse::stream::{
    DecryptionHelper, DecryptorBuilder, MessageStructure, VerificationHelper,
};
use sequoia_openpgp::parse::Parse;
use sequoia_openpgp::policy::StandardPolicy;
use sequoia_openpgp::serialize::SerializeInto;
use sequoia_openpgp::types::SymmetricAlgorithm;
use sequoia_openpgp::{Cert, Fingerprint, KeyHandle};

use web_encrypt::error::EncryptError;
use web_encrypt::pgp::{ciphertext_text, encrypt, encrypt_text};

const HEADER: &str = "-----BEGIN PGP MESSAGE-----";
const FOOTER: &str = "-----END PGP MESSAGE-----";

fn key_with_encryption_subkey() -> Cert {
    CertBuilder::new()
        .add_userid("alice@example.org")
        .add_transport_encryption_subkey()
        .generate()
        .expect("key generation")
        .0
}

fn key_without_encryption_subkey() -> Cert {
    CertBuilder::new()
        .add_userid("bob@example.org")
        .add_signing_subkey()
        .generate()
        .expect("key generation")
        .0
}

fn armored_public(cert: &Cert) -> String {
    String::from_utf8(cert.armored().to_vec().expect("armor")).expect("armor is text")
}

struct SecretHolder<'a> {
    cert: &'a Cert,
}

impl<'a> VerificationHelper for SecretHolder<'a> {
    fn get_certs(&mut self, _ids: &[KeyHandle]) -> sequoia_openpgp::Result<Vec<Cert>> {
        Ok(Vec::new())
    }

    fn check(&mut self, _structure: MessageStructure) -> sequoia_openpgp::Result<()> {
        Ok(())
    }
}

impl<'a> DecryptionHelper for SecretHolder<'a> {
    fn decrypt<D>(
        &mut self,
        pkesks: &[PKESK],
        _skesks: &[SKESK],
        sym_algo: Option<SymmetricAlgorithm>,
        mut decrypt: D,
    ) -> sequoia_openpgp::Result<Option<Fingerprint>>
    where
        D: FnMut(SymmetricAlgorithm, &SessionKey) -> bool,
    {
        let policy = StandardPolicy::new();
        for ka in self
            .cert
            .keys()
            .unencrypted_secret()
            .with_policy(&policy, None)
            .for_transport_encryption()
        {
            let mut pair = ka.key().clone().into_keypair()?;
            for pkesk in pkesks {
                if let Some((algo, sk)) = pkesk.decrypt(&mut pair, sym_algo) {
                    if decrypt(algo, &sk) {
                        return Ok(Some(ka.fingerprint()));
                    }
                }
            }
        }
        Err(anyhow::Error::msg("no key could decrypt the message"))
    }
}

fn decrypt_with(cert: &Cert, message: &str) -> Vec<u8> {
    let policy = StandardPolicy::new();
    let mut reader = DecryptorBuilder::from_bytes(message.as_bytes())
        .expect("message parses")
        .with_policy(&policy, None, SecretHolder { cert })
        .expect("message decrypts");
    let mut out = Vec::new();
    reader.read_to_end(&mut out).expect("plaintext reads");
    out
}

fn assert_armored(text: &str) {
    assert!(text.starts_with(HEADER), "starts with the header: {}", text);
    assert!(text.trim_end().ends_with(FOOTER), "ends with the footer: {}", text);
    assert!(text.bytes().all(|b| b.is_ascii()));
}

#[test]
fn round_trip_ascii_plaintext() {
    let cert = key_with_encryption_subkey();
    let text = encrypt_text(&armored_public(&cert), "attack at dawn").expect("encrypts");
    assert_armored(&text);
    assert_eq!(decrypt_with(&cert, &text), b"attack at dawn".to_vec());
}

#[test]
fn round_trip_empty_plaintext() {
    let cert = key_with_encryption_subkey();
    let text = encrypt_text(&armored_public(&cert), "").expect("encrypts");
    assert_armored(&text);
    assert_eq!(decrypt_with(&cert, &text), Vec::<u8>::new());
}

#[test]
fn round_trip_non_ascii_plaintext() {
    let cert = key_with_encryption_subkey();
    let secret = "дружба – 友情 ✓";
    let text = encrypt_text(&armored_public(&cert), secret).expect("encrypts");
    assert_armored(&text);
    assert_eq!(decrypt_with(&cert, &text), secret.as_bytes().to_vec());
}

#[test]
fn plaintext_does_not_appear_in_output() {
    let cert = key_with_encryption_subkey();
    let secret = "a very recognisable secret phrase";
    let text = encrypt_text(&armored_public(&cert), secret).expect("encrypts");
    assert!(!text.contains(secret));
}

#[test]
fn repeated_encryption_gives_two_valid_messages() {
    let cert = key_with_encryption_subkey();
    let key = armored_public(&cert);
    let first = encrypt_text(&key, "same secret").expect("encrypts");
    let second = encrypt_text(&key, "same secret").expect("encrypts");
    assert_ne!(first, second);
    assert_eq!(decrypt_with(&cert, &first), b"same secret".to_vec());
    assert_eq!(decrypt_with(&cert, &second), b"same secret".to_vec());
}

#[test]
fn no_transport_key_is_rejected_without_output() {
    let cert = key_without_encryption_subkey();
    let policy = StandardPolicy::new();
    let mut sink: Vec<u8> = b"earlier bytes".to_vec();
    let r = encrypt(&policy, &mut sink, "secret", &cert);
    match r {
        Err(EncryptError::NoRecipients(m)) => assert!(!m.is_empty()),
        other => panic!("expected a missing-recipient error, got {:?}", other),
    }
    assert_eq!(sink, b"earlier bytes".to_vec());
}

#[test]
fn no_transport_key_fails_the_text_flow() {
    let cert = key_without_encryption_subkey();
    let r = encrypt_text(&armored_public(&cert), "secret");
    assert!(matches!(r, Err(EncryptError::NoRecipients(_))));
}

#[test]
fn encrypt_writes_armored_message_to_sink() {
    let cert = key_with_encryption_subkey();
    let policy = StandardPolicy::new();
    let mut sink: Vec<u8> = Vec::new();
    encrypt(&policy, &mut sink, "to the sink", &cert).expect("encrypts");
    let text = String::from_utf8(sink).expect("text");
    assert_armored(&text);
    assert_eq!(decrypt_with(&cert, &text), b"to the sink".to_vec());
}

#[test]
fn random_text_is_not_a_certificate() {
    let r = encrypt_text("this is not a key", "secret");
    match r {
        Err(EncryptError::Parse(m)) => assert!(!m.is_empty()),
        other => panic!("expected a parse error, got {:?}", other),
    }
}

#[test]
fn truncated_armor_is_not_a_certificate() {
    let cert = key_with_encryption_subkey();
    let key = armored_public(&cert);
    let truncated = &key[..key.len() / 2];
    assert!(matches!(encrypt_text(truncated, "secret"), Err(EncryptError::Parse(_))));
}

#[test]
fn empty_key_text_is_not_a_certificate() {
    assert!(matches!(encrypt_text("", "secret"), Err(EncryptError::Parse(_))));
}

#[test]
fn ciphertext_bytes_that_are_text() {
    let r = ciphertext_text("héllo".as_bytes().to_vec());
    assert_eq!(r.expect("valid text"), "héllo".to_string());
}

#[test]
fn ciphertext_bytes_that_are_not_text() {
    let r = ciphertext_text(vec![0x66, 0xff, 0xfe]);
    match r {
        Err(EncryptError::Encoding(m)) => assert!(!m.is_empty()),
        other => panic!("expected an encoding error, got {:?}", other),
    }
}

#[test]
fn run_on_page_shows_ciphertext_and_done() {
    let cert = key_with_encryption_subkey();
    let key = armored_public(&cert);
    let mut page = web_encrypt::flow::Page::new();
    web_encrypt::flow::run_encryption(&mut page, &key, "page secret").expect("encrypts");
    assert_eq!(page.status, "Done!");
    assert_armored(&page.result);
    assert!(!page.result.contains(key.trim()));
    assert_eq!(decrypt_with(&cert, &page.result), b"page secret".to_vec());
}

#[test]
fn run_on_page_without_transport_key() {
    let cert = key_without_encryption_subkey();
    let mut page = web_encrypt::flow::Page::new();
    let r = web_encrypt::flow::run_encryption(&mut page, &armored_public(&cert), "s");
    assert!(matches!(r, Err(EncryptError::NoRecipients(_))));
    assert!(page.status.starts_with("Error: "));
    assert_eq!(page.result, "");
}

#[test]
fn encrypt_appends_after_existing_bytes() {
    let cert = key_with_encryption_subkey();
    let policy = StandardPolicy::new();
    let mut sink: Vec<u8> = b"kept: ".to_vec();
    encrypt(&policy, &mut sink, "appended", &cert).expect("encrypts");
    assert!(sink.starts_with(b"kept: "));
    let text = String::from_utf8(sink[6..].to_vec()).expect("text");
    assert_armored(&text);
    assert_eq!(decrypt_with(&cert, &text), b"appended".to_vec());
}

#[test]
fn encrypted_output_passes_the_armor_check() {
    let cert = key_with_encryption_subkey();
    let text = encrypt_text(&armored_public(&cert), "checked").expect("encrypts");
    assert!(web_encrypt::armor::is_armored_message(&text.as_bytes().to_vec()));
}
