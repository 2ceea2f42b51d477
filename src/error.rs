use vstd::prelude::*;

verus! {

/// Why an encryption attempt failed; each variant carries the
/// human-readable description that is shown to the user.
#[derive(Debug, Clone)]
pub enum EncryptError {
    /// The public-key text is not a certificate.
    Parse(String),
    /// No key of the certificate can encrypt messages in transit.
    NoRecipients(String),
    /// Building, writing or finalizing the message pipeline failed.
    Pipeline(String),
    /// The produced message is not valid text.
    Encoding(String),
}

impl EncryptError {
    /// The description carried by the error.
    pub open spec fn description(&self) -> Seq<char> {
        match self {
            EncryptError::Parse(m) => m@,
            EncryptError::NoRecipients(m) => m@,
            EncryptError::Pipeline(m) => m@,
            EncryptError::Encoding(m) => m@,
        }
    }

    /// The description, as shown after the error prefix.
    pub fn message(&self) -> (r: String)
        ensures
            r@ == self.description(),
    {
        match self {
            EncryptError::Parse(m) => m.clone(),
            EncryptError::NoRecipients(m) => m.clone(),
            EncryptError::Pipeline(m) => m.clone(),
            EncryptError::Encoding(m) => m.clone(),
        }
    }
}

} // verus!
