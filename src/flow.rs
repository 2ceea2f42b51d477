use vstd::prelude::*;

use crate::error::EncryptError;
use crate::armor::armored_text;
use crate::pgp::{encrypt_text, parses_as_cert};

verus! {

/// What the page shows: the status line and the result field.
#[derive(Debug, Clone)]
pub struct Page {
    pub status: String,
    pub result: String,
}

/// The text of the two fields of a page.
pub ghost struct PageView {
    pub status: Seq<char>,
    pub result: Seq<char>,
}

impl View for Page {
    type V = PageView;

    open spec fn view(&self) -> PageView {
        PageView { status: self.status@, result: self.result@ }
    }
}

/// Status shown while an attempt runs.
pub open spec fn in_progress_text() -> Seq<char> {
    "Encrypting..."@
}

/// Status shown after a successful attempt.
pub open spec fn done_text() -> Seq<char> {
    "Done!"@
}

/// Prefix of the status shown after a failed attempt.
pub open spec fn error_prefix() -> Seq<char> {
    "Error: "@
}

/// The status line that an attempt ends with.
pub open spec fn final_status(outcome: Result<String, EncryptError>) -> Seq<char> {
    match outcome {
        Ok(_) => done_text(),
        Err(e) => error_prefix() + e.description(),
    }
}

/// The page once an attempt has started.
pub open spec fn begun(before: PageView) -> PageView {
    PageView { status: in_progress_text(), result: Seq::empty() }
}

/// The page once an attempt has ended with the outcome.
pub open spec fn finished(before: PageView, outcome: Result<String, EncryptError>) -> PageView {
    match outcome {
        Ok(text) => PageView { status: done_text(), result: text@ },
        Err(e) => PageView { status: final_status(outcome), result: before.result },
    }
}

/// The page after a whole attempt with the outcome.
pub open spec fn attempted(before: PageView, outcome: Result<String, EncryptError>) -> PageView {
    finished(begun(before), outcome)
}

impl Page {
    /// A page with both fields empty.
    pub fn new() -> (r: Page)
        ensures
            r.status@ == Seq::<char>::empty(),
            r.result@ == Seq::<char>::empty(),
    {
        Page { status: String::new(), result: String::new() }
    }

    /// Starts an attempt: the result is cleared and the status says that
    /// work is in progress.
    pub fn begin_attempt(&mut self)
        ensures
            final(self)@ == begun(old(self)@),
            final(self).status@ == in_progress_text(),
            final(self).result@ == Seq::<char>::empty(),
    {
        self.status = "Encrypting...".to_owned();
        self.result = String::new();
    }

    /// Ends an attempt with its outcome: the ciphertext goes to the result
    /// field and the status says "Done!", or the status carries the error's
    /// description and the result stays as it was.
    pub fn finish_attempt(&mut self, outcome: &Result<String, EncryptError>)
        ensures
            final(self)@ == finished(old(self)@, *outcome),
            final(self).status@ == final_status(*outcome),
    {
        self.status = status_line(outcome);
        match outcome {
            Ok(text) => {
                self.result = text.clone();
            },
            Err(_) => {},
        }
    }
}

/// Runs one attempt on the page: clears it, encrypts the secret to the
/// public key text and shows the outcome. Text that is not a certificate
/// ends the attempt with a parse error and a blank result; a successful
/// attempt leaves an armored message in the result.
pub fn run_encryption(page: &mut Page, public_key: &str, secret: &str) -> (r: Result<
    (),
    EncryptError,
>)
    ensures
        !parses_as_cert(public_key@) <==> r is Err && r->Err_0 is Parse,
        r is Ok ==> final(page).status@ == done_text(),
        r is Ok ==> armored_text(final(page).result@),
        r is Err ==> final(page).status@ == error_prefix() + r->Err_0.description(),
        r is Err ==> r->Err_0.description().len() > 0,
        r is Err ==> final(page).result@ == Seq::<char>::empty(),
        public_key@.len() > 0 && !armored_text(public_key@) ==> final(page).result@
            != public_key@,
        exists|outcome: Result<String, EncryptError>|
            #![trigger attempted(old(page)@, outcome)]
            final(page)@ == attempted(old(page)@, outcome) && (outcome is Ok <==> r is Ok) && (
            outcome is Ok ==> armored_text(outcome->Ok_0@)) && (r is Err ==> outcome
                == Err::<String, EncryptError>(r->Err_0)),
{
    page.begin_attempt();
    let outcome = encrypt_text(public_key, secret);
    page.finish_attempt(&outcome);
    assert(page@ == attempted(old(page)@, outcome));
    match outcome {
        Ok(_) => Ok(()),
        Err(e) => Err(e),
    }
}

/// The status line for the outcome of an attempt.
pub fn status_line(outcome: &Result<String, EncryptError>) -> (r: String)
    ensures
        r@ == final_status(*outcome),
{
    match outcome {
        Ok(_) => "Done!".to_owned(),
        Err(e) => {
            let mut s = "Error: ".to_owned();
            let m = e.message();
            s.append(m.as_str());
            s
        },
    }
}

/// An attempt starts from a page whose result is blank and whose status
/// says that work is in progress, whatever the page showed before.
pub proof fn lemma_attempt_starts_cleared(before: PageView)
    ensures
        begun(before).status == in_progress_text(),
        begun(before).result == Seq::<char>::empty(),
        forall|outcome: Result<String, EncryptError>| #[trigger]
            attempted(before, outcome) == finished(begun(before), outcome),
{
}

/// After an attempt the status is exactly "Done!" when it succeeded and
/// otherwise the error prefix followed by the error's description; the
/// result holds the ciphertext on success and is blank on failure.
pub proof fn lemma_status_reflects_outcome(before: PageView, outcome: Result<String, EncryptError>)
    ensures
        attempted(before, outcome).status == done_text() <==> outcome is Ok,
        outcome is Err ==> attempted(before, outcome).status == error_prefix()
            + outcome->Err_0.description(),
        outcome is Err ==> attempted(before, outcome).result.len() == 0,
        outcome is Ok ==> attempted(before, outcome).result == outcome->Ok_0@,
        attempted(before, outcome).result.len() > 0 <==> outcome is Ok && outcome->Ok_0@.len() > 0,
        outcome is Err && outcome->Err_0.description().len() > 0 ==> attempted(
            before,
            outcome,
        ).status.len() > error_prefix().len(),
{
    reveal_strlit("Done!");
    reveal_strlit("Error: ");
    if outcome is Err {
        assert(attempted(before, outcome).status.len() >= 7);
    }
}

/// An attempt starts from a cleared page whatever was shown before, so a
/// second attempt shows only its own outcome, however the first ended.
pub proof fn lemma_retrigger_independent(
    first: PageView,
    other: PageView,
    earlier: Result<String, EncryptError>,
    later: Result<String, EncryptError>,
)
    ensures
        attempted(attempted(first, earlier), later) == attempted(other, later),
{
}

/// What an attempt leaves on the page is made of its outcome alone: the
/// produced ciphertext or nothing in the result, and a fixed text or the
/// error description in the status.
pub proof fn lemma_page_shows_only_outcome(before: PageView, outcome: Result<String, EncryptError>)
    ensures
        attempted(before, outcome).status == final_status(outcome),
        attempted(before, outcome).result == (match outcome {
            Ok(text) => text@,
            Err(_) => Seq::<char>::empty(),
        }),
{
}

} // verus!
