use vstd::prelude::*;

verus! {

/// The target language used when the caller names none: English.
pub open spec fn default_target() -> Seq<char> {
    seq!['e', 'n']
}

/// The target language that a hint stands for: the hint itself, or English
/// where it is empty.
pub open spec fn target_for(hint: Seq<char>) -> Seq<char> {
    if hint.len() == 0 {
        default_target()
    } else {
        hint
    }
}

/// What is handed to the translation backend for one round trip. An empty
/// `source` asks the backend to detect the source language.
pub struct TranslationRequest {
    pub text: String,
    pub source: String,
    pub target: String,
}

/// A failed round trip, with the backend's own account of what went wrong.
pub struct TranslationError {
    pub detail: String,
}

/// Builds the request for translating `text`: the source hint is passed on
/// as given (empty means detect), and an empty target hint means English.
pub fn translation_request(text: &str, source_hint: &str, target_hint: &str) -> (req:
    TranslationRequest)
    ensures
        req.text@ == text@,
        req.source@ == source_hint@,
        req.target@ == target_for(target_hint@),
{
    let target = if target_hint.is_empty() {
        let en = "en";
        proof {
            reveal_strlit("en");
            assert(en@ =~= default_target());
        }
        en.to_owned()
    } else {
        target_hint.to_owned()
    };
    TranslationRequest { text: text.to_owned(), source: source_hint.to_owned(), target }
}

/// The request for translating `text` into English from a detected source.
pub fn default_request(text: &str) -> (req: TranslationRequest)
    ensures
        req.text@ == text@,
        req.source@.len() == 0,
        req.target@ == default_target(),
{
    let auto = "";
    proof {
        reveal_strlit("");
    }
    translation_request(text, auto, auto)
}

/// Turns the backend's reply into the result of a translation: translated
/// text is handed on exactly as it came, and a failure always surfaces as a
/// `TranslationError`, never as a string.
pub fn translation_outcome(reply: Result<String, String>) -> (r: Result<String, TranslationError>)
    ensures
        r is Ok <==> reply is Ok,
        reply is Ok ==> r->Ok_0@ == reply->Ok_0@,
        reply is Err ==> r->Err_0.detail@ == reply->Err_0@,
{
    match reply {
        Ok(text) => Ok(text),
        Err(detail) => Err(TranslationError { detail }),
    }
}

} // verus!
