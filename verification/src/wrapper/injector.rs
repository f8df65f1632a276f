//! What passes between the user and the wrapped program: which input is
//! translated, and how a translated output is laid out.

use crate::translation::{TranslationConfig, TranslationError, Translator};
use vstd::prelude::*;
use vstd::string::{StrSliceExecFns, StringExecFns};

verus! {

/// The character is a Chinese ideograph of the two blocks that are looked
/// for.
pub open spec fn is_ideograph(c: char) -> bool {
    (0x4E00 <= c as u32 <= 0x9FFF) || (0x3400 <= c as u32 <= 0x4DBF)
}

/// The text holds a Chinese ideograph.
pub open spec fn has_ideograph(text: Seq<char>) -> bool {
    exists|i: int| 0 <= i < text.len() && is_ideograph(#[trigger] text[i])
}

/// A translated output: the translation, an empty line, and the output
/// as it came, behind its mark.
pub open spec fn laid_out(translation: Seq<char>, output: Seq<char>) -> Seq<char> {
    translation + "\n\n[原文] "@ + output
}

/// A translator is wanted: translation is switched on and has a key.
pub open spec fn wants_translator(config: Option<TranslationConfig>) -> bool {
    match config {
        Some(c) => c.enabled && c.api_key@.len() > 0,
        None => false,
    }
}

/// Whether the text holds a Chinese ideograph.
pub fn contains_chinese(text: &str) -> (r: bool)
    ensures
        r == has_ideograph(text@),
{
    let n: usize = text.unicode_len();
    let mut i: usize = 0;
    while i < n
        invariant
            n == text@.len(),
            i <= n,
            forall|j: int| 0 <= j < i ==> !is_ideograph(#[trigger] text@[j]),
        decreases n - i,
    {
        let c: u32 = text.get_char(i) as u32;
        if (c >= 0x4E00 && c <= 0x9FFF) || (c >= 0x3400 && c <= 0x4DBF) {
            return true;
        }
        i = i + 1;
    }
    false
}

/// A translated output laid out with the output as it came.
pub fn lay_out(translation: &str, output: &str) -> (r: String)
    ensures
        r@ == laid_out(translation@, output@),
{
    let mut text = String::from_str(translation);
    text.append("\n\n[原文] ");
    text.append(output);
    text
}

/// What is shown for an output once the translator has answered: the
/// translation laid out with the output as it came, or the translator's
/// error.
pub fn present_output(translated: Result<String, TranslationError>, output: &str) -> (r: Result<
    String,
    TranslationError,
>)
    ensures
        match translated {
            Ok(chinese) => r is Ok && r->Ok_0@ == laid_out(chinese@, output@),
            Err(e) => r == Err::<String, TranslationError>(e),
        },
{
    match translated {
        Ok(chinese) => Ok(lay_out(chinese.as_str(), output)),
        Err(e) => Err(e),
    }
}

/// Whether a translator is to be made for a configuration.
pub fn needs_translator(config: &Option<TranslationConfig>) -> (r: bool)
    ensures
        r == wants_translator(*config),
{
    match config {
        Some(c) => c.enabled && c.api_key.as_str().unicode_len() > 0,
        None => false,
    }
}

/// The wrapper around the coding assistant: where the program lies, and
/// the translator, if texts are translated.
pub struct ClaudeCodeInjector<T: Translator> {
    pub claude_path: String,
    pub translation_enabled: bool,
    pub translator: Option<T>,
}

impl<T: Translator> ClaudeCodeInjector<T> {
    /// The wrapper for the program at `claude_path`. Texts are translated
    /// where a translator is given.
    pub fn new(claude_path: String, translator: Option<T>) -> (r: Self)
        ensures
            r.claude_path == claude_path,
            r.translator == translator,
            r.translation_enabled == translator is Some,
    {
        let translation_enabled = translator.is_some();
        ClaudeCodeInjector { claude_path, translation_enabled, translator }
    }

    /// Whether input that holds Chinese is handed to the translator, and
    /// output too.
    pub open spec fn translates(&self) -> bool {
        self.translation_enabled && self.translator is Some
    }

    /// What is handed to the program for an input of the user: the input
    /// itself, unless texts are translated and it holds Chinese; then
    /// what the translator makes of it.
    pub fn intercept_input(&self, input: &str) -> (r: Result<String, TranslationError>)
        ensures
            !(self.translates() && has_ideograph(input@)) ==> r is Ok && r->Ok_0@ == input@,
    {
        if self.translation_enabled {
            match &self.translator {
                Some(translator) => {
                    if contains_chinese(input) {
                        return translator.translate_to_english(input);
                    }
                },
                None => {},
            }
        }
        Ok(String::from_str(input))
    }

    /// What is shown to the user for an output of the program: the output
    /// itself, unless texts are translated; then its translation, laid out
    /// with the output as it came, or the translator's error.
    pub fn intercept_output(&self, output: &str) -> (r: Result<String, TranslationError>)
        ensures
            !self.translates() ==> r is Ok && r->Ok_0@ == output@,
    {
        if self.translation_enabled {
            match &self.translator {
                Some(translator) => present_output(translator.translate_to_chinese(output), output),
                None => Ok(String::from_str(output)),
            }
        } else {
            Ok(String::from_str(output))
        }
    }
}

} // verus!
