//! What is asked of the GLM chat service, and what is taken from its
//! answer.

use crate::translation::TranslationError;
use vstd::prelude::*;
use vstd::string::StringExecFns;

verus! {

/// Seconds after which a request for a translation is given up.
pub const TIMEOUT_SECONDS: u64 = 30;

/// The model that is asked.
pub fn model_name() -> (r: String)
    ensures
        r@ == "glm-4-flash"@,
{
    String::from_str("glm-4-flash")
}

/// The request to put a Chinese text into English.
pub fn english_prompt(chinese_text: &str) -> (r: String)
    ensures
        r@
            == "请将以下中文翻译成信达雅的英文,只返回翻译结果,不要有任何解释:\n\n"@
            + chinese_text@,
{
    let mut prompt = String::from_str(
        "请将以下中文翻译成信达雅的英文,只返回翻译结果,不要有任何解释:\n\n",
    );
    prompt.append(chinese_text);
    prompt
}

/// The request to put an English text into Chinese.
pub fn chinese_prompt(english_text: &str) -> (r: String)
    ensures
        r@
            == "请将以下英文翻译成流畅的中文,只返回翻译结果,不要有任何解释:\n\n"@
            + english_text@,
{
    let mut prompt = String::from_str(
        "请将以下英文翻译成流畅的中文,只返回翻译结果,不要有任何解释:\n\n",
    );
    prompt.append(english_text);
    prompt
}

/// The translation in an answer: the text of its first choice. An answer
/// without a choice is an error.
pub fn first_choice(choices: &Vec<String>) -> (r: Result<String, TranslationError>)
    ensures
        match r {
            Ok(text) => choices@.len() > 0 && text@ == choices@[0]@,
            Err(e) => choices@.len() == 0 && e.message@ == "No response from GLM API"@,
        },
{
    if choices.len() > 0 {
        Ok(choices[0].clone())
    } else {
        Err(TranslationError { message: String::from_str("No response from GLM API") })
    }
}

} // verus!
