//! Translation between Chinese and English by an outside service.

pub mod glm;

use vstd::prelude::*;
use vstd::string::StringExecFns;

verus! {

/// Whether, with which key and at which address texts are translated.
#[derive(Debug, Clone)]
pub struct TranslationConfig {
    pub enabled: bool,
    pub api_key: String,
    pub api_url: String,
}

impl Default for TranslationConfig {
    fn default() -> (c: TranslationConfig)
        ensures
            !c.enabled,
            c.api_key@ == Seq::<char>::empty(),
            c.api_url@ == "https://open.bigmodel.cn/api/paas/v4/chat/completions"@,
    {
        TranslationConfig {
            enabled: false,
            api_key: String::new(),
            api_url: String::from_str("https://open.bigmodel.cn/api/paas/v4/chat/completions"),
        }
    }
}

/// Why a text was not translated.
#[derive(Debug, Clone)]
pub struct TranslationError {
    pub message: String,
}

/// A service that translates. Nothing is known of what it answers.
pub trait Translator {
    fn translate_to_english(&self, chinese_text: &str) -> Result<String, TranslationError>;

    fn translate_to_chinese(&self, english_text: &str) -> Result<String, TranslationError>;
}

} // verus!
