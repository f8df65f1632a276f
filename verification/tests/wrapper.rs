use byebyecode::cli::{claude_args, Cli, Command};
use byebyecode::translation::glm::{chinese_prompt, english_prompt, first_choice, model_name};
use byebyecode::translation::{TranslationConfig, TranslationError, Translator};
use byebyecode::wrapper::injector::{
    contains_chinese, needs_translator, lay_out, ClaudeCodeInjector,
};

struct Echo {
    fail: bool,
}

impl Translator for Echo {
    fn translate_to_english(&self, chinese_text: &str) -> Result<String, TranslationError> {
        if self.fail {
            Err(TranslationError { message: "down".to_string() })
        } else {
            Ok(format!("en({})", chinese_text))
        }
    }

    fn translate_to_chinese(&self, english_text: &str) -> Result<String, TranslationError> {
        if self.fail {
            Err(TranslationError { message: "down".to_string() })
        } else {
            Ok(format!("zh({})", english_text))
        }
    }
}

fn cli() -> Cli {
    Cli {
        config: false,
        theme: None,
        print: false,
        init: false,
        check: false,
        update: false,
        patch: None,
        wrap: false,
        translation: None,
        glm_key: None,
    }
}

#[test]
fn command_order() {
    assert_eq!(cli().command(), Command::StatusLine);
    let all = Cli {
        config: true,
        theme: Some("nord".to_string()),
        print: true,
        init: true,
        check: true,
        update: true,
        patch: Some("cli.js".to_string()),
        wrap: true,
        translation: Some(false),
        glm_key: Some("k".to_string()),
    };
    assert_eq!(all.command(), Command::Wrap);
    let all = Cli { wrap: false, ..all };
    assert_eq!(all.command(), Command::AutoConfigure);
    let all = Cli { glm_key: None, ..all };
    assert_eq!(all.command(), Command::Init);
    let all = Cli { init: false, ..all };
    assert_eq!(all.command(), Command::Print);
    let all = Cli { print: false, ..all };
    assert_eq!(all.command(), Command::Check);
    let all = Cli { check: false, ..all };
    assert_eq!(all.command(), Command::Configure);
    let all = Cli { config: false, ..all };
    assert_eq!(all.command(), Command::Update);
    let all = Cli { update: false, ..all };
    assert_eq!(all.command(), Command::Patch);
    let all = Cli { patch: None, ..all };
    assert_eq!(all.command(), Command::StatusLine);
}

#[test]
fn translation_config_in_wrapper_mode() {
    let from_file = cli().translation_config(Some("file".to_string())).unwrap();
    assert!(from_file.enabled);
    assert_eq!(from_file.api_key, "file");
    assert_eq!(from_file.api_url, "https://open.bigmodel.cn/api/paas/v4/chat/completions");
    let both = Cli { glm_key: Some("line".to_string()), translation: Some(true), ..cli() };
    assert_eq!(both.translation_config(Some("file".to_string())).unwrap().api_key, "line");
    assert!(cli().translation_config(None).is_none());
    let off = Cli { glm_key: Some("line".to_string()), translation: Some(false), ..cli() };
    assert!(off.translation_config(Some("file".to_string())).is_none());
    assert!(!off.translation_wanted());
    assert!(cli().translation_wanted());
}

#[test]
fn wrapped_program_arguments() {
    let args: Vec<String> =
        ["byebyecode", "--wrap", "-p", "--wrap", "chat", "--wrapper"].iter().map(|s| s.to_string()).collect();
    assert_eq!(claude_args(&args), vec!["-p", "chat", "--wrapper"]);
    assert!(claude_args(&vec![]).is_empty());
    assert!(claude_args(&vec!["--wrap".to_string()]).is_empty());
    assert!(claude_args(&vec!["x".to_string()]).is_empty());
    assert_eq!(claude_args(&vec!["--wrap".to_string(), "x".to_string()]), vec!["x"]);
}

#[test]
fn translation_config_defaults() {
    let config = TranslationConfig::default();
    assert!(!config.enabled);
    assert_eq!(config.api_key, "");
    assert_eq!(config.api_url, "https://open.bigmodel.cn/api/paas/v4/chat/completions");
}

#[test]
fn prompts_for_the_chat_service() {
    assert_eq!(model_name(), "glm-4-flash");
    assert_eq!(
        english_prompt("你好"),
        "请将以下中文翻译成信达雅的英文,只返回翻译结果,不要有任何解释:\n\n你好"
    );
    assert_eq!(
        chinese_prompt("hello"),
        "请将以下英文翻译成流畅的中文,只返回翻译结果,不要有任何解释:\n\nhello"
    );
}

#[test]
fn first_choice_of_an_answer() {
    assert_eq!(first_choice(&vec!["a".to_string(), "b".to_string()]).unwrap(), "a");
    match first_choice(&vec![]) {
        Err(e) => assert_eq!(e.message, "No response from GLM API"),
        Ok(text) => panic!("unexpected {}", text),
    }
}

#[test]
fn chinese_is_detected() {
    assert!(contains_chinese("你好"));
    assert!(contains_chinese("say 你 now"));
    assert!(contains_chinese("\u{4E00}"));
    assert!(contains_chinese("\u{9FFF}"));
    assert!(contains_chinese("\u{3400}"));
    assert!(contains_chinese("\u{4DBF}"));
    assert!(!contains_chinese("\u{4DC0}"));
    assert!(!contains_chinese("\u{4DFF}"));
    assert!(!contains_chinese("\u{33FF}"));
    assert!(!contains_chinese("\u{A000}"));
    assert!(!contains_chinese("hello, wörld ¥"));
    assert!(!contains_chinese(""));
    assert!(!contains_chinese("こんにちは"));
}

#[test]
fn translator_is_needed_with_a_key() {
    let on = TranslationConfig { enabled: true, api_key: "k".to_string(), ..TranslationConfig::default() };
    assert!(needs_translator(&Some(on.clone())));
    assert!(!needs_translator(&Some(TranslationConfig { api_key: String::new(), ..on.clone() })));
    assert!(!needs_translator(&Some(TranslationConfig { enabled: false, ..on })));
    assert!(!needs_translator(&None));
}

#[test]
fn input_is_translated_only_when_chinese() {
    let wrapper = ClaudeCodeInjector::new("/opt/bin/agent".to_string(), Some(Echo { fail: false }));
    assert!(wrapper.translation_enabled);
    assert_eq!(wrapper.claude_path, "/opt/bin/agent");
    assert_eq!(wrapper.intercept_input("hello").unwrap(), "hello");
    assert_eq!(wrapper.intercept_input("你好").unwrap(), "en(你好)");
    let plain: ClaudeCodeInjector<Echo> = ClaudeCodeInjector::new("/opt/bin/agent".to_string(), None);
    assert!(!plain.translation_enabled);
    assert_eq!(plain.intercept_input("你好").unwrap(), "你好");
    let failing = ClaudeCodeInjector::new("/opt/bin/agent".to_string(), Some(Echo { fail: true }));
    assert_eq!(failing.intercept_input("hello").unwrap(), "hello");
    assert_eq!(failing.intercept_input("你好").unwrap_err().message, "down");
}

#[test]
fn output_is_shown_with_what_came() {
    assert_eq!(lay_out("你好", "hello"), "你好\n\n[原文] hello");
    let wrapper = ClaudeCodeInjector::new("/opt/bin/agent".to_string(), Some(Echo { fail: false }));
    assert_eq!(wrapper.intercept_output("hello").unwrap(), "zh(hello)\n\n[原文] hello");
    let plain: ClaudeCodeInjector<Echo> = ClaudeCodeInjector::new("/opt/bin/agent".to_string(), None);
    assert_eq!(plain.intercept_output("hello").unwrap(), "hello");
    let failing = ClaudeCodeInjector::new("/opt/bin/agent".to_string(), Some(Echo { fail: true }));
    assert_eq!(failing.intercept_output("hello").unwrap_err().message, "down");
    let off = ClaudeCodeInjector {
        claude_path: "/opt/bin/agent".to_string(),
        translation_enabled: false,
        translator: Some(Echo { fail: false }),
    };
    assert_eq!(off.intercept_output("hello").unwrap(), "hello");
    assert_eq!(off.intercept_input("你好").unwrap(), "你好");
}
