//! The command line, once read: what it asks for.

use crate::translation::TranslationConfig;
use vstd::prelude::*;
use vstd::string::StringExecFns;

verus! {

/// The options of the command line.
#[derive(Debug, Clone)]
pub struct Cli {
    /// Enter the configuration screens.
    pub config: bool,
    /// Use this theme.
    pub theme: Option<String>,
    /// Print the configuration.
    pub print: bool,
    /// Write the first configuration file.
    pub init: bool,
    /// Check the configuration.
    pub check: bool,
    /// Look for a newer version.
    pub update: bool,
    /// Patch the program at this path.
    pub patch: Option<String>,
    /// Run the coding assistant wrapped.
    pub wrap: bool,
    /// Switch translation on or off.
    pub translation: Option<bool>,
    /// The key for the translation service.
    pub glm_key: Option<String>,
}

/// What a run of the program does.
#[derive(Debug, Clone, Copy, PartialEq, Eq, Structural)]
pub enum Command {
    Wrap,
    AutoConfigure,
    Init,
    Print,
    Check,
    Configure,
    Update,
    Patch,
    StatusLine,
}

/// What the options ask for: the first of the commands, in the order of
/// the type, that an option names; the status line where none does.
pub open spec fn command_of(cli: Cli) -> Command {
    if cli.wrap {
        Command::Wrap
    } else if cli.glm_key is Some {
        Command::AutoConfigure
    } else if cli.init {
        Command::Init
    } else if cli.print {
        Command::Print
    } else if cli.check {
        Command::Check
    } else if cli.config {
        Command::Configure
    } else if cli.update {
        Command::Update
    } else if cli.patch is Some {
        Command::Patch
    } else {
        Command::StatusLine
    }
}

/// The key for the translation service: that of the command line before
/// that of the key file.
pub open spec fn glm_key_of(cli: Cli, file_key: Option<String>) -> Option<String> {
    match cli.glm_key {
        Some(key) => Some(key),
        None => file_key,
    }
}

impl Cli {
    /// What the options ask for.
    pub fn command(&self) -> (c: Command)
        ensures
            c == command_of(*self),
    {
        if self.wrap {
            Command::Wrap
        } else if self.glm_key.is_some() {
            Command::AutoConfigure
        } else if self.init {
            Command::Init
        } else if self.print {
            Command::Print
        } else if self.check {
            Command::Check
        } else if self.config {
            Command::Configure
        } else if self.update {
            Command::Update
        } else if self.patch.is_some() {
            Command::Patch
        } else {
            Command::StatusLine
        }
    }

    /// Whether the wrapped program's texts are to be translated: they are
    /// unless the command line switches it off.
    pub fn translation_wanted(&self) -> (r: bool)
        ensures
            r == (self.translation != Some(false)),
    {
        match self.translation {
            Some(wanted) => wanted,
            None => true,
        }
    }

    /// The configuration for translating in wrapper mode, given the key
    /// that the key file holds: none where translation is switched off or
    /// no key is known; else one that is switched on, with the key, and
    /// with the address that is the default.
    pub fn translation_config(&self, file_key: Option<String>) -> (r: Option<TranslationConfig>)
        ensures
            match r {
                Some(c) => {
                    &&& self.translation != Some(false)
                    &&& glm_key_of(*self, file_key) is Some
                    &&& c.enabled
                    &&& c.api_key@ == glm_key_of(*self, file_key)->0@
                    &&& c.api_url@ == "https://open.bigmodel.cn/api/paas/v4/chat/completions"@
                },
                None => self.translation == Some(false) || glm_key_of(*self, file_key) is None,
            },
    {
        if !self.translation_wanted() {
            return None;
        }
        let key = match &self.glm_key {
            Some(key) => Some(key.clone()),
            None => file_key,
        };
        match key {
            Some(api_key) => {
                let defaults = TranslationConfig::default();
                Some(TranslationConfig { enabled: true, api_key, api_url: defaults.api_url })
            },
            None => None,
        }
    }
}

/// The views of a list of strings, in order.
pub open spec fn texts(strings: Seq<String>) -> Seq<Seq<char>> {
    Seq::new(strings.len(), |i: int| strings[i]@)
}

/// The argument is not the option that asks for wrapping.
pub open spec fn not_wrap() -> spec_fn(Seq<char>) -> bool {
    |arg: Seq<char>| arg != "--wrap"@
}

/// The arguments that are handed on to the wrapped program: those of this
/// program but the first, which is its name, without the option that asks
/// for wrapping.
pub open spec fn passed_on(args: Seq<Seq<char>>) -> Seq<Seq<char>> {
    if args.len() == 0 {
        args
    } else {
        args.subrange(1, args.len() as int).filter(not_wrap())
    }
}

/// The arguments that are handed on to the wrapped program.
pub fn claude_args(args: &Vec<String>) -> (r: Vec<String>)
    ensures
        texts(r@) == passed_on(texts(args@)),
{
    let ghost all = texts(args@);
    let mut out: Vec<String> = Vec::new();
    let n: usize = args.len();
    if n == 0 {
        assert(texts(out@) =~= all);
        return out;
    }
    let wrap = String::from_str("--wrap");
    let mut i: usize = 1;
    proof {
        reveal(Seq::filter);
        assert(all.subrange(1, 1) =~= Seq::<Seq<char>>::empty());
        assert(texts(out@) =~= Seq::<Seq<char>>::empty());
    }
    while i < n
        invariant
            n == args@.len(),
            1 <= i <= n,
            all == texts(args@),
            wrap@ == "--wrap"@,
            texts(out@) == all.subrange(1, i as int).filter(not_wrap()),
        decreases n - i,
    {
        let ghost before = texts(out@);
        proof {
            reveal(Seq::filter);
            let s = all.subrange(1, i + 1);
            assert(s.drop_last() =~= all.subrange(1, i as int));
            assert(s.last() == args@[i as int]@);
        }
        if args[i] != wrap {
            out.push(args[i].clone());
            assert(texts(out@) =~= before.push(args@[i as int]@));
        }
        i = i + 1;
    }
    out
}

} // verus!
