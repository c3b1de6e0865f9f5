use crate::error::{SandboxError, SandboxErrorView};
use vstd::prelude::*;

verus! {

/// The languages a sandbox can run.
#[derive(Clone, Copy, Debug, PartialEq, Eq, Structural)]
pub enum Language {
    Python,
    JavaScript,
    Rust,
    Go,
    Java,
}

/// The lowercase form of a string as `str::to_lowercase` computes it.
pub uninterp spec fn lowercase_of(s: Seq<char>) -> Seq<char>;

/// Calls `str::to_lowercase`. The contract only names the result: it is the
/// Unicode lowercase mapping of the input, a function of the input alone.
#[verifier::external_body]
fn to_lowercase(s: &str) -> (lowered: String)
    ensures
        lowered@ == lowercase_of(s@),
{
    s.to_lowercase()
}

/// The table of identifiers, read on an identifier already in lowercase.
pub open spec fn language_of(normalized: Seq<char>) -> Option<Language> {
    if normalized == "python"@ {
        Some(Language::Python)
    } else if normalized == "javascript"@ || normalized == "js"@ || normalized == "node"@ {
        Some(Language::JavaScript)
    } else if normalized == "rust"@ {
        Some(Language::Rust)
    } else if normalized == "go"@ {
        Some(Language::Go)
    } else if normalized == "java"@ {
        Some(Language::Java)
    } else {
        None
    }
}

/// The language an identifier names, whatever its letter case.
pub open spec fn resolve(identifier: Seq<char>) -> Option<Language> {
    language_of(lowercase_of(identifier))
}

/// The base image of each language.
pub open spec fn image_of(language: Language) -> Seq<char> {
    match language {
        Language::Python => "python:3.11-slim"@,
        Language::JavaScript => "node:20-slim"@,
        Language::Rust => "rust:1.75-slim"@,
        Language::Go => "golang:1.21-alpine"@,
        Language::Java => "openjdk:17-slim"@,
    }
}

/// Whether the source is handed to an interpreter as an inline program.
pub open spec fn is_interpreted(language: Language) -> bool {
    language == Language::Python || language == Language::JavaScript
}

/// The script a compiled language's shell runs. It reads the source from
/// its first positional parameter, writes it to a fixed file under the
/// scratch mount, compiles that file and runs the artifact.
pub open spec fn build_script(language: Language) -> Seq<char> {
    match language {
        Language::Rust =>
            "printf '%s\\n' \"$1\" > /tmp/main.rs && rustc /tmp/main.rs -o /tmp/main && /tmp/main"@,
        Language::Go => "printf '%s\\n' \"$1\" > /tmp/main.go && go run /tmp/main.go"@,
        Language::Java =>
            "printf '%s\\n' \"$1\" > /tmp/Main.java && javac /tmp/Main.java && java -cp /tmp Main"@,
        _ => Seq::empty(),
    }
}

/// The arguments that precede the source text. They depend on the language
/// alone.
pub open spec fn launcher(language: Language) -> Seq<Seq<char>> {
    match language {
        Language::Python => seq!["python"@, "-c"@],
        Language::JavaScript => seq!["node"@, "-e"@],
        _ => seq!["sh"@, "-c"@, build_script(language), "sh"@],
    }
}

/// The argument vector run inside the sandbox: the launcher of the
/// language, then the source text as one argument of its own.
pub open spec fn command_of(language: Language, code: Seq<char>) -> Seq<Seq<char>> {
    launcher(language).push(code)
}

/// The image an identifier stands for, if it names a language.
pub open spec fn image_for(identifier: Seq<char>) -> Option<Seq<char>> {
    match resolve(identifier) {
        Some(language) => Some(image_of(language)),
        None => None,
    }
}

/// The command that runs `code` in the language an identifier names, if it
/// names one.
pub open spec fn command_for(identifier: Seq<char>, code: Seq<char>) -> Option<Seq<Seq<char>>> {
    match resolve(identifier) {
        Some(language) => Some(command_of(language, code)),
        None => None,
    }
}

/// The arguments of a command as the character sequences they hold.
pub open spec fn argv_view(argv: Seq<String>) -> Seq<Seq<char>> {
    Seq::new(argv.len(), |i: int| argv[i]@)
}

impl Language {
    /// Reads the table on an identifier that is already in lowercase.
    pub fn from_normalized(normalized: &str) -> (language: Option<Language>)
        ensures
            language == language_of(normalized@),
    {
        let id = normalized.to_owned();
        if id == "python".to_owned() {
            Some(Language::Python)
        } else if id == "javascript".to_owned() || id == "js".to_owned() || id == "node".to_owned() {
            Some(Language::JavaScript)
        } else if id == "rust".to_owned() {
            Some(Language::Rust)
        } else if id == "go".to_owned() {
            Some(Language::Go)
        } else if id == "java".to_owned() {
            Some(Language::Java)
        } else {
            None
        }
    }

    /// Resolves a case-insensitive identifier, or rejects it with the
    /// identifier as it was given.
    pub fn parse(identifier: &str) -> (r: Result<Language, SandboxError>)
        ensures
            match resolve(identifier@) {
                Some(language) => r == Ok::<Language, SandboxError>(language),
                None => r is Err && r->Err_0@ == (SandboxErrorView::UnsupportedLanguage {
                    language: identifier@,
                }),
            },
    {
        let lowered = to_lowercase(identifier);
        match Language::from_normalized(lowered.as_str()) {
            Some(language) => Ok(language),
            None => Err(SandboxError::UnsupportedLanguage { language: identifier.to_owned() }),
        }
    }

    /// The base image reference of this language.
    pub fn image(self) -> (image: String)
        ensures
            image@ == image_of(self),
    {
        match self {
            Language::Python => "python:3.11-slim".to_owned(),
            Language::JavaScript => "node:20-slim".to_owned(),
            Language::Rust => "rust:1.75-slim".to_owned(),
            Language::Go => "golang:1.21-alpine".to_owned(),
            Language::Java => "openjdk:17-slim".to_owned(),
        }
    }

    /// The argument vector that runs `code` in this language.
    pub fn command(self, code: &str) -> (argv: Vec<String>)
        ensures
            argv_view(argv@) == command_of(self, code@),
    {
        let mut argv: Vec<String> = Vec::new();
        match self {
            Language::Python => {
                argv.push("python".to_owned());
                argv.push("-c".to_owned());
            },
            Language::JavaScript => {
                argv.push("node".to_owned());
                argv.push("-e".to_owned());
            },
            Language::Rust => {
                argv.push("sh".to_owned());
                argv.push("-c".to_owned());
                argv.push(
                    "printf '%s\\n' \"$1\" > /tmp/main.rs && rustc /tmp/main.rs -o /tmp/main && /tmp/main".to_owned(),
                );
                argv.push("sh".to_owned());
            },
            Language::Go => {
                argv.push("sh".to_owned());
                argv.push("-c".to_owned());
                argv.push("printf '%s\\n' \"$1\" > /tmp/main.go && go run /tmp/main.go".to_owned());
                argv.push("sh".to_owned());
            },
            Language::Java => {
                argv.push("sh".to_owned());
                argv.push("-c".to_owned());
                argv.push(
                    "printf '%s\\n' \"$1\" > /tmp/Main.java && javac /tmp/Main.java && java -cp /tmp Main".to_owned(),
                );
                argv.push("sh".to_owned());
            },
        }
        argv.push(code.to_owned());
        assert(argv_view(argv@) =~= command_of(self, code@));
        argv
    }
}

/// The table holds seven identifiers, each with the language it names.
pub proof fn lemma_language_table()
    ensures
        language_of("python"@) == Some(Language::Python),
        language_of("javascript"@) == Some(Language::JavaScript),
        language_of("js"@) == Some(Language::JavaScript),
        language_of("node"@) == Some(Language::JavaScript),
        language_of("rust"@) == Some(Language::Rust),
        language_of("go"@) == Some(Language::Go),
        language_of("java"@) == Some(Language::Java),
        language_of(Seq::empty()) is None,
{
    reveal_strlit("python");
    reveal_strlit("javascript");
    reveal_strlit("js");
    reveal_strlit("node");
    reveal_strlit("rust");
    reveal_strlit("go");
    reveal_strlit("java");
    assert("python"@.len() == 6);
    assert("javascript"@.len() == 10);
    assert("js"@.len() == 2);
    assert("go"@.len() == 2);
    assert("node"@.len() == 4);
    assert("rust"@.len() == 4);
    assert("java"@.len() == 4);
    assert("js"@[0] == 'j' && "go"@[0] == 'g');
    assert("node"@[0] == 'n' && "rust"@[0] == 'r' && "java"@[0] == 'j');
}

/// The image and the command of an identifier are defined together: an
/// identifier has both or neither, whatever the source text. Where it has
/// them, the image is not empty and the command ends with the source text.
pub proof fn lemma_lock_step(identifier: Seq<char>, code: Seq<char>)
    ensures
        image_for(identifier) is Some <==> command_for(identifier, code) is Some,
        image_for(identifier) is Some <==> resolve(identifier) is Some,
        image_for(identifier) matches Some(image) ==> image.len() > 0,
        command_for(identifier, code) matches Some(argv) ==> argv.len() >= 3 && argv.last()
            == code,
{
    if resolve(identifier) is Some {
        lemma_image_nonempty(resolve(identifier)->Some_0);
    }
}

/// Every image reference in the table is non-empty.
pub proof fn lemma_image_nonempty(language: Language)
    ensures
        image_of(language).len() > 0,
{
    reveal_strlit("python:3.11-slim");
    reveal_strlit("node:20-slim");
    reveal_strlit("rust:1.75-slim");
    reveal_strlit("golang:1.21-alpine");
    reveal_strlit("openjdk:17-slim");
}

/// The source text is the last argument of the command, unchanged, and no
/// other argument depends on it: two sources give commands that differ in
/// that argument alone.
pub proof fn lemma_source_is_one_argument(language: Language, code: Seq<char>, other: Seq<char>)
    ensures
        command_of(language, code).last() == code,
        command_of(language, code).drop_last() == launcher(language),
        command_of(language, code).len() == command_of(language, other).len(),
        command_of(language, code).drop_last() == command_of(language, other).drop_last(),
{
    assert(command_of(language, code).drop_last() =~= launcher(language));
    assert(command_of(language, other).drop_last() =~= launcher(language));
}

/// An interpreter receives the source as its inline program and no shell is
/// involved; a compiled language runs a shell on a script that is fixed for
/// the language.
pub proof fn lemma_command_shape(language: Language, code: Seq<char>)
    ensures
        is_interpreted(language) ==> command_of(language, code).len() == 3,
        !is_interpreted(language) ==> command_of(language, code).len() == 5 && command_of(
            language,
            code,
        )[0] == "sh"@ && command_of(language, code)[1] == "-c"@ && command_of(language, code)[2]
            == build_script(language) && command_of(language, code)[4] == code,
        language == Language::Python ==> command_of(language, code) == seq![
            "python"@,
            "-c"@,
            code,
        ],
        language == Language::JavaScript ==> command_of(language, code) == seq![
            "node"@,
            "-e"@,
            code,
        ],
{
    if language == Language::Python {
        assert(command_of(language, code) =~= seq!["python"@, "-c"@, code]);
    }
    if language == Language::JavaScript {
        assert(command_of(language, code) =~= seq!["node"@, "-e"@, code]);
    }
}

} // verus!
