use crate::config::{config_of, SandboxConfig};
use crate::error::{SandboxError, SandboxErrorView};
use crate::language::{
    argv_view, command_for, command_of, image_for, image_of, resolve, Language,
};
use crate::lifecycle::{Action, ActionView, ContainerResult, Lifecycle};
use crate::limits::ResourceLimits;
use crate::trace::requested;
use vstd::prelude::*;

verus! {

/// The characters of a UUID written in lowercase with hyphens.
pub open spec fn is_uuid_char(c: char) -> bool {
    c == '-' || ('0' <= c && c <= '9') || ('a' <= c && c <= 'f')
}

/// The shape of a UUID written in lowercase with hyphens: 36 characters,
/// each a lowercase hexadecimal digit or a hyphen.
pub open spec fn is_hyphenated_uuid(s: Seq<char>) -> bool {
    s.len() == 36 && forall|i: int| 0 <= i < s.len() ==> is_uuid_char(#[trigger] s[i])
}

/// Calls `uuid::Uuid::new_v4` and renders the result with its `Display`
/// impl. The UUID is random, so the contract states only the shape that
/// every rendering has. The call draws from the operating system's random
/// source and aborts the process if that source fails.
#[verifier::external_body]
fn random_uuid() -> (id: String)
    ensures
        is_hyphenated_uuid(id@),
{
    uuid::Uuid::new_v4().to_string()
}

/// The name of the sandbox that carries the unique part `unique`.
pub open spec fn name_of(unique: Seq<char>) -> Seq<char> {
    "yuubox-"@ + unique
}

/// Names a sandbox after a unique part.
pub fn sandbox_name(unique: &str) -> (name: String)
    ensures
        name@ == name_of(unique@),
{
    "yuubox-".to_owned().concat(unique)
}

/// Names a sandbox after a fresh random UUID.
pub fn fresh_sandbox_name() -> (name: String)
    ensures
        exists|unique: Seq<char>| #[trigger] is_hyphenated_uuid(unique) && name@ == name_of(unique),
{
    let unique = random_uuid();
    sandbox_name(unique.as_str())
}

/// What one execution delivers to the caller: the sandbox's output and exit
/// status, the wall-clock time of the whole call, and the two telemetry
/// fields, which are not measured.
#[derive(Debug, PartialEq, Eq)]
pub struct ExecutionResult {
    pub stdout: String,
    pub stderr: String,
    pub exit_code: i64,
    pub execution_time_nanos: u128,
    pub memory_used: u64,
    pub cpu_time_nanos: u64,
}

impl ExecutionResult {
    /// Joins the result of a sandbox with the time the call took.
    pub fn new(result: ContainerResult, execution_time_nanos: u128) -> (r: ExecutionResult)
        ensures
            r.stdout@ == result.stdout@,
            r.stderr@ == result.stderr@,
            r.exit_code == result.exit_code,
            r.execution_time_nanos == execution_time_nanos,
            r.memory_used == result.memory_used,
            r.cpu_time_nanos == result.cpu_time_nanos,
    {
        ExecutionResult {
            stdout: result.stdout,
            stderr: result.stderr,
            exit_code: result.exit_code,
            execution_time_nanos,
            memory_used: result.memory_used,
            cpu_time_nanos: result.cpu_time_nanos,
        }
    }
}

/// Plans executions: resolves the request, and hands out the lifecycle that
/// the caller then drives against the daemon. It holds no state, so one
/// manager serves any number of concurrent executions.
#[derive(Clone, Copy, Debug)]
pub struct ContainerManager {}

impl ContainerManager {
    pub fn new() -> (manager: ContainerManager) {
        ContainerManager {  }
    }

    /// The image reference of a language, given by its case-insensitive
    /// identifier.
    pub fn get_image(&self, language: &str) -> (r: Result<String, SandboxError>)
        ensures
            match image_for(language@) {
                Some(image) => r is Ok && r->Ok_0@ == image,
                None => r is Err && r->Err_0@ == (SandboxErrorView::UnsupportedLanguage {
                    language: language@,
                }),
            },
    {
        match Language::parse(language) {
            Ok(l) => Ok(l.image()),
            Err(e) => Err(e),
        }
    }

    /// The argument vector that runs `code` in a language, given by its
    /// case-insensitive identifier.
    pub fn build_command(&self, code: &str, language: &str) -> (r: Result<
        Vec<String>,
        SandboxError,
    >)
        ensures
            match command_for(language@, code@) {
                Some(argv) => r is Ok && argv_view(r->Ok_0@) == argv,
                None => r is Err && r->Err_0@ == (SandboxErrorView::UnsupportedLanguage {
                    language: language@,
                }),
            },
    {
        match Language::parse(language) {
            Ok(l) => Ok(l.command(code)),
            Err(e) => Err(e),
        }
    }

    /// Opens the execution of `code` in a sandbox called `name`: answers
    /// with the lifecycle and with the create request to perform. An
    /// unsupported language is rejected before anything is asked of the
    /// daemon.
    pub fn plan(&self, code: &str, language: &str, limits: &ResourceLimits, name: String) -> (r:
        Result<(Lifecycle, Action), SandboxError>)
        ensures
            match resolve(language@) {
                Some(l) => r is Ok && r->Ok_0.0@ == requested(limits.timeout_seconds) && r->Ok_0.1@
                    == (ActionView::Create {
                    name: name@,
                    config: config_of(image_of(l), command_of(l, code@), *limits),
                }),
                None => r is Err && r->Err_0@ == (SandboxErrorView::UnsupportedLanguage {
                    language: language@,
                }),
            },
    {
        match Language::parse(language) {
            Ok(l) => {
                let config = SandboxConfig::build(l.image(), l.command(code), limits);
                Ok(
                    (
                        Lifecycle::requested(limits.timeout_seconds),
                        Action::Create { name, config },
                    ),
                )
            },
            Err(e) => Err(e),
        }
    }

    /// Opens the execution of `code` in a sandbox with a fresh name.
    pub fn execute(&self, code: &str, language: &str, limits: &ResourceLimits) -> (r: Result<
        (Lifecycle, Action),
        SandboxError,
    >)
        ensures
            match resolve(language@) {
                Some(l) => r is Ok && r->Ok_0.0@ == requested(limits.timeout_seconds) && exists|
                    unique: Seq<char>,
                |
                    #[trigger] is_hyphenated_uuid(unique) && r->Ok_0.1@ == (ActionView::Create {
                        name: name_of(unique),
                        config: config_of(image_of(l), command_of(l, code@), *limits),
                    }),
                None => r is Err && r->Err_0@ == (SandboxErrorView::UnsupportedLanguage {
                    language: language@,
                }),
            },
    {
        match Language::parse(language) {
            Ok(l) => {
                let name = fresh_sandbox_name();
                let config = SandboxConfig::build(l.image(), l.command(code), limits);
                Ok(
                    (
                        Lifecycle::requested(limits.timeout_seconds),
                        Action::Create { name, config },
                    ),
                )
            },
            Err(e) => Err(e),
        }
    }

    /// Releases what the manager holds. It holds nothing, so this succeeds
    /// however often it is called.
    pub fn cleanup(&self) -> (r: Result<(), SandboxError>)
        ensures
            r is Ok,
    {
        Ok(())
    }
}

/// A generated name is the fixed prefix followed by the 36 characters of
/// the UUID, and holds letters, digits and hyphens only.
pub proof fn lemma_name_shape(unique: Seq<char>)
    requires
        is_hyphenated_uuid(unique),
    ensures
        name_of(unique).len() == 43,
        name_of(unique).subrange(0, 7) == "yuubox-"@,
        name_of(unique).subrange(7, 43) == unique,
        forall|i: int|
            0 <= i < 43 ==> is_uuid_char(#[trigger] name_of(unique)[i]) || ('g' <= name_of(
                unique,
            )[i] && name_of(unique)[i] <= 'z'),
{
    reveal_strlit("yuubox-");
    assert(name_of(unique).subrange(0, 7) =~= "yuubox-"@);
    assert(name_of(unique).subrange(7, 43) =~= unique);
    assert forall|i: int| 0 <= i < 43 implies is_uuid_char(#[trigger] name_of(unique)[i]) || ('g'
        <= name_of(unique)[i] && name_of(unique)[i] <= 'z') by {
        if i >= 7 {
            assert(name_of(unique)[i] == unique[i - 7]);
        }
    }
}

} // verus!
