//! Compiler entries, the selection predicate, compile requests and the
//! rendering of their results.

use vstd::prelude::*;
use vstd::string::{StrSliceExecFns, StringExecFns};
use crate::text::{contains_text, join_text, occurs_in, trim_text, trimmed};
use crate::version::{optional_version_text, OptionalVersion, VersionView};

verus! {

/// `reqwest`'s error, carried through unread.
#[verifier::external_type_specification]
#[verifier::external_body]
pub struct ExReqwestError(reqwest::Error);

/// Why a lookup or a compilation failed.
pub enum GodBoltError {
    /// The HTTP exchange failed: transport, status or decoding.
    Http(reqwest::Error),
    /// A version text was not a semantic version.
    VersionParse(semver::Error),
    /// The compiler lacks the named capability.
    InvalidOperation(String),
}

/// One remote compiler, as the catalog lists it.
pub struct GodBoltCompiler {
    /// The identifier under which code is submitted to it.
    pub id: String,
    /// Its display name.
    pub name: String,
    /// Its language tag.
    pub language: String,
    pub version: OptionalVersion,
    pub instruction_set: String,
    pub supports_binary: bool,
    pub supports_execute: bool,
}

/// Whether a compile produces disassembly only, or also runs the program.
#[derive(PartialEq, Eq, Structural, Clone, Copy, Debug)]
pub enum CompilationType {
    Assembly,
    Execution,
}

impl CompilationType {
    /// Whether this kind of compile runs the program.
    pub fn runs(&self) -> (r: bool)
        ensures
            r == (*self == CompilationType::Execution),
    {
        match self {
            CompilationType::Assembly => false,
            CompilationType::Execution => true,
        }
    }
}

/// The requested version of a selection: none, or a version that may itself
/// be absent.
pub open spec fn requested_version(v: Option<OptionalVersion>) -> Option<Option<VersionView>> {
    match v {
        Some(x) => Some(x@),
        None => None,
    }
}

/// The requested instruction set of a selection, if any.
pub open spec fn requested_set(s: Option<String>) -> Option<Seq<char>> {
    match s {
        Some(x) => Some(x@),
        None => None,
    }
}

/// A compile submission: the code, the caller's compiler arguments and whether
/// to run the program, for the compiler of the given identifier.
pub struct CompileRequest {
    pub compiler_id: String,
    pub source: String,
    pub user_arguments: String,
    pub execute: bool,
}

impl GodBoltCompiler {
    /// Whether the compiler can both build binaries and run them.
    pub open spec fn fully_capable(&self) -> bool {
        self.supports_binary && self.supports_execute
    }

    /// The selection rule, on language tags that are already trimmed: equal
    /// tags; the requested version exactly, or full capability when none is
    /// requested; the requested instruction set exactly, or full capability when
    /// none is requested.
    pub open spec fn selects_spec(
        &self,
        own_language: Seq<char>,
        language: Seq<char>,
        version: Option<Option<VersionView>>,
        ins_set: Option<Seq<char>>,
    ) -> bool {
        &&& own_language == language
        &&& match version {
            Some(v) => v == self.version@,
            None => self.fully_capable(),
        }
        &&& match ins_set {
            Some(s) => self.instruction_set@ == s,
            None => self.fully_capable(),
        }
    }

    /// The selection rule on the raw language tags, each trimmed first.
    pub open spec fn matches_spec(
        &self,
        language: Seq<char>,
        version: Option<Option<VersionView>>,
        ins_set: Option<Seq<char>>,
    ) -> bool {
        self.selects_spec(trimmed(self.language@), trimmed(language), version, ins_set)
    }

    /// Builds an entry from its parts.
    pub fn new(
        id: String,
        name: String,
        language: String,
        version: OptionalVersion,
        instruction_set: String,
        supports_binary: bool,
        supports_execute: bool,
    ) -> (r: GodBoltCompiler)
        ensures
            r.id@ == id@,
            r.name@ == name@,
            r.language@ == language@,
            r.version@ == version@,
            r.instruction_set@ == instruction_set@,
            r.supports_binary == supports_binary,
            r.supports_execute == supports_execute,
    {
        GodBoltCompiler {
            id,
            name,
            language,
            version,
            instruction_set,
            supports_binary,
            supports_execute,
        }
    }

    /// The selection rule, given this compiler's language tag and the requested
    /// one, both already trimmed.
    pub fn selects(
        &self,
        own_language: &str,
        language: &str,
        version: &Option<OptionalVersion>,
        ins_set: &Option<String>,
    ) -> (r: bool)
        ensures
            r == self.selects_spec(
                own_language@,
                language@,
                requested_version(*version),
                requested_set(*ins_set),
            ),
    {
        if String::from_str(own_language) != String::from_str(language) {
            return false;
        }
        match version {
            Some(wanted) => {
                if !wanted.same(&self.version) {
                    return false;
                }
            },
            None => {
                if !self.supports_binary || !self.supports_execute {
                    return false;
                }
            },
        }
        match ins_set {
            Some(wanted) => {
                if self.instruction_set != *wanted {
                    return false;
                }
            },
            None => {
                if !self.supports_binary || !self.supports_execute {
                    return false;
                }
            },
        }
        true
    }

    /// Whether this compiler answers a request for the language (both tags
    /// trimmed), the version and the instruction set; a requested tag and its
    /// trimmed form get the same answer.
    pub fn matches(&self, language: &str, version: Option<OptionalVersion>, ins_set: Option<String>) -> (r: bool)
        ensures
            r == self.matches_spec(language@, requested_version(version), requested_set(ins_set)),
            r == self.matches_spec(trimmed(language@), requested_version(version), requested_set(ins_set)),
    {
        let own = trim_text(self.language.as_str());
        let wanted = trim_text(language);
        self.selects(own, wanted, &version, &ins_set)
    }

    /// Checks that the compiler can do what is asked and builds the submission:
    /// running needs execution support, disassembly needs binary support.
    pub fn compile_request(&self, code: &str, user_args: &str, execute: bool) -> (r: Result<
        CompileRequest,
        GodBoltError,
    >)
        ensures
            match r {
                Ok(q) => {
                    &&& execute ==> self.supports_execute
                    &&& !execute ==> self.supports_binary
                    &&& q.compiler_id@ == self.id@
                    &&& q.source@ == code@
                    &&& q.user_arguments@ == user_args@
                    &&& q.execute == execute
                },
                Err(GodBoltError::InvalidOperation(op)) => if execute {
                    !self.supports_execute && op@ == "execution"@
                } else {
                    !self.supports_binary && op@ == "compilation"@
                },
                Err(_) => false,
            },
    {
        if execute && !self.supports_execute {
            return Err(GodBoltError::InvalidOperation(String::from_str("execution")));
        }
        if !execute && !self.supports_binary {
            return Err(GodBoltError::InvalidOperation(String::from_str("compilation")));
        }
        Ok(
            CompileRequest {
                compiler_id: self.id.clone(),
                source: String::from_str(code),
                user_arguments: String::from_str(user_args),
                execute,
            },
        )
    }

    /// The result of a compile from the backend's answer: the run output on
    /// success, the compiler diagnostics otherwise, with this compiler's version
    /// and name and the kind of compile.
    pub fn compile_output(
        &self,
        execute: bool,
        is_success: bool,
        run_output: String,
        compile_output: String,
    ) -> (r: GodBoltCompilerOutput)
        ensures
            r.output@ == (if is_success { run_output@ } else { compile_output@ }),
            r.is_success == is_success,
            r.version@ == self.version@,
            r.compiler_name@ == self.name@,
            r.run_type == (if execute { CompilationType::Execution } else { CompilationType::Assembly }),
    {
        GodBoltCompilerOutput {
            output: if is_success { run_output } else { compile_output },
            is_success,
            version: self.version.duplicate(),
            compiler_name: self.name.clone(),
            run_type: if execute { CompilationType::Execution } else { CompilationType::Assembly },
        }
    }
}

/// Selection reads the language tags only once trimmed: two requested tags
/// that trim to the same text select the same compilers.
pub proof fn lemma_matches_trims_language(
    e: GodBoltCompiler,
    a: Seq<char>,
    b: Seq<char>,
    version: Option<Option<VersionView>>,
    ins_set: Option<Seq<char>>,
)
    requires
        trimmed(a) == trimmed(b),
    ensures
        e.matches_spec(a, version, ins_set) == e.matches_spec(b, version, ins_set),
{
}

/// A request that names neither a version nor an instruction set is answered
/// only by a compiler that can both build binaries and run them.
pub proof fn lemma_open_request_needs_full_capability(e: GodBoltCompiler, language: Seq<char>)
    ensures
        e.matches_spec(language, None, None) ==> e.supports_binary && e.supports_execute,
{
}

/// The result of one compile.
pub struct GodBoltCompilerOutput {
    pub output: String,
    pub is_success: bool,
    pub version: OptionalVersion,
    pub compiler_name: String,
    pub run_type: CompilationType,
}

/// How many characters of an over-long output are kept.
pub const KEPT_OUTPUT_CHARS: usize = 1840;

/// Room kept free below the platform's message limit.
pub const LIMIT_MARGIN: usize = 100;

/// Whether an output of `len` characters is over the threshold of a platform
/// whose messages hold at most `limit` characters.
pub open spec fn over_threshold(len: nat, limit: nat) -> bool {
    len > limit - LIMIT_MARGIN
}

/// The output as shown: its first characters only when it is over the threshold.
pub open spec fn shown_output(output: Seq<char>, limit: nat) -> Seq<char> {
    if over_threshold(output.len(), limit) && output.len() > KEPT_OUTPUT_CHARS {
        output.take(KEPT_OUTPUT_CHARS as int)
    } else {
        output
    }
}

/// The warning lines of a message, in order, joined by line breaks.
pub open spec fn warnings_text(mangled: bool, cut: bool) -> Seq<char> {
    if mangled && cut {
        MANGLED_WARNING@ + seq!['\n'] + TRIMMED_WARNING@
    } else if mangled {
        MANGLED_WARNING@
    } else if cut {
        TRIMMED_WARNING@
    } else {
        Seq::empty()
    }
}

/// What follows the compiler name in the header: nothing when the name holds
/// the version's text, else a space and that text.
pub open spec fn version_suffix(name: Seq<char>, version: Seq<char>) -> Seq<char> {
    if occurs_in(name, version) { Seq::empty() } else { seq![' '] + version }
}

/// The syntax tag of the code block.
pub open spec fn syntax_tag(run_type: CompilationType, is_success: bool) -> Seq<char> {
    if run_type == CompilationType::Assembly && is_success { "x86asm"@ } else { "ansi"@ }
}

/// The chat message for a result, given whether its output is blank once trimmed.
pub open spec fn message_text(o: GodBoltCompilerOutput, limit: nat, output_blank: bool) -> Seq<char> {
    let mangled = o.run_type == CompilationType::Assembly && output_blank;
    let cut = over_threshold(o.output@.len(), limit);
    let shown = shown_output(o.output@, limit);
    let body = if shown.len() == 0 { "<no output>"@ } else { shown };
    let status = if o.is_success { "success"@ } else { "error"@ };
    "**"@ + status + "** ("@ + o.compiler_name@ + version_suffix(
        o.compiler_name@,
        optional_version_text(o.version@),
    ) + ")\n```"@ + syntax_tag(o.run_type, o.is_success) + "\n"@ + body + "```\n"@
        + warnings_text(mangled, cut)
}

/// Shown when a disassembly comes back blank.
pub const MANGLED_WARNING: &'static str =
    "**Warning:** Mangled sections are filtered by heuristics, consider unmangling relevant sections.";

/// Shown when the output was cut.
pub const TRIMMED_WARNING: &'static str =
    "**Warning:** The output was trimmed because the output is over 2000 characters long.";

impl GodBoltCompilerOutput {
    /// The output text.
    pub fn output(&self) -> (r: &str)
        ensures
            r@ == self.output@,
    {
        self.output.as_str()
    }

    /// Whether the compile succeeded.
    pub fn is_success(&self) -> (r: bool)
        ensures
            r == self.is_success,
    {
        self.is_success
    }

    /// The compiler's version when it compiled.
    pub fn version(&self) -> (r: &OptionalVersion)
        ensures
            r@ == self.version@,
    {
        &self.version
    }

    /// The compiler's display name when it compiled.
    pub fn compiler_name(&self) -> (r: &str)
        ensures
            r@ == self.compiler_name@,
    {
        self.compiler_name.as_str()
    }

    /// The kind of compile.
    pub fn run_type(&self) -> (r: &CompilationType)
        ensures
            *r == self.run_type,
    {
        &self.run_type
    }

    /// The chat message for this result, on a platform whose messages hold at
    /// most `message_limit` characters, given whether the output is blank once
    /// trimmed.
    pub fn render_message(&self, message_limit: usize, output_blank: bool) -> (r: String)
        ensures
            r@ == message_text(*self, message_limit as nat, output_blank),
    {
        let ghost limit = message_limit as nat;
        let len = self.output.as_str().unicode_len();
        let mangled = self.run_type == CompilationType::Assembly && output_blank;
        let cut = message_limit < LIMIT_MARGIN || len > message_limit - LIMIT_MARGIN;
        assert(cut == over_threshold(self.output@.len(), limit));
        let shown: String = if cut && len > KEPT_OUTPUT_CHARS {
            String::from_str(self.output.as_str().substring_char(0, KEPT_OUTPUT_CHARS))
        } else {
            self.output.clone()
        };
        assert(shown@ =~= shown_output(self.output@, limit));
        let version = self.version.to_text();
        let mut s = String::from_str("**");
        s = join_text(s, if self.is_success { "success" } else { "error" });
        s = join_text(s, "** (");
        s = join_text(s, self.compiler_name.as_str());
        if !contains_text(self.compiler_name.as_str(), version.as_str()) {
            proof {
                reveal_strlit(" ");
            }
            s = join_text(s, " ");
            s = join_text(s, version.as_str());
        }
        s = join_text(s, ")\n```");
        s = join_text(
            s,
            if self.run_type == CompilationType::Assembly && self.is_success {
                "x86asm"
            } else {
                "ansi"
            },
        );
        s = join_text(s, "\n");
        if shown.as_str().unicode_len() == 0 {
            s = join_text(s, "<no output>");
        } else {
            s = join_text(s, shown.as_str());
        }
        s = join_text(s, "```\n");
        if mangled {
            s = join_text(s, MANGLED_WARNING);
            if cut {
                proof {
                    reveal_strlit("\n");
                }
                s = join_text(s, "\n");
                s = join_text(s, TRIMMED_WARNING);
            }
        } else if cut {
            s = join_text(s, TRIMMED_WARNING);
        }
        assert(s@ =~= message_text(*self, limit, output_blank));
        s
    }

    /// The chat message for this result, on a platform whose messages hold at
    /// most `message_limit` characters.
    pub fn as_discord_message(&self, message_limit: usize) -> (r: String)
        ensures
            r@ == message_text(*self, message_limit as nat, trimmed(self.output@).len() == 0),
    {
        let blank = trim_text(self.output.as_str()).unicode_len() == 0;
        self.render_message(message_limit, blank)
    }
}

} // verus!
