use vstd::prelude::*;
use vstd::utf8::{decode_utf8, valid_utf8};
use crate::abi::{decode_error_text, record_fits, resolve_string, text_bytes, text_fits};

verus! {

#[verifier::external_type_specification]
#[verifier::external_body]
pub struct ExJsonValue(serde_json::Value);

/// What `serde_json::from_str` makes of `s` as a `serde_json::Value`: the document's
/// value, or the text of the error that rejects `s`.
pub uninterp spec fn parsed_json(s: Seq<char>) -> Result<serde_json::Value, Seq<char>>;

/// What `String::from_utf8_lossy` makes of `b`.
pub uninterp spec fn lossy_text(b: Seq<u8>) -> Seq<char>;

/// The message reported when a guest runs out of fuel.
pub open spec fn fuel_message() -> Seq<char> {
    "Instruction maximum exceeded. Aborted execution to avoid DOS."@
}

/// What can go wrong while a submission is staged, compiled and run.
#[derive(Clone, Debug, PartialEq, Eq)]
pub enum SandboxError {
    /// The named problem is not one of the known problems.
    UnknownProblem,
    /// The problem's template directory is absent.
    TemplateMissing,
    /// The template holds no project manifest.
    ManifestMissing,
    /// A filesystem operation failed while the workspace was prepared.
    StagingIO(String),
    /// The compiler exited with failure; its diagnostics.
    CompilationFailed(String),
    /// The compiled module did not load or instantiate.
    ModuleLoad(String),
    /// A parameterised problem was run without a parameter.
    MissingParameter,
    /// The parameter is too long to be passed to the guest.
    ParameterTooLong,
    /// The guest used up its instruction budget.
    OutOfFuel,
    /// The guest trapped for another reason.
    GuestTrap(String),
    /// The guest's result could not be read or parsed.
    ResultDecode(String),
}

/// The description of an error, as the caller sees it after `Error: `.
pub open spec fn error_text(e: SandboxError) -> Seq<char> {
    match e {
        SandboxError::UnknownProblem => "unknown problem"@,
        SandboxError::TemplateMissing => "template directory is missing"@,
        SandboxError::ManifestMissing => "template manifest is missing"@,
        SandboxError::StagingIO(m) => m@,
        SandboxError::CompilationFailed(d) => "Compilation failed: "@ + d@,
        SandboxError::ModuleLoad(m) => m@,
        SandboxError::MissingParameter => "Param function called without passing a parameter."@,
        SandboxError::ParameterTooLong => "parameter is too long for the guest"@,
        SandboxError::OutOfFuel => "all fuel consumed by WebAssembly"@,
        SandboxError::GuestTrap(m) => m@,
        SandboxError::ResultDecode(m) => m@,
    }
}

/// The log line that reports an error to the caller.
pub open spec fn error_log_text(e: SandboxError) -> Seq<char> {
    if e is OutOfFuel {
        fuel_message()
    } else {
        "Error: "@ + error_text(e)
    }
}

/// The log field for what the guest wrote to its standard output: it is set,
/// to the empty text, only when the guest wrote nothing.
pub open spec fn spec_stdout_log(captured: Seq<u8>) -> Option<Seq<char>> {
    if captured.len() == 0 {
        Some(Seq::empty())
    } else {
        None
    }
}

/// The view of an optional string.
pub open spec fn opt_view(o: Option<String>) -> Option<Seq<char>> {
    match o {
        Some(s) => Some(s@),
        None => None,
    }
}

/// The guest's record at `ptr` addresses valid UTF-8 inside the memory.
pub open spec fn result_readable(mem: Seq<u8>, ptr: int) -> bool {
    record_fits(mem, ptr) && text_fits(mem, ptr) && valid_utf8(text_bytes(mem, ptr))
}

/// The result text that the guest's record at `ptr` addresses.
pub open spec fn result_text(mem: Seq<u8>, ptr: int) -> Seq<char> {
    decode_utf8(text_bytes(mem, ptr))
}

/// What a request returns: a log and the guest's structured result, `None` standing
/// for a JSON null.
pub struct ExecutionResult {
    pub log: Option<String>,
    pub out: Option<serde_json::Value>,
}

impl SandboxError {
    /// The description of the error.
    pub fn describe(&self) -> (r: String)
        ensures
            r@ == error_text(*self),
    {
        match self {
            SandboxError::UnknownProblem => String::from_str("unknown problem"),
            SandboxError::TemplateMissing => String::from_str("template directory is missing"),
            SandboxError::ManifestMissing => String::from_str("template manifest is missing"),
            SandboxError::StagingIO(m) => m.clone(),
            SandboxError::CompilationFailed(d) => String::from_str("Compilation failed: ").concat(
                d.as_str(),
            ),
            SandboxError::ModuleLoad(m) => m.clone(),
            SandboxError::MissingParameter => String::from_str(
                "Param function called without passing a parameter.",
            ),
            SandboxError::ParameterTooLong => String::from_str("parameter is too long for the guest"),
            SandboxError::OutOfFuel => String::from_str("all fuel consumed by WebAssembly"),
            SandboxError::GuestTrap(m) => m.clone(),
            SandboxError::ResultDecode(m) => m.clone(),
        }
    }

    /// The log line that reports the error: the fixed budget message for an exhausted
    /// budget, and `Error: ` followed by the description otherwise.
    pub fn log_line(&self) -> (r: String)
        ensures
            r@ == error_log_text(*self),
    {
        match self {
            SandboxError::OutOfFuel => String::from_str(
                "Instruction maximum exceeded. Aborted execution to avoid DOS.",
            ),
            _ => String::from_str("Error: ").concat(self.describe().as_str()),
        }
    }
}

/// A guest that used up its budget is answered with the budget message and no result:
/// the log line of that error is the fixed message, whatever the guest did before.
pub proof fn exhausted_budget_log()
    ensures
        error_log_text(SandboxError::OutOfFuel) == fuel_message(),
{
}

/// Turns the outcome of a request into its response: a result passes unchanged, an
/// error becomes its log line with a null result.
pub fn respond(outcome: Result<ExecutionResult, SandboxError>) -> (r: ExecutionResult)
    ensures
        outcome matches Ok(x) ==> r == x,
        outcome matches Err(e) ==> opt_view(r.log) == Some(error_log_text(e)) && r.out is None,
{
    match outcome {
        Ok(x) => x,
        Err(e) => ExecutionResult { log: Some(e.log_line()), out: None },
    }
}

/// The log field for the guest's captured standard output.
pub fn stdout_log(captured: &[u8]) -> (r: Option<String>)
    ensures
        opt_view(r) == spec_stdout_log(captured@),
{
    if captured.len() == 0 {
        Some(String::new())
    } else {
        None
    }
}

/// Relies on `String::from_utf8_lossy`: valid UTF-8 is decoded as it is; otherwise
/// the result depends on the bytes alone.
#[verifier::external_body]
fn lossy_string(b: &[u8]) -> (r: String)
    ensures
        r@ == lossy_text(b@),
        valid_utf8(b@) ==> r@ == decode_utf8(b@),
{
    String::from_utf8_lossy(b).into_owned()
}

/// Relies on `serde_json::from_str` into a `serde_json::Value`; a rejected text is
/// reported with the error's `Display` text, which depends on the text alone.
#[verifier::external_body]
fn parse_json(text: &str) -> (r: Result<serde_json::Value, String>)
    ensures
        r is Ok <==> parsed_json(text@) is Ok,
        r matches Ok(v) ==> (parsed_json(text@) matches Ok(w) && w == v),
        r matches Err(m) ==> (parsed_json(text@) matches Err(n) && n == m@),
{
    serde_json::from_str::<serde_json::Value>(text).map_err(|e| e.to_string())
}

/// Judges a finished compiler run: success, or a failure that carries the compiler's
/// diagnostics decoded as UTF-8 with invalid sequences replaced.
pub fn compile_outcome(success: bool, stderr: &[u8]) -> (r: Result<(), SandboxError>)
    ensures
        success ==> r is Ok,
        !success ==> (r matches Err(SandboxError::CompilationFailed(d)) && d@ == lossy_text(
            stderr@,
        )),
{
    if success {
        Ok(())
    } else {
        Err(SandboxError::CompilationFailed(lossy_string(stderr)))
    }
}

/// Builds the response of a guest that returned `ptr`: the log from its captured
/// standard output, and its result text, read from `memory` and parsed as JSON.
pub fn finish(captured: &[u8], memory: &[u8], ptr: usize) -> (r: Result<
    ExecutionResult,
    SandboxError,
>)
    ensures
        r is Ok <==> result_readable(memory@, ptr as int) && parsed_json(
            result_text(memory@, ptr as int),
        ) is Ok,
        r matches Ok(x) ==> opt_view(x.log) == spec_stdout_log(captured@) && (x.out matches Some(
            v,
        ) && parsed_json(result_text(memory@, ptr as int)) == Ok::<serde_json::Value, Seq<char>>(
            v,
        )),
        result_readable(memory@, ptr as int) && parsed_json(result_text(memory@, ptr as int))
            is Err ==> (r matches Err(SandboxError::ResultDecode(m)) && parsed_json(
            result_text(memory@, ptr as int),
        ) == Err::<serde_json::Value, Seq<char>>(m@)),
        r matches Err(e) ==> e is ResultDecode,
        !record_fits(memory@, ptr as int) ==> (r matches Err(SandboxError::ResultDecode(m))
            && m@ == decode_error_text(crate::abi::DecodeError::RecordOutOfBounds)),
        record_fits(memory@, ptr as int) && !text_fits(memory@, ptr as int) ==> (r matches Err(
            SandboxError::ResultDecode(m),
        ) && m@ == decode_error_text(crate::abi::DecodeError::TextOutOfBounds)),
        record_fits(memory@, ptr as int) && text_fits(memory@, ptr as int) && !valid_utf8(
            text_bytes(memory@, ptr as int),
        ) ==> (r matches Err(SandboxError::ResultDecode(m)) && m@ == decode_error_text(
            crate::abi::DecodeError::InvalidUtf8,
        )),
{
    let log = stdout_log(captured);
    let text = match resolve_string(memory, ptr) {
        Ok(t) => t,
        Err(e) => {
            return Err(SandboxError::ResultDecode(e.message()));
        },
    };
    match parse_json(text.as_str()) {
        Ok(v) => Ok(ExecutionResult { log, out: Some(v) }),
        Err(m) => Err(SandboxError::ResultDecode(m)),
    }
}

} // verus!
