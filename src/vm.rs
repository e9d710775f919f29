use vstd::prelude::*;
use std::sync::{Arc, RwLock};
use wasi_common::WasiCtx;
use crate::outcome::{finish, spec_stdout_log, opt_view, ExecutionResult, SandboxError};
use crate::problem::Function;
use crate::call::{call_error, plan_call};
use crate::engine::{
    call_nullary, call_pair, guest_memory, instantiate, new_sandbox, set_fuel, write_memory,
};

verus! {

#[verifier::external_type_specification]
#[verifier::external_body]
pub struct ExInstance(wasmtime::Instance);

#[verifier::external_type_specification]
#[verifier::external_body]
pub struct ExMemory(wasmtime::Memory);

#[verifier::external_type_specification]
#[verifier::external_body]
#[verifier::reject_recursive_types(T)]
pub struct ExStore<T>(wasmtime::Store<T>);

#[verifier::external_type_specification]
#[verifier::external_body]
#[verifier::reject_recursive_types(T)]
pub struct ExLinker<T>(wasmtime::Linker<T>);

#[verifier::external_type_specification]
#[verifier::external_body]
pub struct ExWasiCtx(wasi_common::WasiCtx);

#[verifier::external_type_specification]
#[verifier::external_body]
#[verifier::reject_recursive_types(T)]
pub struct ExRwLock<T: ?Sized>(std::sync::RwLock<T>);

/// Relies on `RwLock::new`: a lock around an empty buffer.
#[verifier::external_body]
fn empty_buffer() -> (r: RwLock<Vec<u8>>) {
    RwLock::new(Vec::new())
}

/// Relies on `wasi_common::sync::WasiCtxBuilder` and `wasi_common::pipe::WritePipe`:
/// a context with the arguments `args` that inherits standard error and sends standard
/// output into `buffer`. Standard input is left closed, so that a guest cannot block
/// the host on it. Arguments whose total size
/// exceeds what a 32-bit guest can address are reported as an error.
#[verifier::external_body]
fn capturing_context(buffer: &Arc<RwLock<Vec<u8>>>, args: &[String]) -> (r: Result<
    WasiCtx,
    String,
>) {
    let pipe = wasi_common::pipe::WritePipe::from_shared(buffer.clone());
    let ctx = wasi_common::sync::WasiCtxBuilder::new().inherit_stderr().stdout(Box::new(
        pipe,
    )).args(args).map_err(|e| e.to_string())?.build();
    Ok(ctx)
}

/// Relies on `RwLock::read`: a copy of what the buffer holds. A poisoned lock still
/// hands out its contents.
#[verifier::external_body]
fn read_buffer(buffer: &Arc<RwLock<Vec<u8>>>) -> (r: Vec<u8>) {
    buffer.read().unwrap_or_else(|p| p.into_inner()).clone()
}

/// Runs a compiled guest as `plan_call` plans it: a metered engine with the system
/// interface, the guest's arguments `guest_args`, standard output captured, the fixed
/// instruction budget, the parameter written into guest memory for a parameterised
/// problem, and the entry point `run` called with the planned arguments. The returned
/// record is read out of the guest's `memory` and parsed by `finish`.
pub fn run_wasm(
    module_bytes: &[u8],
    function: Function,
    param: &Option<String>,
    guest_args: &[String],
) -> (r: Result<ExecutionResult, SandboxError>)
    ensures
        call_error(function, *param) matches Some(e) ==> (r matches Err(f) && f == e),
        (r matches Err(e) && (e is MissingParameter || e is ParameterTooLong)) ==> call_error(
            function,
            *param,
        ) == Some(r->Err_0),
        r matches Ok(x) ==> x.out is Some && (opt_view(x.log) == spec_stdout_log(Seq::empty())
            || x.log is None),
        r matches Err(e) ==> (e is ModuleLoad || e is OutOfFuel || e is GuestTrap
            || e is ResultDecode || e is MissingParameter || e is ParameterTooLong),
{
    let plan = match plan_call(function, param) {
        Ok(p) => p,
        Err(e) => {
            return Err(e);
        },
    };
    let buffer = Arc::new(empty_buffer());
    let ctx = match capturing_context(&buffer, guest_args) {
        Ok(c) => c,
        Err(m) => {
            return Err(SandboxError::ModuleLoad(m));
        },
    };
    let mut sandbox = match new_sandbox(ctx) {
        Ok(s) => s,
        Err(m) => {
            return Err(SandboxError::ModuleLoad(m));
        },
    };
    if let Err(m) = set_fuel(&mut sandbox, plan.fuel(), &plan) {
        return Err(SandboxError::ModuleLoad(m));
    }
    let mut guest = match instantiate(sandbox, module_bytes) {
        Ok(Some(g)) => g,
        Ok(None) => {
            return Err(SandboxError::ModuleLoad(String::from_str("module exports no memory")));
        },
        Err(m) => {
            return Err(SandboxError::ModuleLoad(m));
        },
    };
    let called = match plan.args() {
        Some((a, b)) => {
            if let Some((offset, bytes)) = plan.write() {
                if let Err(m) = write_memory(&mut guest, offset, bytes, &plan) {
                    return Err(SandboxError::GuestTrap(m));
                }
            }
            call_pair(&mut guest, a, b, &plan)
        },
        None => call_nullary(&mut guest, &plan),
    };
    let ptr = match called {
        Ok(p) => p as u32 as usize,
        Err(e) => {
            return Err(e);
        },
    };
    let captured = read_buffer(&buffer);
    finish(captured.as_slice(), guest_memory(&guest), ptr)
}

} // verus!
