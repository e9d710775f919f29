use vstd::prelude::*;
use wasi_common::WasiCtx;
use wasmtime::{Instance, Linker, Memory, Store};
use crate::call::GuestCall;
use crate::outcome::SandboxError;

verus! {

/// A metering engine's store, with the linker that provides the system interface,
/// before any module is loaded. Only `new_sandbox` makes one, so the store and the
/// linker always share their engine.
pub struct Sandbox {
    store: Store<WasiCtx>,
    linker: Linker<WasiCtx>,
}

/// An instantiated guest: its store, its instance and the instance's exported memory.
/// Only `instantiate` makes one, so the instance and the memory always belong to the
/// store they are held with.
pub struct Guest {
    store: Store<WasiCtx>,
    instance: Instance,
    memory: Memory,
}

/// Relies on `wasmtime::Engine::new` with `Config::consume_fuel(true)`, `Linker::new`,
/// `wasi_common::sync::add_to_linker` and `Store::new`: a synchronous store that meters
/// guest instructions, with `ctx` as its system context. Linear memories are
/// bounds-checked rather than backed by the default reservation of several GiB of
/// address space each (`static_memory_maximum_size(0)`, a 1 MiB growth reserve): a host
/// with a limited address space refuses that reservation.
#[verifier::external_body]
pub(crate) fn new_sandbox(ctx: WasiCtx) -> (r: Result<Sandbox, String>) {
    let mut config = wasmtime::Config::new();
    config.consume_fuel(true).static_memory_maximum_size(0).dynamic_memory_reserved_for_growth(
        1 << 20,
    );
    let engine = wasmtime::Engine::new(&config).map_err(|e| e.to_string())?;
    let mut linker = Linker::new(&engine);
    wasi_common::sync::add_to_linker(&mut linker, |s| s).map_err(|e| e.to_string())?;
    Ok(Sandbox { store: Store::new(&engine, ctx), linker })
}

/// Relies on `wasmtime::Store::set_fuel`: the store's remaining fuel becomes `fuel`,
/// which must be the planned budget.
#[verifier::external_body]
pub(crate) fn set_fuel(sandbox: &mut Sandbox, fuel: u64, plan: &GuestCall) -> (r: Result<
    (),
    String,
>)
    requires
        fuel == plan.spec_fuel(),
{
    sandbox.store.set_fuel(fuel).map_err(|e| e.to_string())
}

/// Relies on `wasmtime::Module::new`, `Linker::instantiate` and `Instance::get_memory`:
/// compiles `bytes` with the sandbox's engine, instantiates the module in its store, and
/// finds the exported memory named `memory` (`None` when there is none).
#[verifier::external_body]
pub(crate) fn instantiate(sandbox: Sandbox, bytes: &[u8]) -> (r: Result<Option<Guest>, String>) {
    let Sandbox { mut store, linker } = sandbox;
    let module = wasmtime::Module::new(store.engine(), bytes).map_err(|e| e.to_string())?;
    let instance = linker.instantiate(&mut store, &module).map_err(|e| e.to_string())?;
    let memory = instance.get_memory(&mut store, "memory");
    Ok(memory.map(move |memory| Guest { store, instance, memory }))
}

/// Relies on `wasmtime::Memory::write`: copies `bytes` into the guest's memory at
/// `offset`, or fails without writing when they do not fit. Both must be the planned
/// write.
#[verifier::external_body]
pub(crate) fn write_memory(guest: &mut Guest, offset: usize, bytes: &[u8], plan: &GuestCall) -> (r:
    Result<(), String>)
    requires
        plan.spec_write() == Some((offset, bytes@)),
{
    guest.memory.write(&mut guest.store, offset, bytes).map_err(|e| e.to_string())
}

/// Relies on `wasmtime::Instance::get_typed_func` for the export `run: (i32, i32) -> i32`
/// (a missing or mistyped export is a load error) and on `TypedFunc::call` with the
/// planned arguments `(a, b)`, whose error is a `wasmtime::Trap` of kind `OutOfFuel`
/// when the budget ran out. A guest that sleeps holds the call for as long as it asks.
#[verifier::external_body]
pub(crate) fn call_pair(guest: &mut Guest, a: i32, b: i32, plan: &GuestCall) -> (r: Result<
    i32,
    SandboxError,
>)
    requires
        plan.spec_args() == Some((a, b)),
    ensures
        r matches Err(e) ==> e is ModuleLoad || e is OutOfFuel || e is GuestTrap,
{
    let run = guest.instance.get_typed_func::<(i32, i32), i32>(&mut guest.store, "run").map_err(
        |e| SandboxError::ModuleLoad(e.to_string()),
    )?;
    run.call(&mut guest.store, (a, b)).map_err(|e| match e.downcast_ref::<wasmtime::Trap>() {
        Some(wasmtime::Trap::OutOfFuel) => SandboxError::OutOfFuel,
        _ => SandboxError::GuestTrap(e.to_string()),
    })
}

/// Relies on `wasmtime::Instance::get_typed_func` for the export `run: () -> i32` (a
/// missing or mistyped export is a load error) and on `TypedFunc::call`, which the plan
/// must call for, whose error is a `wasmtime::Trap` of kind `OutOfFuel` when the budget
/// ran out. A guest that sleeps holds the call for as long as it asks.
#[verifier::external_body]
pub(crate) fn call_nullary(guest: &mut Guest, plan: &GuestCall) -> (r: Result<i32, SandboxError>)
    requires
        plan.spec_args() is None,
    ensures
        r matches Err(e) ==> e is ModuleLoad || e is OutOfFuel || e is GuestTrap,
{
    let run = guest.instance.get_typed_func::<(), i32>(&mut guest.store, "run").map_err(
        |e| SandboxError::ModuleLoad(e.to_string()),
    )?;
    run.call(&mut guest.store, ()).map_err(|e| match e.downcast_ref::<wasmtime::Trap>() {
        Some(wasmtime::Trap::OutOfFuel) => SandboxError::OutOfFuel,
        _ => SandboxError::GuestTrap(e.to_string()),
    })
}

/// Relies on `wasmtime::Memory::data`: the guest memory's current contents.
#[verifier::external_body]
pub(crate) fn guest_memory(guest: &Guest) -> (r: &[u8]) {
    guest.memory.data(&guest.store)
}

} // verus!
