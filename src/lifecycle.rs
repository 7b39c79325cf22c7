//! The module lifecycle: compile, link the host functions, instantiate,
//! resolve the entry point and run it, then hand back the final state.
use vstd::prelude::*;
use wasmtime::{Caller, Config, Engine, Extern, Instance, Linker, Module, Store, Trap, TypedFunc};
use crate::host::{get_state, get_vec, set_state, set_vec, ScalarState, SharedState};

verus! {

#[verifier::external_type_specification]
#[verifier::external_body]
pub struct ExEngine(Engine);

#[verifier::external_type_specification]
#[verifier::external_body]
pub struct ExConfig(Config);

#[verifier::external_type_specification]
#[verifier::external_body]
pub struct ExModule(Module);

#[verifier::external_type_specification]
#[verifier::external_body]
pub struct ExWasmError(wasmtime::Error);

/// Why an invocation failed, by the stage at which it stopped. Each carries
/// the runtime's description where there is one.
#[derive(Debug, Clone, PartialEq, Eq)]
pub enum ExecError {
    /// No guest binary under the requested name.
    NotFound,
    /// The compilation environment could not be set up, or the bytes are
    /// not a valid module.
    Compile(String),
    /// A host function could not be defined.
    Link(String),
    /// The module's imports could not be resolved, or its start-up failed.
    Instantiation(String),
    /// No `start` export of type `() -> ()`.
    EntryPointMissing(String),
    /// The guest trapped, or a host function refused its request.
    RuntimeFault(String),
}

/// The import namespace of the host functions.
pub const HOST_NAMESPACE: &'static str = "env";

/// The guest export that holds its linear memory.
pub const MEMORY_EXPORT: &'static str = "memory";

/// Host function names of the buffer variant.
pub const SET_VEC: &'static str = "set_vec";
pub const GET_VEC: &'static str = "get_vec";

/// Host function names of the scalar variant.
pub const SET_STATE: &'static str = "set_state";
pub const GET_STATE: &'static str = "get_state";

/// The name of the guest's entry point.
pub const ENTRY_POINT: &'static str = "start";

/// Address space reserved up front for each guest memory. Growth beyond it
/// moves the memory, so nothing may hold on to its old location.
pub const MEMORY_RESERVATION: u64 = 16 * 1024 * 1024;

/// Extra address space reserved for a guest memory when it moves to grow.
pub const GROWTH_RESERVATION: u64 = 1024 * 1024;

/// Unmapped bytes after each guest memory.
pub const GUARD_SIZE: u64 = 64 * 1024;

/// Relies on `Config::new`: default compilation settings.
#[verifier::external_body]
fn new_config() -> Config {
    Config::new()
}

/// Relies on `Config::memory_reservation`.
#[verifier::external_body]
fn set_memory_reservation(config: &mut Config, bytes: u64) {
    config.memory_reservation(bytes);
}

/// Relies on `Config::memory_reservation_for_growth`.
#[verifier::external_body]
fn set_growth_reservation(config: &mut Config, bytes: u64) {
    config.memory_reservation_for_growth(bytes);
}

/// Relies on `Config::memory_guard_size`.
#[verifier::external_body]
fn set_guard_size(config: &mut Config, bytes: u64) {
    config.memory_guard_size(bytes);
}

/// Relies on `Engine::new`: a compilation environment for `config`, or the
/// reason the settings were refused.
#[verifier::external_body]
fn new_engine(config: &Config) -> Result<Engine, wasmtime::Error> {
    Engine::new(config)
}

/// An engine together with the link table built on it, so that every store
/// and module made here belongs to the linker's engine.
#[verifier::external_body]
#[verifier::reject_recursive_types(T)]
struct Host<T: 'static> {
    engine: Engine,
    linker: Linker<T>,
}

/// An instance together with the store that owns it.
#[verifier::external_body]
#[verifier::reject_recursive_types(T)]
struct Running<T: 'static> {
    store: Store<T>,
    instance: Instance,
}

/// A resolved entry point together with the store that owns it.
#[verifier::external_body]
#[verifier::reject_recursive_types(T)]
struct Ready<T: 'static> {
    store: Store<T>,
    entry: TypedFunc<(), ()>,
}

impl<T: 'static> Host<T> {
    /// Relies on `Linker::new`: an empty link table on `engine`.
    #[verifier::external_body]
    fn new(engine: Engine) -> Self {
        let linker = Linker::new(&engine);
        Host { engine, linker }
    }

    /// Relies on `Module::new`: validates and compiles the guest bytes on
    /// this host's engine.
    #[verifier::external_body]
    fn compile(&self, code: &[u8]) -> Result<Module, wasmtime::Error> {
        Module::new(&self.engine, code)
    }

    /// Relies on `Store::new` and `Linker::instantiate`: a fresh store on this
    /// host's engine that owns `state`, and `module` instantiated in it against
    /// the link table. The store and linker share one engine, and the link
    /// table holds host functions only, so neither call can panic; a module
    /// of another engine is refused with an error.
    #[verifier::external_body]
    fn instantiate(&self, module: &Module, state: T) -> Result<Running<T>, wasmtime::Error> {
        let mut store = Store::new(&self.engine, state);
        let instance = self.linker.instantiate(&mut store, module)?;
        Ok(Running { store, instance })
    }
}

impl Host<SharedState> {
    /// Relies on `Linker::func_wrap`: defines `name(ptr: u32, size: u32)` in
    /// `module`, which runs Deposit on the store's state and the guest memory
    /// exported as `memory`, resolved afresh on every call.
    #[verifier::external_body]
    fn define_set_vec(&mut self, module: &str, name: &str, memory: &'static str) -> Result<(), wasmtime::Error> {
        let f = move |mut caller: Caller<'_, SharedState>, ptr: u32, size: u32| -> wasmtime::Result<()> {
            let Some(Extern::Memory(mem)) = caller.get_export(memory) else {
                return Err(Trap::UnreachableCodeReached.into());
            };
            let (bytes, state) = mem.data_and_store_mut(&mut caller);
            set_vec(state, bytes, ptr, size).map_err(|f| wasmtime::Error::msg(format!("{f:?}")))
        };
        self.linker.func_wrap(module, name, f).map(|_| ())
    }

    /// Relies on `Linker::func_wrap`: defines `name(ptr: u32, max_size: u32) -> u32`
    /// in `module`, which runs Deliver on the store's state and the guest memory
    /// exported as `memory`, resolved afresh on every call.
    #[verifier::external_body]
    fn define_get_vec(&mut self, module: &str, name: &str, memory: &'static str) -> Result<(), wasmtime::Error> {
        let f = move |mut caller: Caller<'_, SharedState>, ptr: u32, max: u32| -> wasmtime::Result<u32> {
            let Some(Extern::Memory(mem)) = caller.get_export(memory) else {
                return Err(Trap::UnreachableCodeReached.into());
            };
            let (bytes, state) = mem.data_and_store_mut(&mut caller);
            get_vec(state, bytes, ptr, max).map_err(|f| wasmtime::Error::msg(format!("{f:?}")))
        };
        self.linker.func_wrap(module, name, f).map(|_| ())
    }
}

impl Host<ScalarState> {
    /// Relies on `Linker::func_wrap`: defines `name(v: u32)` in `module`,
    /// which replaces the store's scalar state.
    #[verifier::external_body]
    fn define_set_state(&mut self, module: &str, name: &str) -> Result<(), wasmtime::Error> {
        let f = |mut caller: Caller<'_, ScalarState>, v: u32| set_state(caller.data_mut(), v);
        self.linker.func_wrap(module, name, f).map(|_| ())
    }

    /// Relies on `Linker::func_wrap`: defines `name() -> u32` in `module`,
    /// which reads the store's scalar state.
    #[verifier::external_body]
    fn define_get_state(&mut self, module: &str, name: &str) -> Result<(), wasmtime::Error> {
        let f = |caller: Caller<'_, ScalarState>| get_state(caller.data());
        self.linker.func_wrap(module, name, f).map(|_| ())
    }
}

impl<T: 'static> Running<T> {
    /// Relies on `Instance::get_typed_func`: the export `name` as a function
    /// `() -> ()`, looked up in the store that owns the instance.
    #[verifier::external_body]
    fn entry(self, name: &str) -> Result<Ready<T>, wasmtime::Error> {
        let Running { mut store, instance } = self;
        let entry = instance.get_typed_func::<(), ()>(&mut store, name)?;
        Ok(Ready { store, entry })
    }
}

impl<T: 'static> Ready<T> {
    /// Relies on `TypedFunc::call`: runs the entry point, in the store that
    /// owns it, to completion or to a trap.
    #[verifier::external_body]
    fn call(&mut self) -> Result<(), wasmtime::Error> {
        self.entry.call(&mut self.store, ())
    }

    /// Relies on `Store::into_data`: the state the store holds at the end.
    #[verifier::external_body]
    fn into_state(self) -> T {
        self.store.into_data()
    }
}

/// Relies on the `Display` impl of `wasmtime::Error`: its description.
#[verifier::external_body]
fn describe(e: &wasmtime::Error) -> String {
    e.to_string()
}

/// A host on an engine whose guest memories are bounds-checked within a
/// modest reservation. A refused engine setting counts as a failure to set
/// up compilation.
fn prepare_host<T: 'static>() -> (r: Result<Host<T>, ExecError>)
    ensures
        r matches Err(e) ==> e is Compile,
{
    let mut config = new_config();
    set_memory_reservation(&mut config, MEMORY_RESERVATION);
    set_growth_reservation(&mut config, GROWTH_RESERVATION);
    set_guard_size(&mut config, GUARD_SIZE);
    match new_engine(&config) {
        Ok(e) => Ok(Host::new(e)),
        Err(e) => Err(ExecError::Compile(describe(&e))),
    }
}

/// Instantiates `module` in a fresh store that owns `state`, resolves
/// `start` and calls it, and hands back the store's final state.
fn run_entry<T: 'static>(host: &Host<T>, module: &Module, state: T) -> (r: Result<T, ExecError>)
    ensures
        r matches Err(e) ==> e is Instantiation || e is EntryPointMissing || e is RuntimeFault,
{
    let running = match host.instantiate(module, state) {
        Ok(i) => i,
        Err(e) => return Err(ExecError::Instantiation(describe(&e))),
    };
    let mut ready = match running.entry(ENTRY_POINT) {
        Ok(f) => f,
        Err(e) => return Err(ExecError::EntryPointMissing(describe(&e))),
    };
    if let Err(e) = ready.call() {
        return Err(ExecError::RuntimeFault(describe(&e)));
    }
    Ok(ready.into_state())
}

/// Runs one invocation of the guest `wasm_code` on `shared_state`: compile,
/// link `set_vec` and `get_vec` under `env`, instantiate, resolve `start`
/// and call it. On success the store's final state comes back; on failure the
/// error names the stage that stopped.
pub fn executor(wasm_code: &[u8], shared_state: SharedState) -> (r: Result<SharedState, ExecError>)
    ensures
        r matches Err(e) ==> !(e is NotFound),
{
    let mut host = prepare_host()?;
    let module = match host.compile(wasm_code) {
        Ok(m) => m,
        Err(e) => return Err(ExecError::Compile(describe(&e))),
    };
    if let Err(e) = host.define_set_vec(HOST_NAMESPACE, SET_VEC, MEMORY_EXPORT) {
        return Err(ExecError::Link(describe(&e)));
    }
    if let Err(e) = host.define_get_vec(HOST_NAMESPACE, GET_VEC, MEMORY_EXPORT) {
        return Err(ExecError::Link(describe(&e)));
    }
    run_entry(&host, &module, shared_state)
}

/// The scalar variant of [`executor`]: links `set_state` and `get_state`
/// under `env`, which exchange the state by value.
pub fn scalar_executor(wasm_code: &[u8], shared_state: ScalarState) -> (r: Result<ScalarState, ExecError>)
    ensures
        r matches Err(e) ==> !(e is NotFound),
{
    let mut host = prepare_host()?;
    let module = match host.compile(wasm_code) {
        Ok(m) => m,
        Err(e) => return Err(ExecError::Compile(describe(&e))),
    };
    if let Err(e) = host.define_set_state(HOST_NAMESPACE, SET_STATE) {
        return Err(ExecError::Link(describe(&e)));
    }
    if let Err(e) = host.define_get_state(HOST_NAMESPACE, GET_STATE) {
        return Err(ExecError::Link(describe(&e)));
    }
    run_entry(&host, &module, shared_state)
}

/// One invocation on a copy of `prior`: the new state and no error on
/// success; on any failure `prior`, byte for byte, and the error. Nothing a
/// failed run deposited is ever handed back.
pub fn invoke(wasm_code: &[u8], prior: &SharedState) -> (r: (SharedState, Option<ExecError>))
    ensures
        r.1 is Some ==> r.0.val@ == prior.val@ && !(r.1->Some_0 is NotFound),
{
    let copy = SharedState { val: prior.val.clone() };
    match executor(wasm_code, copy) {
        Ok(s) => (s, None),
        Err(e) => {
            let kept = SharedState { val: prior.val.clone() };
            assert(kept.val@ =~= prior.val@);
            (kept, Some(e))
        },
    }
}

/// The state a caller holds after an invocation that ended in `outcome`:
/// the new state on success, the prior one, untouched, on any failure.
pub fn next_state(prior: SharedState, outcome: Result<SharedState, ExecError>) -> (r: SharedState)
    ensures
        outcome is Err ==> r == prior,
        outcome matches Ok(s) ==> r == s,
{
    match outcome {
        Ok(s) => s,
        Err(_) => prior,
    }
}

/// The file extension of guest binaries, `.wasm` in ASCII.
pub open spec fn wasm_ext() -> Seq<u8> {
    seq![46u8, 119u8, 97u8, 115u8, 109u8]
}

/// `name` ends with the guest binary extension.
pub open spec fn has_wasm_ext(name: Seq<u8>) -> bool {
    name.len() >= wasm_ext().len() && name.subrange(name.len() - wasm_ext().len(), name.len() as int)
        == wasm_ext()
}

/// The file name of the guest binary called `name`: `name` itself where it
/// already ends in `.wasm`, else `name` with `.wasm` appended.
pub fn module_file_name(name: &[u8]) -> (r: Vec<u8>)
    requires
        name@.len() + 5 <= usize::MAX,
    ensures
        has_wasm_ext(name@) ==> r@ == name@,
        !has_wasm_ext(name@) ==> r@ == name@ + wasm_ext(),
{
    let ext: [u8; 5] = [46, 119, 97, 115, 109];
    let n = name.len();
    let mut ends = n >= 5;
    let mut i: usize = 0;
    while i < 5
        invariant
            ext@ == wasm_ext(),
            n == name@.len(),
            0 <= i <= 5,
            ends <==> (n >= 5 && forall|j: int| 0 <= j < i ==> name@[n - 5 + j] == ext@[j]),
        decreases 5 - i,
    {
        if ends && name[n - 5 + i] != ext[i] {
            ends = false;
        }
        i = i + 1;
    }
    let mut out: Vec<u8> = Vec::new();
    let mut k: usize = 0;
    while k < n
        invariant
            n == name@.len(),
            k <= n,
            out@ == name@.subrange(0, k as int),
        decreases n - k,
    {
        out.push(name[k]);
        k = k + 1;
        assert(out@ =~= name@.subrange(0, k as int));
    }
    assert(name@.subrange(0, n as int) =~= name@);
    if ends {
        assert(name@.subrange(n - 5, n as int) =~= wasm_ext());
        return out;
    }
    assert(!has_wasm_ext(name@)) by {
        if n >= 5 {
            let j = choose|j: int| 0 <= j < 5 && name@[n - 5 + j] != ext@[j];
            assert(name@.subrange(n - 5, n as int)[j] != wasm_ext()[j]);
        }
    }
    let mut m: usize = 0;
    while m < 5
        invariant
            ext@ == wasm_ext(),
            n == name@.len(),
            m <= 5,
            out@ == name@ + wasm_ext().subrange(0, m as int),
        decreases 5 - m,
    {
        out.push(ext[m]);
        m = m + 1;
        assert(out@ =~= name@ + wasm_ext().subrange(0, m as int));
    }
    assert(wasm_ext().subrange(0, 5) =~= wasm_ext());
    out
}

} // verus!
