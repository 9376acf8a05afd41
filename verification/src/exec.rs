//! Execution sandbox: runs an untrusted bytecode module under a strict
//! instruction budget and a capped linear memory.
//!
//! Each invocation gets a fresh engine, module instance, linear memory and
//! meter; no state survives across invocations.  The module may call only
//! the fixed capability import `env::printf`, whose output is captured in a
//! per-invocation sink; any other import fails instantiation.  Budget
//! exhaustion and runtime faults are first-class outcomes, not errors.
use vstd::prelude::*;
use vstd::slice::slice_to_vec;
use wasmi::errors::{
    ErrorKind,
    FuelError,
    InstantiationError,
    LinkerError,
    MemoryError,
    TableError,
};

verus! {

#[verifier::external_type_specification]
#[verifier::external_body]
pub struct ExEngine(wasmi::Engine);

#[verifier::external_type_specification]
#[verifier::external_body]
pub struct ExModule(wasmi::Module);

#[verifier::external_type_specification]
#[verifier::external_body]
#[verifier::reject_recursive_types(T)]
pub struct ExStore<T>(wasmi::Store<T>);

#[verifier::external_type_specification]
#[verifier::external_body]
#[verifier::reject_recursive_types(T)]
pub struct ExLinker<T>(wasmi::Linker<T>);

#[verifier::external_type_specification]
#[verifier::external_body]
pub struct ExInstance(wasmi::Instance);

#[verifier::external_type_specification]
#[verifier::external_body]
pub struct ExWasmiError(wasmi::Error);

#[verifier::external_type_specification]
#[verifier::external_body]
pub struct ExStoreLimits(wasmi::StoreLimits);

/// Hard cap on a module's linear memory: 24 pages of 64 KiB, regardless of
/// what the module requests.  The cap binds every allocation and growth: a
/// module whose minimum exceeds it fails instantiation, and one that merely
/// declares a larger maximum instantiates but can never grow past the cap,
/// so host-side memory exposure stays bounded either way.
pub const MEMORY_CAP_BYTES: usize = 24 * 65536;

/// Why a run ended without a clean return.
#[derive(Debug)]
pub enum TrapReason {
    /// The module asked for an import outside the closed capability table;
    /// a known name imported at the wrong type is outside the table too.
    UnknownImport { module: String, field: String },
    /// The module declared more linear memory than the fixed cap.
    MemoryLimitExceeded,
    /// The module bytes did not form a well-formed module.
    InvalidModule,
    /// A runtime fault: out-of-bounds access, unreachable, stack overflow,
    /// a missing or ill-typed entry point, and the like.
    RuntimeFault,
}

/// The outcome of one sandboxed invocation.
#[derive(Debug)]
pub enum Outcome {
    /// The entry point returned normally.
    Completed { exit_code: i32 },
    /// Loading, instantiation or execution faulted.
    Trapped { reason: TrapReason },
    /// The instruction meter ran out before the module finished.
    BudgetExceeded,
}

/// A wasmi failure reduced to the cases the sandbox distinguishes.
#[derive(Debug)]
pub enum WasmFault {
    OutOfFuel,
    MissingImport { module: String, field: String },
    MemoryLimit,
    Other,
}

/// Per-invocation host state: the resource limiter enforcing the memory
/// cap, and the sink that captures the capability function's output.
pub struct HostState {
    pub limits: wasmi::StoreLimits,
    pub out: Vec<u8>,
}

/// The decimal digits of `n`, most significant first.
pub open spec fn dec_digits(n: nat) -> Seq<u8>
    decreases n,
{
    if n < 10 {
        seq![(48 + n) as u8]
    } else {
        dec_digits(n / 10) + seq![(48 + n % 10) as u8]
    }
}

/// The line the capability function emits for a call `printf(a, b)`:
/// `printf(`, the two operands in decimal, `)` and a newline.
pub open spec fn printf_line(a: u32, b: u32) -> Seq<u8> {
    seq![0x70u8, 0x72u8, 0x69u8, 0x6eu8, 0x74u8, 0x66u8, 0x28u8] + dec_digits(a as nat) + seq![
        0x2cu8,
        0x20u8,
    ] + dec_digits(b as nat) + seq![0x29u8, 0x0au8]
}

/// Appends the decimal digits of `n` to `out`.
fn push_dec(out: &mut Vec<u8>, n: u32)
    ensures
        final(out)@ == old(out)@ + dec_digits(n as nat),
    decreases n,
{
    if n < 10 {
        out.push(48 + n as u8);
    } else {
        push_dec(out, n / 10);
        out.push(48 + (n % 10) as u8);
    }
}

/// Formats one call of the capability function into the bytes appended to
/// the invocation's output sink.
pub fn format_printf(fmt_ptr: u32, args_ptr: u32) -> (r: Vec<u8>)
    ensures
        r@ == printf_line(fmt_ptr, args_ptr),
{
    let mut out: Vec<u8> = Vec::new();
    out.push(0x70);
    out.push(0x72);
    out.push(0x69);
    out.push(0x6e);
    out.push(0x74);
    out.push(0x66);
    out.push(0x28);
    push_dec(&mut out, fmt_ptr);
    out.push(0x2c);
    out.push(0x20);
    push_dec(&mut out, args_ptr);
    out.push(0x29);
    out.push(0x0a);
    proof {
        assert(out@ =~= printf_line(fmt_ptr, args_ptr));
    }
    out
}

/// The leading magic of the binary module encoding.
pub open spec fn wasm_magic() -> Seq<u8> {
    seq![0x00u8, 0x61u8, 0x73u8, 0x6du8]
}

/// The binary form of a module: the translation of a well-formed text
/// module, and the input itself for anything else (a binary module passes
/// through unchanged).
pub uninterp spec fn wat_translation_of(src: Seq<u8>) -> Seq<u8>;

/// Relies on wat::parse_bytes: the translation is a pure function of the
/// input, input starting with the binary magic passes through unchanged,
/// and a malformed text module is an error, never a panic.
#[verifier::external_body]
fn wat_to_wasm(bytes: &[u8]) -> (r: Option<Vec<u8>>)
    ensures
        r matches Some(v) ==> v@ == wat_translation_of(bytes@) && (bytes@.len() >= 4
            && bytes@.subrange(0, 4) == wasm_magic() ==> v@ == bytes@),
        r is Some || wat_translation_of(bytes@) == bytes@,
{
    match wat::parse_bytes(bytes) {
        Ok(cow) => Some(cow.into_owned()),
        Err(_) => None,
    }
}

/// Whether byte sequence forms a well-formed binary module under the
/// engine's fixed configuration.
pub uninterp spec fn wasm_compiles(bytes: Seq<u8>) -> bool;

/// Relies on wasmi::Module::new: validation of module bytes under the fixed
/// engine configuration is deterministic in the bytes and never panics.
#[verifier::external_body]
fn module_compiles(bytes: &[u8]) -> (r: bool)
    ensures
        r == wasm_compiles(bytes@),
{
    wasmi::Module::new(&new_engine(), bytes).is_ok()
}

/// Relies on wasmi::Engine::new and Config::consume_fuel: the engine meters
/// a fixed cost per executed operation against the store's fuel.
#[verifier::external_body]
fn new_engine() -> wasmi::Engine {
    let mut config = wasmi::Config::default();
    config.consume_fuel(true);
    wasmi::Engine::new(&config)
}

/// Relies on wasmi::Module::new: validates and compiles binary module
/// bytes, an error for malformed bytes.
#[verifier::external_body]
fn compile_module(engine: &wasmi::Engine, bytes: &[u8]) -> Result<wasmi::Module, wasmi::Error> {
    wasmi::Module::new(engine, bytes)
}

/// Relies on wasmi::Store::new, Store::limiter and Store::set_fuel: a fresh
/// store whose memory is capped at `cap_bytes` and whose meter is seeded
/// with `budget`.
#[verifier::external_body]
fn new_store(engine: &wasmi::Engine, budget: u64, cap_bytes: usize) -> wasmi::Store<HostState> {
    let limits = wasmi::StoreLimitsBuilder::new().memory_size(cap_bytes).build();
    let state = HostState { limits, out: Vec::new() };
    let mut store = wasmi::Store::new(engine, state);
    store.limiter(|state| &mut state.limits);
    let _ = store.set_fuel(budget);
    store
}

/// Relies on wasmi::Linker::new and Linker::func_wrap: a linker whose only
/// definition is the capability import `env::printf`, which appends the
/// formatted call to the invocation's output sink and returns 0.
#[verifier::external_body]
fn new_linker(engine: &wasmi::Engine) -> wasmi::Linker<HostState> {
    let mut linker = wasmi::Linker::new(engine);
    let _ = linker.func_wrap(
        "env",
        "printf",
        |mut caller: wasmi::Caller<'_, HostState>, fmt_ptr: i32, args_ptr: i32| -> i32
            {
                let line = format_printf(fmt_ptr as u32, args_ptr as u32);
                caller.data_mut().out.extend_from_slice(&line);
                0
            },
    );
    linker
}

/// Relies on wasmi::Linker::instantiate_and_start: resolves the module's
/// imports against the capability table and instantiates it; an unresolved
/// import, a denied memory allocation or a trapped start function is an
/// error.
#[verifier::external_body]
fn instantiate(
    linker: &wasmi::Linker<HostState>,
    store: &mut wasmi::Store<HostState>,
    module: &wasmi::Module,
) -> Result<wasmi::Instance, wasmi::Error> {
    linker.instantiate_and_start(&mut *store, module)
}

/// Relies on wasmi::Instance::get_typed_func and TypedFunc::call: invokes
/// the exported entry point `main` with the argument count and a pointer
/// placeholder, metered against the store's fuel.
#[verifier::external_body]
fn call_main(
    store: &mut wasmi::Store<HostState>,
    instance: &wasmi::Instance,
    argc: u32,
) -> Result<i32, wasmi::Error> {
    let main = instance.get_typed_func::<(i32, i32), i32>(&mut *store, "main")?;
    main.call(&mut *store, (argc as i32, 0))
}

/// Relies on wasmi::Error::kind: reduces a wasmi failure to the cases the
/// sandbox distinguishes, moving the import name out of a missing-import
/// linker error.
#[verifier::external_body]
fn classify_error(e: &wasmi::Error) -> WasmFault {
    match e.kind() {
        ErrorKind::TrapCode(wasmi::TrapCode::OutOfFuel) | ErrorKind::ResumableOutOfFuel(_) => WasmFault::OutOfFuel,
        ErrorKind::Fuel(FuelError::OutOfFuel { .. }) | ErrorKind::Memory(MemoryError::OutOfFuel { .. }) => WasmFault::OutOfFuel,
        ErrorKind::Table(TableError::OutOfFuel { .. }) => WasmFault::OutOfFuel,
        ErrorKind::Instantiation(InstantiationError::FailedToInstantiateMemory(MemoryError::OutOfFuel { .. })) => WasmFault::OutOfFuel,
        ErrorKind::Instantiation(InstantiationError::FailedToInstantiateMemory(_)) => WasmFault::MemoryLimit,
        ErrorKind::Linker(
            LinkerError::MissingDefinition { name, .. } | LinkerError::InvalidTypeDefinition { name, .. },
        )
        | ErrorKind::Instantiation(InstantiationError::FuncTypeMismatch { name, .. }) => {
            WasmFault::MissingImport { module: name.module().to_string(), field: name.name().to_string() }
        },
        ErrorKind::Memory(_) => WasmFault::MemoryLimit,
        _ => WasmFault::Other,
    }
}

/// Relies on wasmi::Store::into_data: hands the invocation's captured
/// output sink out of the store.
#[verifier::external_body]
fn take_output(store: wasmi::Store<HostState>) -> Vec<u8> {
    store.into_data().out
}

/// The outcome a classified fault maps to.
pub open spec fn spec_outcome_of_fault(f: WasmFault) -> Outcome {
    match f {
        WasmFault::OutOfFuel => Outcome::BudgetExceeded,
        WasmFault::MissingImport { module, field } => Outcome::Trapped {
            reason: TrapReason::UnknownImport { module, field },
        },
        WasmFault::MemoryLimit => Outcome::Trapped { reason: TrapReason::MemoryLimitExceeded },
        WasmFault::Other => Outcome::Trapped { reason: TrapReason::RuntimeFault },
    }
}

/// Maps a classified fault to the invocation's outcome: running out of fuel
/// is `BudgetExceeded`; an unresolved import and an oversized memory
/// request keep their identity; everything else is a runtime fault.
pub fn outcome_of_fault(f: WasmFault) -> (r: Outcome)
    ensures
        r == spec_outcome_of_fault(f),
{
    match f {
        WasmFault::OutOfFuel => Outcome::BudgetExceeded,
        WasmFault::MissingImport { module, field } => Outcome::Trapped {
            reason: TrapReason::UnknownImport { module, field },
        },
        WasmFault::MemoryLimit => Outcome::Trapped { reason: TrapReason::MemoryLimitExceeded },
        WasmFault::Other => Outcome::Trapped { reason: TrapReason::RuntimeFault },
    }
}

/// What one run of the metered engine returns for a compiling module: the
/// entry point's value or the classified fault, with the captured output.
/// Wasmi under fuel metering is deterministic, so this is a function of the
/// budget, the module bytes and the argument count alone.
pub uninterp spec fn engine_run_of(budget: u64, bytes: Seq<u8>, argc: u32) -> (
    Result<i32, WasmFault>,
    Seq<u8>,
);

/// Relies on wasmi (a fuel-metering Engine, a fresh Store capped at
/// [`MEMORY_CAP_BYTES`], a Linker whose one definition is `env::printf`,
/// Module, instantiation and a typed call of `main`): the whole pipeline is
/// freshly built per call and deterministic in `(budget, bytes, argc)`.
#[verifier::external_body]
fn engine_run(budget: u64, bytes: &[u8], argc: u32) -> (r: (Result<i32, WasmFault>, Vec<u8>))
    ensures
        r.0 == engine_run_of(budget, bytes@, argc).0,
        r.1@ == engine_run_of(budget, bytes@, argc).1,
{
    let engine = new_engine();
    let mut store = new_store(&engine, budget, MEMORY_CAP_BYTES);
    let linker = new_linker(&engine);
    let res = match compile_module(&engine, bytes) {
        Ok(m) => match instantiate(&linker, &mut store, &m) {
            Ok(i) => call_main(&mut store, &i, argc),
            Err(e) => Err(e),
        },
        Err(e) => Err(e),
    };
    (res.map_err(|e| classify_error(&e)), take_output(store))
}

/// The outcome and captured output of running a module: translation to the
/// binary form, rejection of bytes that do not form a module, then one
/// metered engine run whose value or classified fault becomes the outcome.
pub open spec fn spec_run_wasm(max_cycles: u64, wasm_binary: Seq<u8>, argc: u32) -> (
    Outcome,
    Seq<u8>,
) {
    let eff = wat_translation_of(wasm_binary);
    if !wasm_compiles(eff) {
        (Outcome::Trapped { reason: TrapReason::InvalidModule }, Seq::empty())
    } else {
        let run = engine_run_of(max_cycles, eff, argc);
        (
            match run.0 {
                Ok(code) => Outcome::Completed { exit_code: code },
                Err(f) => spec_outcome_of_fault(f),
            },
            run.1,
        )
    }
}

/// Runs a module under a budget of `max_cycles` metered operations.
///
/// The module may arrive in the text or the binary encoding; a textual
/// module is translated first.  Instantiation resolves imports against the
/// closed capability table and caps linear memory at [`MEMORY_CAP_BYTES`].
/// The entry point `main` receives the argument count and a pointer
/// placeholder.  Returns the outcome together with whatever the capability
/// function wrote to the invocation's output sink, exactly as
/// [`spec_run_wasm`] says: a fresh, isolated run whose result depends on
/// the budget, the module bytes and the argument count alone.
pub fn run_wasm(max_cycles: u64, wasm_binary: &[u8], arguments: &Vec<Vec<u8>>) -> (r: (
    Outcome,
    Vec<u8>,
))
    requires
        arguments@.len() <= u32::MAX,
    ensures
        r.0 == spec_run_wasm(max_cycles, wasm_binary@, arguments@.len() as u32).0,
        r.1@ == spec_run_wasm(max_cycles, wasm_binary@, arguments@.len() as u32).1,
{
    let bytes = match wat_to_wasm(wasm_binary) {
        Some(v) => v,
        None => slice_to_vec(wasm_binary),
    };
    if !module_compiles(bytes.as_slice()) {
        return (Outcome::Trapped { reason: TrapReason::InvalidModule }, Vec::new());
    }
    let run = engine_run(max_cycles, bytes.as_slice(), arguments.len() as u32);
    let out = run.1;
    match run.0 {
        Ok(code) => (Outcome::Completed { exit_code: code }, out),
        Err(f) => (outcome_of_fault(f), out),
    }
}

} // verus!
