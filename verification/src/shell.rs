//! The WebAssembly shell the kernel runs: the engine it runs on, and the
//! compiled module made from its bytes.
use vstd::prelude::*;
use wasmi::{Engine, Module};

verus! {

#[verifier::external_type_specification]
#[verifier::external_body]
pub struct ExEngine(Engine);

#[verifier::external_type_specification]
#[verifier::external_body]
pub struct ExModule(Module);

/// A wasmi engine with the default configuration; modules compiled with it
/// are instantiated in stores and linkers made from the same engine.
pub struct ShellEngine {
    engine: Engine,
}

/// Creates a wasmi engine.
///
/// Calls `<wasmi::Engine as Default>::default`: an engine with the default
/// configuration. Nothing is claimed of the value, which is opaque here.
#[verifier::external_body]
fn default_engine() -> Engine {
    Engine::default()
}

/// Whether wasmi, configured by default, accepts `bytes` as a module: they
/// parse, validate and translate.
pub uninterp spec fn wasm_module_valid(bytes: Seq<u8>) -> bool;

/// A compiled shell module, together with the engine it was compiled for:
/// it may only be instantiated in stores and linkers made from that engine.
pub struct ShellModule {
    module: Module,
    engine: Ghost<Engine>,
}

impl ShellModule {
    /// The compiled module.
    pub closed spec fn spec_module(&self) -> Module {
        self.module
    }

    /// The engine the module was compiled for.
    pub closed spec fn spec_engine(&self) -> Engine {
        self.engine@
    }

    /// The compiled module, for instantiating it.
    pub fn module(&self) -> (m: &Module)
        ensures
            *m == self.spec_module(),
    {
        &self.module
    }
}

/// Compiles `bytes` into a module for `engine`.
///
/// Calls `wasmi::Module::new`, which parses, validates and translates the
/// bytes for the given engine, and fails when they are malformed, invalid
/// or exceed the engine's configured limits. A `ShellEngine` only ever holds
/// a default engine, so whether it fails depends on the bytes alone; `None`
/// stands for the error. The module it returns belongs to `engine`.
#[verifier::external_body]
fn parse_module(engine: &ShellEngine, bytes: &[u8]) -> (r: Option<ShellModule>)
    ensures
        r is Some <==> wasm_module_valid(bytes@),
        r matches Some(m) ==> m.spec_engine() == engine.spec_engine(),
{
    match Module::new(&engine.engine, bytes) {
        Ok(module) => Some(ShellModule { module, engine: Ghost(engine.spec_engine()) }),
        Err(_) => None,
    }
}

impl ShellEngine {
    /// The engine to run the shell on.
    pub closed spec fn spec_engine(&self) -> Engine {
        self.engine
    }

    /// A new engine with wasmi's default configuration.
    pub fn new() -> (e: Self) {
        ShellEngine { engine: default_engine() }
    }

    /// The engine, for making the store and linker the shell runs in.
    pub fn engine(&self) -> (e: &Engine)
        ensures
            *e == self.spec_engine(),
    {
        &self.engine
    }
}

/// Compiles the shell's bytes for `engine`; `None` when wasmi refuses them
/// (the kernel then panics).
pub fn load_shell(engine: &ShellEngine, shell: &[u8]) -> (r: Option<ShellModule>)
    ensures
        r is Some <==> wasm_module_valid(shell@),
        r matches Some(m) ==> m.spec_engine() == engine.spec_engine(),
{
    parse_module(engine, shell)
}

} // verus!
