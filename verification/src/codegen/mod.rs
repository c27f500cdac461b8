pub mod agreement;
pub mod expr;
pub mod jumps;
pub mod meaning;
pub mod stmt;
pub mod symbols;

use vstd::prelude::*;

use crate::ast::{Block, Param, Program, Type};
use crate::bytecode::instr::{code_model, functions_model, FunctionModel, InstrModel, OpCode};
use crate::bytecode::{Bytecode, Function, Instr};
use crate::error::CompileError;
use crate::text::{push_str, str_eq};

use stmt::{spec_declare_params, spec_emit_body};
use symbols::Symbols;

verus! {

/// Generates bytecode from a checked program: the locals of the function
/// being compiled, its code so far, and the functions compiled or called so
/// far, each found by its name.
#[derive(Debug)]
pub struct Codegen {
    pub module_name: String,
    pub program_name: String,
    pub symbols: Symbols,
    pub code: Vec<Instr>,
    pub functions: Vec<Function>,
}

/// The mathematical content of a code generator's state.
pub struct GenState {
    pub syms: Seq<(Seq<char>, Type)>,
    pub code: Seq<InstrModel>,
    pub funcs: Seq<FunctionModel>,
}

/// The index of the latest function called `name`, if any.
pub open spec fn func_slot(fs: Seq<FunctionModel>, name: Seq<char>) -> Option<int>
    decreases fs.len(),
{
    if fs.len() == 0 {
        None
    } else if fs.last().0 == name {
        Some(fs.len() - 1)
    } else {
        func_slot(fs.drop_last(), name)
    }
}

/// The index of the function called `name`, entering it (with no code yet)
/// when there is none.
pub open spec fn spec_register(st: GenState, name: Seq<char>, param_count: u32) -> (GenState, u32) {
    match func_slot(st.funcs, name) {
        Some(i) => (st, i as u32),
        None => (
            GenState {
                funcs: st.funcs.push((name, param_count, 0u32, Seq::<InstrModel>::empty())),
                ..st
            },
            st.funcs.len() as u32,
        ),
    }
}

/// The state with one more instruction at the end of the code.
pub open spec fn with_instr(st: GenState, m: InstrModel) -> GenState {
    GenState { code: st.code.push(m), ..st }
}

/// The model of an instruction whose operand is a slot, an address or a
/// function index.
pub open spec fn operand_model(op: OpCode, x: u32) -> InstrModel {
    (op, 0i64, false, Seq::<char>::empty(), x)
}

/// What a step of code generation gives: the generator after it, or the
/// message of the error that ended it.
pub type Outcome = Result<GenState, Seq<char>>;

/// How a generator may change in a step that succeeds: its locals stay
/// distinct, its names stay, and its code and function list do not shrink.
pub open spec fn grows(old: Codegen, new: Codegen) -> bool {
    &&& new.wf()
    &&& new.module_name == old.module_name
    &&& new.program_name == old.program_name
    &&& new.code@.len() >= old.code@.len()
    &&& new.functions@.len() >= old.functions@.len()
}

/// A step of code generation did what its specification `s` says: on
/// success the generator holds the specified state, on failure the error
/// carries the specified message and no place in the source.
pub open spec fn emitted(old: Codegen, new: Codegen, r: Result<(), CompileError>, s: Outcome) -> bool {
    match (r, s) {
        (Ok(_), Ok(st)) => new.state() == st && grows(old, new),
        (Err(e), Err(m)) => e.message@ == m && e.span.is_none(),
        _ => false,
    }
}

/// A built-in was compiled as `s` says: `None` when the name is no built-in
/// of this group (then nothing changes and `Ok(false)` comes back),
/// otherwise as `emitted` with `Ok(true)` on success.
pub open spec fn handled(
    old: Codegen,
    new: Codegen,
    r: Result<bool, CompileError>,
    s: Option<Outcome>,
) -> bool {
    match (r, s) {
        (Ok(false), None) => new == old,
        (Ok(true), Some(Ok(st))) => new.state() == st && grows(old, new),
        (Err(e), Some(Err(m))) => e.message@ == m && e.span.is_none(),
        _ => false,
    }
}

/// Registering a name a second time gives the index the first registration
/// gave and changes nothing, whatever parameter count it names.
pub proof fn lemma_register_twice(st: GenState, name: Seq<char>, p: u32, q: u32)
    ensures
        spec_register(spec_register(st, name, p).0, name, q) == spec_register(st, name, p),
{
    let fs = st.funcs;
    if func_slot(fs, name) is None {
        let pushed = fs.push((name, p, 0u32, Seq::<InstrModel>::empty()));
        assert(pushed.last().0 == name);
        assert(func_slot(pushed, name) == Some(fs.len() as int));
    }
}

/// A found function index lies in the function list and names that
/// function.
pub proof fn lemma_func_slot_bounds(fs: Seq<FunctionModel>, name: Seq<char>)
    ensures
        func_slot(fs, name) matches Some(i) ==> 0 <= i < fs.len() && fs[i].0 == name,
    decreases fs.len(),
{
    if fs.len() > 0 {
        lemma_func_slot_bounds(fs.drop_last(), name);
    }
}

/// The code of a whole program: its main block is compiled as the body of
/// the function `main`, entered first; the result is the generator after it
/// and the index of `main`.
pub open spec fn spec_emit_program(st: GenState, b: Block) -> Result<(GenState, u32), Seq<char>> {
    let (s1, entry) = spec_register(st, "main"@, 0u32);
    match spec_emit_body(s1, entry, Seq::empty(), b) {
        Err(m) => Err(m),
        Ok(s2) => Ok((s2, entry)),
    }
}

/// Once declaring `i` parameters fails, declaring more fails the same way.
proof fn lemma_declare_params_err(params: Seq<Param>, i: nat, n: nat)
    requires
        0 < i <= n <= params.len(),
        spec_declare_params(params, i) is Err,
    ensures
        spec_declare_params(params, n) == spec_declare_params(params, i),
    decreases n - i,
{
    if i < n {
        lemma_declare_params_err(params, i, (n - 1) as nat);
    }
}

/// A copy of a list of instructions.
fn copy_code(code: &Vec<Instr>) -> (r: Vec<Instr>)
    ensures
        code_model(r@) == code_model(code@),
{
    let mut r: Vec<Instr> = Vec::new();
    let mut i: usize = 0;
    while i < code.len()
        invariant
            0 <= i <= code@.len(),
            code_model(r@) == code_model(code@.take(i as int)),
        decreases code@.len() - i,
    {
        let ghost prev = r@;
        r.push(code[i].duplicate());
        proof {
            assert(code_model(r@) =~= code_model(prev).push(code@[i as int].model()));
            assert(code_model(code@.take(i + 1)) =~= code_model(code@.take(i as int)).push(
                code@[i as int].model(),
            ));
        }
        i = i + 1;
    }
    assert(code@.take(code@.len() as int) =~= code@);
    r
}

/// A copy of a list of functions.
fn copy_functions(fs: &Vec<Function>) -> (r: Vec<Function>)
    ensures
        functions_model(r@) == functions_model(fs@),
{
    let mut r: Vec<Function> = Vec::new();
    let mut i: usize = 0;
    while i < fs.len()
        invariant
            0 <= i <= fs@.len(),
            functions_model(r@) == functions_model(fs@.take(i as int)),
        decreases fs@.len() - i,
    {
        let f = &fs[i];
        let copy = Function {
            name: f.name.clone(),
            param_count: f.param_count,
            locals: f.locals,
            code: copy_code(&f.code),
        };
        let ghost prev = r@;
        r.push(copy);
        proof {
            assert(functions_model(r@) =~= functions_model(prev).push(f.model()));
            assert(functions_model(fs@.take(i + 1)) =~= functions_model(fs@.take(i as int)).push(
                f.model(),
            ));
        }
        i = i + 1;
    }
    assert(fs@.take(fs@.len() as int) =~= fs@);
    r
}

impl Codegen {
    /// The mathematical content of this generator's state.
    pub open spec fn state(&self) -> GenState {
        GenState {
            syms: self.symbols.model(),
            code: code_model(self.code@),
            funcs: functions_model(self.functions@),
        }
    }

    /// Whether no local name occurs twice.
    pub open spec fn wf(&self) -> bool {
        self.symbols.wf()
    }

    /// A generator for the program `program_name` in the module
    /// `module_name`, with nothing compiled yet.
    pub fn new(program_name: &str, module_name: &str) -> (cg: Codegen)
        ensures
            cg.module_name@ == module_name@,
            cg.program_name@ == program_name@,
            cg.state().syms.len() == 0,
            cg.state().code.len() == 0,
            cg.state().funcs.len() == 0,
            cg.wf(),
    {
        Codegen {
            module_name: module_name.to_string(),
            program_name: program_name.to_string(),
            symbols: Symbols::new(),
            code: Vec::new(),
            functions: Vec::new(),
        }
    }

    /// Appends one instruction to the code.
    pub fn emit(&mut self, instr: Instr)
        ensures
            final(self).state() == with_instr(old(self).state(), instr.model()),
            final(self).code@ == old(self).code@.push(instr),
            final(self).symbols == old(self).symbols,
            final(self).functions == old(self).functions,
            final(self).module_name == old(self).module_name,
            final(self).program_name == old(self).program_name,
    {
        let ghost prev = self.state().code;
        let ghost m = instr.model();
        self.code.push(instr);
        assert(self.state().code =~= prev.push(m));
    }

    /// The position of the latest function called `name`, if any.
    fn find_function(&self, name: &str) -> (r: Option<usize>)
        ensures
            match r {
                Some(i) => func_slot(self.state().funcs, name@) == Some(i as int),
                None => func_slot(self.state().funcs, name@) is None,
            },
    {
        let ghost m = self.state().funcs;
        let mut k: usize = self.functions.len();
        assert(m.take(k as int) =~= m);
        while k > 0
            invariant
                k <= self.functions@.len(),
                m == self.state().funcs,
                func_slot(m, name@) == func_slot(m.take(k as int), name@),
            decreases k,
        {
            assert(m.take(k as int).drop_last() =~= m.take(k - 1));
            if str_eq(self.functions[k - 1].name.as_str(), name) {
                return Some(k - 1);
            }
            k = k - 1;
        }
        None
    }

    /// The index of the function called `name`; a name not seen before is
    /// entered, with `param_count` parameters and no code yet.
    pub fn register_function(&mut self, name: &str, param_count: u32) -> (r: Result<
        u32,
        CompileError,
    >)
        ensures
            r matches Ok(idx) && (final(self).state(), idx) == spec_register(
                old(self).state(),
                name@,
                param_count,
            ),
            final(self).symbols == old(self).symbols,
            final(self).code == old(self).code,
            final(self).functions@.len() >= old(self).functions@.len(),
            r matches Ok(idx) ==> (idx as int) < final(self).functions@.len(),
            final(self).module_name == old(self).module_name,
            final(self).program_name == old(self).program_name,
    {
        if let Some(idx) = self.find_function(name) {
            proof {
                lemma_func_slot_bounds(self.state().funcs, name@);
            }
            return Ok(idx as u32);
        }
        let idx = self.functions.len() as u32;
        let ghost prev = self.state().funcs;
        let f = Function { name: name.to_string(), param_count, locals: 0, code: Vec::new() };
        proof {
            assert(code_model(f.code@) =~= Seq::<InstrModel>::empty());
        }
        self.functions.push(f);
        assert(self.state().funcs =~= prev.push(
            (name@, param_count, 0u32, Seq::<InstrModel>::empty()),
        ));
        Ok(idx)
    }

    /// Compiles a whole program into a bytecode unit named after the program
    /// and the module; its entry is `main`.
    pub fn emit_program(&mut self, program: &Program) -> (r: Result<Bytecode, CompileError>)
        requires
            old(self).wf(),
        ensures
            match (r, spec_emit_program(old(self).state(), program.block)) {
                (Ok(bc), Ok((st, entry))) => {
                    &&& bc.model() == (old(self).program_name@ + "::"@ + old(self).module_name@, st.funcs, entry)
                    &&& final(self).state() == st
                },
                (Err(e), Err(m)) => e.message@ == m && e.span.is_none(),
                _ => false,
            },
    {
        let entry = match self.register_function("main", 0) {
            Ok(i) => i,
            Err(e) => return Err(e),
        };
        let no_params: Vec<Param> = Vec::new();
        assert(no_params@ =~= Seq::<Param>::empty());
        match self.emit_function_body(entry, &no_params, &program.block) {
            Err(e) => return Err(e),
            Ok(_) => {},
        }
        let mut name = self.program_name.clone();
        push_str(&mut name, "::");
        push_str(&mut name, self.module_name.as_str());
        let functions = copy_functions(&self.functions);
        Ok(Bytecode { name, functions, entry })
    }

    /// Compiles a procedure or function body into entry `idx` of the function
    /// list; the locals and code of the function being compiled are kept
    /// aside meanwhile and restored after.
    pub fn emit_function_body(&mut self, idx: u32, params: &Vec<Param>, block: &Block) -> (r: Result<
        (),
        CompileError,
    >)
        requires
            old(self).wf(),
            (idx as int) < old(self).functions@.len(),
        ensures
            emitted(*old(self), *final(self), r, spec_emit_body(old(self).state(), idx, params@, *block)),
        decreases block, 2nat,
    {
        let ghost st0 = self.state();
        let mut saved_symbols = Symbols::new();
        std::mem::swap(&mut saved_symbols, &mut self.symbols);
        let mut saved_code: Vec<Instr> = Vec::new();
        std::mem::swap(&mut saved_code, &mut self.code);
        assert(code_model(self.code@) =~= Seq::<InstrModel>::empty());
        let mut i: usize = 0;
        while i < params.len()
            invariant
                0 <= i <= params@.len(),
                self.symbols.wf(),
                spec_declare_params(params@, i as nat) == Ok::<Seq<(Seq<char>, Type)>, Seq<char>>(
                    self.symbols.model(),
                ),
                self.code@.len() == 0,
                self.functions == old(self).functions,
                self.module_name == old(self).module_name,
                self.program_name == old(self).program_name,
                saved_symbols == old(self).symbols,
                saved_code == old(self).code,
            decreases params@.len() - i,
        {
            match self.symbols.declare(params[i].name.as_str(), &params[i].ty) {
                Err(e) => {
                    proof {
                        lemma_declare_params_err(params@, (i + 1) as nat, params@.len());
                    }
                    return Err(e);
                },
                Ok(_) => {},
            }
            i = i + 1;
        }
        assert(code_model(self.code@) =~= Seq::<InstrModel>::empty());
        match stmt::emit_block(self, block) {
            Err(e) => return Err(e),
            Ok(_) => {},
        }
        self.emit(Instr::Ret);
        let count = self.symbols.count();
        let n = params.len();
        let locals = if count >= n {
            count
        } else {
            n
        } as u32;
        let name = self.functions[idx as usize].name.clone();
        let mut code: Vec<Instr> = Vec::new();
        std::mem::swap(&mut code, &mut self.code);
        let func = Function { name, param_count: n as u32, locals, code };
        let ghost fs = self.functions@;
        self.functions.set(idx as usize, func);
        std::mem::swap(&mut saved_symbols, &mut self.symbols);
        std::mem::swap(&mut saved_code, &mut self.code);
        assert(self.state().funcs =~= functions_model(fs).update(idx as int, func.model()));
        Ok(())
    }
}

} // verus!
