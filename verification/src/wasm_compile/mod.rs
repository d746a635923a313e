//! Compiling the functions of a module and collecting, for each, its machine
//! code and the places in that code which a loader has to patch.

use vstd::prelude::*;
use cranelift_codegen::binemit::Reloc;
use cranelift_codegen::ir::JumpTable;
use cranelift_entity::{EntityRef, PrimaryMap};
use crate::module::{DefinedFuncIndex, FuncIndex};

pub mod addressing;
pub mod environ;
pub mod function;

use environ::{func_name, ExternalName, ExternalNameView, ModuleTranslation};

verus! {

#[verifier::external_type_specification]
#[verifier::external_body]
pub struct ExReloc(Reloc);

#[verifier::external_type_specification]
#[verifier::external_body]
pub struct ExJumpTable(JumpTable);

/// What a relocation refers to.
#[derive(Copy, Clone, PartialEq, Eq, Debug, Structural)]
pub enum RelocationTarget {
    /// A function of the module.
    UserFunc(FuncIndex),
    /// The runtime routine that grows a memory.
    GrowMemory,
    /// The runtime routine that tells the size of a memory.
    CurrentMemory,
}

/// A place in the code of one function that has to be patched with an
/// address once the address is known.
#[derive(Copy, Clone, Debug)]
pub struct Relocation {
    /// How the address is written into the code.
    pub reloc: Reloc,
    /// Whose address it is.
    pub reloc_target: RelocationTarget,
    /// Where in the code the address goes.
    pub offset: u32,
    /// What is added to the address.
    pub addend: i64,
}

/// Why a relocation was not recorded.
#[derive(Copy, Clone, PartialEq, Eq, Debug, Structural)]
pub enum RelocError {
    /// The relocation refers to a name that is neither a function of the
    /// module nor one of the two runtime routines.
    UnknownExternalName,
    /// The relocation refers to a block of the function itself.
    BlockRelocationUnsupported,
    /// The relocation refers to a jump table.
    JumpTableRelocationUnsupported,
}

/// The name of the runtime routine that grows a memory: `grow_memory`.
pub const GROW_MEMORY: [u8; 11] = [103, 114, 111, 119, 95, 109, 101, 109, 111, 114, 121];

/// The name of the runtime routine that tells the size of a memory:
/// `current_memory`.
pub const CURRENT_MEMORY: [u8; 14] =
    [99, 117, 114, 114, 101, 110, 116, 95, 109, 101, 109, 111, 114, 121];

/// What a relocation against `name` refers to: a user name stands for the
/// function of its index, the two runtime routines go by their names, and no
/// other name is known.
pub open spec fn relocation_target(name: ExternalNameView) -> Option<RelocationTarget> {
    match name {
        ExternalNameView::User { namespace, index } => Some(
            RelocationTarget::UserFunc(FuncIndex(index)),
        ),
        ExternalNameView::TestCase(bytes) => if bytes == GROW_MEMORY@ {
            Some(RelocationTarget::GrowMemory)
        } else if bytes == CURRENT_MEMORY@ {
            Some(RelocationTarget::CurrentMemory)
        } else {
            None
        },
        ExternalNameView::LibCall => None,
    }
}

/// A relocation against the name of a function refers to that function.
pub proof fn lemma_func_name_names_its_function(func_index: FuncIndex)
    ensures
        relocation_target(func_name(func_index)) == Some(RelocationTarget::UserFunc(func_index)),
{
}

/// Whether two byte strings are the same.
fn same_bytes(left: &[u8], right: &[u8]) -> (same: bool)
    ensures
        same == (left@ == right@),
{
    if left.len() != right.len() {
        return false;
    }
    let mut i: usize = 0;
    while i < left.len()
        invariant
            left@.len() == right@.len(),
            i <= left@.len(),
            left@.subrange(0, i as int) == right@.subrange(0, i as int),
        decreases left@.len() - i,
    {
        if left[i] != right[i] {
            return false;
        }
        i = i + 1;
    }
    assert(left@ == left@.subrange(0, i as int));
    assert(right@ == right@.subrange(0, i as int));
    true
}

impl RelocationTarget {
    /// What a relocation against `name` refers to, if the name is known.
    pub fn of_name(name: &ExternalName) -> (target: Option<RelocationTarget>)
        ensures
            target == relocation_target(name@),
    {
        match name {
            ExternalName::User { namespace, index } => Some(
                RelocationTarget::UserFunc(FuncIndex(*index)),
            ),
            ExternalName::TestCase(bytes) => {
                if same_bytes(bytes.as_slice(), GROW_MEMORY.as_slice()) {
                    Some(RelocationTarget::GrowMemory)
                } else if same_bytes(bytes.as_slice(), CURRENT_MEMORY.as_slice()) {
                    Some(RelocationTarget::CurrentMemory)
                } else {
                    None
                }
            },
            ExternalName::LibCall => None,
        }
    }
}

/// Collects the relocations of one function while its code is emitted.
pub struct RelocSink {
    func_relocs: Vec<Relocation>,
}

impl View for RelocSink {
    type V = Seq<Relocation>;

    closed spec fn view(&self) -> Seq<Relocation> {
        self.func_relocs@
    }
}

impl RelocSink {
    /// A sink that holds no relocation.
    pub fn new() -> (sink: Self)
        ensures
            sink@ == Seq::<Relocation>::empty(),
    {
        Self { func_relocs: Vec::new() }
    }

    /// A relocation against a block of the function itself. Relocations of
    /// this kind are not supported: none is recorded, and the caller is told.
    pub fn reloc_ebb(&mut self, offset: u32, reloc: Reloc, ebb_offset: u32) -> (outcome: Result<
        (),
        RelocError,
    >)
        ensures
            outcome == Err::<(), RelocError>(RelocError::BlockRelocationUnsupported),
            final(self)@ == old(self)@,
    {
        Err(RelocError::BlockRelocationUnsupported)
    }

    /// A relocation against an external name, to be applied at `offset`. It
    /// is recorded behind those recorded before, unless the name is unknown:
    /// then nothing is recorded, and the caller is told.
    pub fn reloc_external(
        &mut self,
        offset: u32,
        reloc: Reloc,
        name: &ExternalName,
        addend: i64,
    ) -> (outcome: Result<(), RelocError>)
        ensures
            match relocation_target(name@) {
                Some(reloc_target) => {
                    &&& outcome is Ok
                    &&& final(self)@ == old(self)@.push(
                        Relocation { reloc, reloc_target, offset, addend },
                    )
                },
                None => {
                    &&& outcome == Err::<(), RelocError>(RelocError::UnknownExternalName)
                    &&& final(self)@ == old(self)@
                },
            },
    {
        match RelocationTarget::of_name(name) {
            Some(reloc_target) => {
                self.func_relocs.push(Relocation { reloc, reloc_target, offset, addend });
                Ok(())
            },
            None => Err(RelocError::UnknownExternalName),
        }
    }

    /// A relocation against a jump table. Relocations of this kind are not
    /// supported: none is recorded, and the caller is told.
    pub fn reloc_jt(&mut self, offset: u32, reloc: Reloc, jt: JumpTable) -> (outcome: Result<
        (),
        RelocError,
    >)
        ensures
            outcome == Err::<(), RelocError>(RelocError::JumpTableRelocationUnsupported),
            final(self)@ == old(self)@,
    {
        Err(RelocError::JumpTableRelocationUnsupported)
    }

    /// The relocations recorded, in the order in which they came.
    pub fn into_relocs(self) -> (relocs: Vec<Relocation>)
        ensures
            relocs@ == self@,
    {
        self.func_relocs
    }
}

/// The machine code of the functions that a module defines, one byte string
/// for each, in index order.
#[verifier::external_body]
pub struct Compilation {
    funcs: PrimaryMap<cranelift_wasm::DefinedFuncIndex, Vec<u8>>,
}

/// The relocations of the functions that a module defines, one list for
/// each, in index order: the list at a position belongs to the code at that
/// position of the [`Compilation`].
#[verifier::external_body]
pub struct Relocations {
    relocs: PrimaryMap<cranelift_wasm::DefinedFuncIndex, Vec<Relocation>>,
}

/// The byte strings that the map of `compilation` holds, in key order.
pub uninterp spec fn compilation_funcs(compilation: Compilation) -> Seq<Seq<u8>>;

/// The lists that the map of `relocations` holds, in key order.
pub uninterp spec fn relocation_lists(relocations: Relocations) -> Seq<Seq<Relocation>>;

impl View for Compilation {
    type V = Seq<Seq<u8>>;

    open spec fn view(&self) -> Seq<Seq<u8>> {
        compilation_funcs(*self)
    }
}

impl View for Relocations {
    type V = Seq<Seq<Relocation>>;

    open spec fn view(&self) -> Seq<Seq<Relocation>> {
        relocation_lists(*self)
    }
}

/// `PrimaryMap::new`: a map without entries.
#[verifier::external_body]
fn empty_compilation() -> (compilation: Compilation)
    ensures
        compilation_funcs(compilation) == Seq::<Seq<u8>>::empty(),
{
    Compilation { funcs: PrimaryMap::new() }
}

/// `PrimaryMap::push`: the value is stored under the next key, behind the
/// entries that are there. Keys are 32 bits wide.
#[verifier::external_body]
fn push_code(compilation: &mut Compilation, code: Vec<u8>)
    requires
        compilation_funcs(*old(compilation)).len() < u32::MAX,
    ensures
        compilation_funcs(*final(compilation)) == compilation_funcs(*old(compilation)).push(code@),
{
    compilation.funcs.push(code);
}

/// `PrimaryMap::len`: the number of entries.
#[verifier::external_body]
fn code_count(compilation: &Compilation) -> (count: usize)
    ensures
        count == compilation_funcs(*compilation).len(),
{
    compilation.funcs.len()
}

/// `PrimaryMap::get`: the value stored under the key, where the map has
/// the key.
#[verifier::external_body]
fn code_at(compilation: &Compilation, index: u32) -> (code: Option<&Vec<u8>>)
    requires
        index < u32::MAX,
    ensures
        match code {
            Some(code) => index < compilation_funcs(*compilation).len() && code@
                == compilation_funcs(*compilation)[index as int],
            None => index >= compilation_funcs(*compilation).len(),
        },
{
    compilation.funcs.get(cranelift_wasm::DefinedFuncIndex::new(index as usize))
}

/// `PrimaryMap::new`: a map without entries.
#[verifier::external_body]
fn empty_relocations() -> (relocations: Relocations)
    ensures
        relocation_lists(relocations) == Seq::<Seq<Relocation>>::empty(),
{
    Relocations { relocs: PrimaryMap::new() }
}

/// `PrimaryMap::push`: the value is stored under the next key, behind the
/// entries that are there. Keys are 32 bits wide.
#[verifier::external_body]
fn push_relocs(relocations: &mut Relocations, relocs: Vec<Relocation>)
    requires
        relocation_lists(*old(relocations)).len() < u32::MAX,
    ensures
        relocation_lists(*final(relocations)) == relocation_lists(*old(relocations)).push(relocs@),
{
    relocations.relocs.push(relocs);
}

/// `PrimaryMap::len`: the number of entries.
#[verifier::external_body]
fn relocs_count(relocations: &Relocations) -> (count: usize)
    ensures
        count == relocation_lists(*relocations).len(),
{
    relocations.relocs.len()
}

/// `PrimaryMap::get`: the value stored under the key, where the map has
/// the key.
#[verifier::external_body]
fn relocs_at(relocations: &Relocations, index: u32) -> (relocs: Option<&Vec<Relocation>>)
    requires
        index < u32::MAX,
    ensures
        match relocs {
            Some(relocs) => index < relocation_lists(*relocations).len() && relocs@
                == relocation_lists(*relocations)[index as int],
            None => index >= relocation_lists(*relocations).len(),
        },
{
    relocations.relocs.get(cranelift_wasm::DefinedFuncIndex::new(index as usize))
}

impl Compilation {
    /// The compilation that holds the given code, function by function.
    pub fn new(funcs: Vec<Vec<u8>>) -> (compilation: Self)
        requires
            funcs@.len() <= u32::MAX,
        ensures
            compilation@ == funcs@.map_values(|code: Vec<u8>| code@),
    {
        let ghost all = funcs@;
        let mut compilation = empty_compilation();
        for code in it: funcs.into_iter()
            invariant
                it.seq() == all,
                all.len() <= u32::MAX,
                compilation@ == all.subrange(0, it.index() as int).map_values(
                    |code: Vec<u8>| code@,
                ),
        {
            push_code(&mut compilation, code);
        }
        compilation
    }

    /// The number of functions.
    pub fn len(&self) -> (count: usize)
        ensures
            count == self@.len(),
    {
        code_count(self)
    }

    /// The code of the function with the given index, if there is such a
    /// function. The largest index that 32 bits can hold is reserved: it
    /// names no function.
    pub fn get(&self, index: DefinedFuncIndex) -> (code: Option<&Vec<u8>>)
        ensures
            code is Some <==> index.0 < self@.len() && index.0 < u32::MAX,
            code matches Some(code) ==> code@ == self@[index.0 as int],
    {
        if index.0 == u32::MAX {
            None
        } else {
            code_at(self, index.0)
        }
    }
}

impl Relocations {
    /// The number of functions.
    pub fn len(&self) -> (count: usize)
        ensures
            count == self@.len(),
    {
        relocs_count(self)
    }

    /// The relocations of the function with the given index, if there is
    /// such a function. The largest index that 32 bits can hold is reserved:
    /// it names no function.
    pub fn get(&self, index: DefinedFuncIndex) -> (relocs: Option<&Vec<Relocation>>)
        ensures
            relocs is Some <==> index.0 < self@.len() && index.0 < u32::MAX,
            relocs matches Some(relocs) ==> relocs@ == self@[index.0 as int],
    {
        if index.0 == u32::MAX {
            None
        } else {
            relocs_at(self, index.0)
        }
    }
}

/// What compiling one function yields.
pub struct CompiledFunction {
    /// The machine code of the function.
    pub code: Vec<u8>,
    /// The places in that code that have to be patched.
    pub relocs: Vec<Relocation>,
}

/// How compiling one function went: what it yielded, or why it failed.
pub type FunctionOutcome = Result<CompiledFunction, String>;

/// The code that an outcome carries.
pub open spec fn outcome_code(outcome: FunctionOutcome) -> Seq<u8> {
    match outcome {
        Ok(function) => function.code@,
        Err(_) => Seq::empty(),
    }
}

/// The relocations that an outcome carries.
pub open spec fn outcome_relocs(outcome: FunctionOutcome) -> Seq<Relocation> {
    match outcome {
        Ok(function) => function.relocs@,
        Err(_) => Seq::empty(),
    }
}

/// Whether the outcome at position `k` is a failure and none before it is.
pub open spec fn is_first_failure(outcomes: Seq<FunctionOutcome>, k: int) -> bool {
    &&& 0 <= k < outcomes.len()
    &&& outcomes[k] is Err
    &&& forall|j: int| 0 <= j < k ==> outcomes[j] is Ok
}

/// Whether `outcomes` can be what compiling the `count` functions of a
/// module, in index order, came to: one outcome for each function, or fewer
/// where the work ended at a failure.
pub open spec fn outcomes_fit(outcomes: Seq<FunctionOutcome>, count: int) -> bool {
    &&& outcomes.len() <= count
    &&& outcomes.len() == count || exists|k: int| is_first_failure(outcomes, k)
}

/// Puts together what compiling the functions of a module came to. The
/// functions that the module defines are compiled in index order, and
/// `outcomes` holds the outcome for each, up to the first failure if there is
/// one.
///
/// Where every function compiled, the result holds the code and the
/// relocations of each function at the position of its index. Where one
/// failed, the result is the first failure, and nothing of the functions
/// compiled before it is handed out.
pub fn compile_module(translation: &ModuleTranslation, outcomes: Vec<FunctionOutcome>) -> (result:
    Result<(Compilation, Relocations), String>)
    requires
        translation@.lazy.func_body_inputs.len() <= u32::MAX,
        outcomes_fit(outcomes@, translation@.lazy.func_body_inputs.len() as int),
    ensures
        match result {
            Ok((compilation, relocations)) => {
                &&& forall|i: int| 0 <= i < outcomes@.len() ==> outcomes@[i] is Ok
                &&& compilation@ == outcomes@.map_values(|o: FunctionOutcome| outcome_code(o))
                &&& relocations@ == outcomes@.map_values(|o: FunctionOutcome| outcome_relocs(o))
                &&& compilation@.len() == translation@.lazy.func_body_inputs.len()
                &&& relocations@.len() == translation@.lazy.func_body_inputs.len()
            },
            Err(message) => exists|k: int|
                is_first_failure(outcomes@, k) && outcomes@[k] == Err::<CompiledFunction, String>(
                    message,
                ),
        },
{
    let ghost all = outcomes@;
    let mut functions = empty_compilation();
    let mut relocations = empty_relocations();
    for outcome in it: outcomes.into_iter()
        invariant
            it.seq() == all,
            all.len() <= u32::MAX,
            forall|j: int| 0 <= j < it.index() ==> all[j] is Ok,
            functions@ == all.subrange(0, it.index() as int).map_values(
                |o: FunctionOutcome| outcome_code(o),
            ),
            relocations@ == all.subrange(0, it.index() as int).map_values(
                |o: FunctionOutcome| outcome_relocs(o),
            ),
    {
        match outcome {
            Ok(function) => {
                push_code(&mut functions, function.code);
                push_relocs(&mut relocations, function.relocs);
            },
            Err(message) => {
                return Err(message);
            },
        }
    }
    Ok((functions, relocations))
}

} // verus!
