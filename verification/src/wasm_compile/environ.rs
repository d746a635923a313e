//! Building a module from what a decoder reports of it.
//!
//! The decoder walks a binary module section by section and tells the
//! [`ModuleEnvironment`] what it finds. When it is done, the builder hands out
//! the [`ModuleTranslation`] from which the functions are compiled.

use vstd::prelude::*;
use cranelift_wasm::{Memory, Table};
use target_lexicon::Triple;
use crate::module::{
    DataInitializer, DataInitializerView, Export, FuncDeclaration, FuncIndex, Global, GlobalIndex,
    LazyContents, LazyContentsView, MemoryIndex, Module, ModuleView, Signature, SignatureIndex,
    TableElements, TableElementsView, TableIndex, ValueType,
};
use crate::target::{pointer_width_of, triple_pointer_width, PointerWidth};

pub use crate::wasm_compile::addressing::{
    AddressingCache, FuncEnvironment, GlobalVariable, GLOBALS_ARRAY_SLOT, HEAP_BOUND,
    HEAP_GUARD_SIZE, HEAP_INDEX_BITS, HEAP_MIN_SIZE, MAX_ACCESS_ENTRIES, MEMORY_LIST_SLOT,
};

verus! {

/// The name of something that generated code refers to and a loader
/// resolves.
#[derive(Clone, PartialEq, Eq, Debug)]
pub enum ExternalName {
    /// An entry of a symbol table of the embedder.
    User { namespace: u32, index: u32 },
    /// A short name of ASCII bytes.
    TestCase(Vec<u8>),
    /// A routine of the runtime library of the code generator.
    LibCall,
}

/// An external name as a mathematical value.
pub enum ExternalNameView {
    User { namespace: u32, index: u32 },
    TestCase(Seq<u8>),
    LibCall,
}

impl View for ExternalName {
    type V = ExternalNameView;

    open spec fn view(&self) -> ExternalNameView {
        match self {
            ExternalName::User { namespace, index } => ExternalNameView::User {
                namespace: *namespace,
                index: *index,
            },
            ExternalName::TestCase(bytes) => ExternalNameView::TestCase(bytes@),
            ExternalName::LibCall => ExternalNameView::LibCall,
        }
    }
}

/// The namespace of the names of a module's functions.
pub const FUNC_NAMESPACE: u32 = 0;

/// The name that stands for function `func_index` in generated code.
pub open spec fn func_name(func_index: FuncIndex) -> ExternalNameView {
    ExternalNameView::User { namespace: FUNC_NAMESPACE, index: func_index.0 }
}

/// The external name of the function with the given index: the user name
/// whose namespace is zero and whose index is that of the function.
pub fn get_func_name(func_index: FuncIndex) -> (name: ExternalName)
    ensures
        name@ == func_name(func_index),
{
    ExternalName::User { namespace: FUNC_NAMESPACE, index: func_index.0 }
}

/// Functions with different indices have different names.
pub proof fn lemma_func_name_injective(a: FuncIndex, b: FuncIndex)
    requires
        func_name(a) == func_name(b),
    ensures
        a == b,
{
}

/// Why decoding or translating a module failed.
#[derive(Clone, PartialEq, Eq, Debug)]
pub enum WasmError {
    /// The input is not a valid module.
    InvalidWebAssembly { message: &'static str, offset: usize },
    /// The module uses a feature that is not supported.
    Unsupported(&'static str),
    /// The module exceeds a limit of the implementation.
    ImplLimitExceeded,
}

/// The outcome of decoding or translating.
pub type WasmResult<T> = Result<T, WasmError>;

/// Why a declaration was turned down.
#[derive(Copy, Clone, PartialEq, Eq, Debug, Structural)]
pub enum DeclareError {
    /// A function import was declared after a function that the module
    /// defines.
    ImportAfterDefinedFunction,
    /// An initializer is placed relative to a global.
    GlobalOffsetUnsupported,
    /// The module already has a start function.
    StartFunctionAlreadyDeclared,
}

/// What a module builder holds, as a mathematical value.
pub struct ModuleEnvironmentView {
    pub pointer_width: PointerWidth,
    pub module: ModuleView,
    pub lazy: LazyContentsView,
}

impl ModuleEnvironmentView {
    /// The module and the recorded ranges are well-formed.
    pub open spec fn wf(self) -> bool {
        self.module.wf() && self.lazy.wf()
    }
}

/// Builds a [`Module`] from what a decoder reports of a binary module,
/// section by section, and records where in the decoded buffer the function
/// bodies and data initializers lie.
///
/// The builder borrows the module for as long as it, and the translation made
/// from it, live: every operation leaves `module` pointing where it pointed.
pub struct ModuleEnvironment<'data, 'module> {
    pub pointer_width: PointerWidth,
    pub module: &'module mut Module,
    pub lazy: LazyContents<'data>,
}

impl<'data, 'module> View for ModuleEnvironment<'data, 'module> {
    type V = ModuleEnvironmentView;

    open spec fn view(&self) -> ModuleEnvironmentView {
        ModuleEnvironmentView {
            pointer_width: self.pointer_width,
            module: self.module@,
            lazy: self.lazy@,
        }
    }
}

/// A decoded module, ready to be compiled.
pub struct ModuleTranslation<'data, 'module> {
    pub pointer_width: PointerWidth,
    pub module: &'module mut Module,
    pub lazy: LazyContents<'data>,
}

impl<'data, 'module> View for ModuleTranslation<'data, 'module> {
    type V = ModuleEnvironmentView;

    open spec fn view(&self) -> ModuleEnvironmentView {
        ModuleEnvironmentView {
            pointer_width: self.pointer_width,
            module: self.module@,
            lazy: self.lazy@,
        }
    }
}

impl<'data, 'module> ModuleEnvironment<'data, 'module> {
    /// A builder that fills `module` for a target with pointers of the given
    /// width. No range of a buffer is recorded yet.
    pub fn with_pointer_width(pointer_width: PointerWidth, module: &'module mut Module) -> (env:
        Self)
        ensures
            env@ == (ModuleEnvironmentView {
                pointer_width,
                module: old(module)@,
                lazy: LazyContentsView {
                    data_initializers: Seq::empty(),
                    func_body_inputs: Seq::empty(),
                },
            }),
            *final(env.module) == *final(module),
    {
        Self { pointer_width, module, lazy: LazyContents::new() }
    }

    /// A builder that fills `module` for the target that `triple` names; none
    /// where the pointer width of that target is not known.
    pub fn new(triple: &Triple, module: &'module mut Module) -> (env: Option<Self>)
        ensures
            env is Some <==> triple_pointer_width(*triple) is Some,
            env matches Some(env) ==> {
                &&& env@ == (ModuleEnvironmentView {
                    pointer_width: triple_pointer_width(*triple).unwrap(),
                    module: old(module)@,
                    lazy: LazyContentsView {
                        data_initializers: Seq::empty(),
                        func_body_inputs: Seq::empty(),
                    },
                })
                &&& *final(env.module) == *final(module)
            },
            env is None ==> *final(module) == *old(module),
    {
        match pointer_width_of(triple) {
            Some(pointer_width) => Some(Self::with_pointer_width(pointer_width, module)),
            None => None,
        }
    }

    /// The type of a native pointer on the target.
    pub fn pointer_type(&self) -> (ty: ValueType)
        ensures
            ty == self@.pointer_width.spec_pointer_type(),
    {
        self.pointer_width.pointer_type()
    }

    /// Records a signature of the module: `sig` with the context pointer
    /// added as its last parameter, since every compiled function takes that
    /// pointer as its last argument.
    pub fn declare_signature(&mut self, sig: &Signature)
        ensures
            final(self)@ == (ModuleEnvironmentView {
                module: ModuleView {
                    signatures: old(self)@.module.signatures.push(
                        sig@.with_vmctx(old(self)@.pointer_width),
                    ),
                    ..old(self)@.module
                },
                ..old(self)@
            }),
            *final(final(self).module) == *final(old(self).module),
    {
        self.module.signatures.push(sig.with_vmctx(self.pointer_width));
        assert(self@.module.signatures =~= old(self)@.module.signatures.push(
            sig@.with_vmctx(old(self)@.pointer_width),
        ));
    }

    /// The signature with the given index.
    pub fn get_signature(&self, sig_index: SignatureIndex) -> (signature: &Signature)
        requires
            sig_index.0 < self@.module.signatures.len(),
        ensures
            signature@ == self@.module.signatures[sig_index.0 as int],
    {
        &self.module.signatures[sig_index.0 as usize]
    }

    /// Records an imported function. Imports come before the functions that
    /// the module defines: once a defined function is declared, an import is
    /// turned down and nothing changes.
    pub fn declare_func_import(
        &mut self,
        sig_index: SignatureIndex,
        module: &str,
        field: &str,
    ) -> (outcome: Result<(), DeclareError>)
        ensures
            old(self)@.module.accepts_import() ==> {
                &&& outcome is Ok
                &&& final(self)@ == (ModuleEnvironmentView {
                    module: old(self)@.module.with_import(sig_index, module@, field@),
                    ..old(self)@
                })
            },
            !old(self)@.module.accepts_import() ==> {
                &&& outcome == Err::<(), DeclareError>(DeclareError::ImportAfterDefinedFunction)
                &&& final(self)@ == old(self)@
            },
            final(self)@.module == old(self)@.module.declare(
                FuncDeclaration::Import { sig_index, module: module@, field: field@ },
            ),
            old(self)@.wf() ==> final(self)@.wf(),
            *final(final(self).module) == *final(old(self).module),
    {
        if self.module.functions.len() != self.module.imported_funcs.len() {
            return Err(DeclareError::ImportAfterDefinedFunction);
        }
        self.module.functions.push(sig_index);
        self.module.imported_funcs.push((module.to_string(), field.to_string()));
        assert(self@.module.imported_funcs =~= old(self)@.module.imported_funcs.push(
            (module@, field@),
        ));
        Ok(())
    }

    /// The number of functions that the module imports.
    pub fn get_num_func_imports(&self) -> (count: usize)
        ensures
            count == self@.module.imported_funcs.len(),
    {
        self.module.imported_funcs.len()
    }

    /// Records a function that the module defines, by its signature. From
    /// now on the module accepts no import.
    pub fn declare_func_type(&mut self, sig_index: SignatureIndex)
        ensures
            final(self)@ == (ModuleEnvironmentView {
                module: old(self)@.module.declare(FuncDeclaration::Defined { sig_index }),
                ..old(self)@
            }),
            old(self)@.wf() ==> final(self)@.wf() && !final(self)@.module.accepts_import(),
            *final(final(self).module) == *final(old(self).module),
    {
        self.module.functions.push(sig_index);
    }

    /// The signature index of the function with the given index.
    pub fn get_func_type(&self, func_index: FuncIndex) -> (sig_index: SignatureIndex)
        requires
            func_index.0 < self@.module.functions.len(),
        ensures
            sig_index == self@.module.functions[func_index.0 as int],
    {
        self.module.functions[func_index.0 as usize]
    }

    /// Records a global.
    pub fn declare_global(&mut self, global: Global)
        ensures
            final(self)@ == (ModuleEnvironmentView {
                module: ModuleView {
                    globals: old(self)@.module.globals.push(global),
                    ..old(self)@.module
                },
                ..old(self)@
            }),
            *final(final(self).module) == *final(old(self).module),
    {
        self.module.globals.push(global);
    }

    /// The global with the given index.
    pub fn get_global(&self, global_index: GlobalIndex) -> (global: &Global)
        requires
            global_index.0 < self@.module.globals.len(),
        ensures
            *global == self@.module.globals[global_index.0 as int],
    {
        &self.module.globals[global_index.0 as usize]
    }

    /// Records a table.
    pub fn declare_table(&mut self, table: Table)
        ensures
            final(self)@ == (ModuleEnvironmentView {
                module: ModuleView {
                    table: old(self)@.module.table.push(table),
                    ..old(self)@.module
                },
                ..old(self)@
            }),
            *final(final(self).module) == *final(old(self).module),
    {
        self.module.table.push(table);
    }

    /// Records the functions that fill a stretch of a table, starting at
    /// `offset`. An offset relative to a global is not supported: where
    /// `base` names one, the initializer is turned down and nothing changes.
    pub fn declare_table_elements(
        &mut self,
        table_index: TableIndex,
        base: Option<GlobalIndex>,
        offset: usize,
        elements: Vec<FuncIndex>,
    ) -> (outcome: Result<(), DeclareError>)
        ensures
            base is None ==> {
                &&& outcome is Ok
                &&& final(self)@ == (ModuleEnvironmentView {
                    module: ModuleView {
                        table_elements: old(self)@.module.table_elements.push(
                            TableElementsView {
                                table_index,
                                base: None,
                                offset,
                                elements: elements@,
                            },
                        ),
                        ..old(self)@.module
                    },
                    ..old(self)@
                })
            },
            base is Some ==> {
                &&& outcome == Err::<(), DeclareError>(DeclareError::GlobalOffsetUnsupported)
                &&& final(self)@ == old(self)@
            },
            old(self)@.wf() ==> final(self)@.wf(),
            *final(final(self).module) == *final(old(self).module),
    {
        if base.is_some() {
            return Err(DeclareError::GlobalOffsetUnsupported);
        }
        self.module.table_elements.push(TableElements { table_index, base, offset, elements });
        assert(self@.module.table_elements =~= old(self)@.module.table_elements.push(
            TableElementsView { table_index, base: None, offset, elements: elements@ },
        ));
        Ok(())
    }

    /// Records a memory.
    pub fn declare_memory(&mut self, memory: Memory)
        ensures
            final(self)@ == (ModuleEnvironmentView {
                module: ModuleView {
                    memories: old(self)@.module.memories.push(memory),
                    ..old(self)@.module
                },
                ..old(self)@
            }),
            *final(final(self).module) == *final(old(self).module),
    {
        self.module.memories.push(memory);
    }

    /// Records the bytes that fill a stretch of a memory, starting at
    /// `offset`, without copying them. An offset relative to a global is not
    /// supported: where `base` names one, the initializer is turned down and
    /// nothing changes.
    pub fn declare_data_initialization(
        &mut self,
        memory_index: MemoryIndex,
        base: Option<GlobalIndex>,
        offset: usize,
        data: &'data [u8],
    ) -> (outcome: Result<(), DeclareError>)
        ensures
            base is None ==> {
                &&& outcome is Ok
                &&& final(self)@ == (ModuleEnvironmentView {
                    lazy: LazyContentsView {
                        data_initializers: old(self)@.lazy.data_initializers.push(
                            DataInitializerView {
                                memory_index,
                                base: None,
                                offset,
                                data: data@,
                            },
                        ),
                        ..old(self)@.lazy
                    },
                    ..old(self)@
                })
            },
            base is Some ==> {
                &&& outcome == Err::<(), DeclareError>(DeclareError::GlobalOffsetUnsupported)
                &&& final(self)@ == old(self)@
            },
            old(self)@.wf() ==> final(self)@.wf(),
            *final(final(self).module) == *final(old(self).module),
    {
        if base.is_some() {
            return Err(DeclareError::GlobalOffsetUnsupported);
        }
        self.lazy.data_initializers.push(DataInitializer { memory_index, base, offset, data });
        assert(self@.lazy.data_initializers =~= old(self)@.lazy.data_initializers.push(
            DataInitializerView { memory_index, base: None, offset, data: data@ },
        ));
        Ok(())
    }

    /// Exports a function under `name`. A name that is exported already
    /// stands for the function from now on.
    pub fn declare_func_export(&mut self, func_index: FuncIndex, name: &str)
        ensures
            final(self)@ == (ModuleEnvironmentView {
                module: ModuleView {
                    exports: old(self)@.module.exports.insert(name@, Export::Function(func_index)),
                    ..old(self)@.module
                },
                ..old(self)@
            }),
            *final(final(self).module) == *final(old(self).module),
    {
        self.module.exports.insert(name.to_string(), Export::Function(func_index));
    }

    /// Exports a table under `name`. A name that is exported already stands
    /// for the table from now on.
    pub fn declare_table_export(&mut self, table_index: TableIndex, name: &str)
        ensures
            final(self)@ == (ModuleEnvironmentView {
                module: ModuleView {
                    exports: old(self)@.module.exports.insert(name@, Export::Table(table_index)),
                    ..old(self)@.module
                },
                ..old(self)@
            }),
            *final(final(self).module) == *final(old(self).module),
    {
        self.module.exports.insert(name.to_string(), Export::Table(table_index));
    }

    /// Exports a memory under `name`. A name that is exported already stands
    /// for the memory from now on.
    pub fn declare_memory_export(&mut self, memory_index: MemoryIndex, name: &str)
        ensures
            final(self)@ == (ModuleEnvironmentView {
                module: ModuleView {
                    exports: old(self)@.module.exports.insert(name@, Export::Memory(memory_index)),
                    ..old(self)@.module
                },
                ..old(self)@
            }),
            *final(final(self).module) == *final(old(self).module),
    {
        self.module.exports.insert(name.to_string(), Export::Memory(memory_index));
    }

    /// Exports a global under `name`. A name that is exported already stands
    /// for the global from now on.
    pub fn declare_global_export(&mut self, global_index: GlobalIndex, name: &str)
        ensures
            final(self)@ == (ModuleEnvironmentView {
                module: ModuleView {
                    exports: old(self)@.module.exports.insert(name@, Export::Global(global_index)),
                    ..old(self)@.module
                },
                ..old(self)@
            }),
            *final(final(self).module) == *final(old(self).module),
    {
        self.module.exports.insert(name.to_string(), Export::Global(global_index));
    }

    /// Records the start function. A module has at most one: where one is
    /// recorded already, the declaration is turned down and nothing changes.
    pub fn declare_start_func(&mut self, func_index: FuncIndex) -> (outcome: Result<
        (),
        DeclareError,
    >)
        ensures
            old(self)@.module.start_func is None ==> {
                &&& outcome is Ok
                &&& final(self)@ == (ModuleEnvironmentView {
                    module: ModuleView { start_func: Some(func_index), ..old(self)@.module },
                    ..old(self)@
                })
            },
            old(self)@.module.start_func is Some ==> {
                &&& outcome == Err::<(), DeclareError>(DeclareError::StartFunctionAlreadyDeclared)
                &&& final(self)@ == old(self)@
            },
            *final(final(self).module) == *final(old(self).module),
    {
        if self.module.start_func.is_some() {
            return Err(DeclareError::StartFunctionAlreadyDeclared);
        }
        self.module.start_func = Some(func_index);
        Ok(())
    }

    /// Records where the body of the next function that the module defines
    /// lies, without copying it. Bodies come in the order of the functions.
    pub fn define_function_body(&mut self, body_bytes: &'data [u8]) -> (outcome: WasmResult<()>)
        ensures
            outcome is Ok,
            final(self)@ == (ModuleEnvironmentView {
                lazy: LazyContentsView {
                    func_body_inputs: old(self)@.lazy.func_body_inputs.push(body_bytes@),
                    ..old(self)@.lazy
                },
                ..old(self)@
            }),
            *final(final(self).module) == *final(old(self).module),
    {
        self.lazy.func_body_inputs.push(body_bytes);
        assert(self@.lazy.func_body_inputs =~= old(self)@.lazy.func_body_inputs.push(
            body_bytes@,
        ));
        Ok(())
    }

    /// Ends the building of the module, given how the decoding of the binary
    /// module went: the translation of the module where it succeeded, the
    /// error of the decoder where it failed.
    pub fn translate(self, decoded: WasmResult<()>) -> (translation: WasmResult<
        ModuleTranslation<'data, 'module>,
    >)
        ensures
            match decoded {
                Ok(_) => {
                    &&& translation matches Ok(translation)
                    &&& translation@ == self@
                    &&& *final(translation.module) == *final(self.module)
                },
                Err(error) => {
                    &&& translation matches Err(e) && e == error
                    &&& *final(self.module) == *old(self.module)
                },
            },
    {
        match decoded {
            Ok(_) => Ok(
                ModuleTranslation {
                    pointer_width: self.pointer_width,
                    module: self.module,
                    lazy: self.lazy,
                },
            ),
            Err(error) => Err(error),
        }
    }
}

} // verus!
