//! The structure of a decoded module: its signatures, functions, imports,
//! globals, tables, memories, exports and initializers.
//!
//! Every index type is a dense, zero-based handle into one of the module's
//! sequences. The byte ranges held by [`LazyContents`] borrow the buffer the
//! module was decoded from and cannot outlive it.
//!
//! Tables and memories are described by the types of the decoder, which the
//! module stores and never looks into.

use vstd::prelude::*;
use vstd::hash_map::StringHashMap;
use cranelift_wasm::{Memory, Table};
use crate::target::PointerWidth;

verus! {

#[verifier::external_type_specification]
#[verifier::external_body]
pub struct ExTable(Table);

#[verifier::external_type_specification]
#[verifier::external_body]
pub struct ExMemory(Memory);

/// Index of a signature.
#[derive(Copy, Clone, PartialEq, Eq, Debug, Structural)]
pub struct SignatureIndex(pub u32);

/// Index of a function, imported or defined.
#[derive(Copy, Clone, PartialEq, Eq, Debug, Structural)]
pub struct FuncIndex(pub u32);

/// Index of a function among those the module defines itself.
#[derive(Copy, Clone, PartialEq, Eq, Debug, Structural)]
pub struct DefinedFuncIndex(pub u32);

/// Index of a global variable.
#[derive(Copy, Clone, PartialEq, Eq, Debug, Structural)]
pub struct GlobalIndex(pub u32);

/// Index of a table.
#[derive(Copy, Clone, PartialEq, Eq, Debug, Structural)]
pub struct TableIndex(pub u32);

/// Index of a linear memory.
#[derive(Copy, Clone, PartialEq, Eq, Debug, Structural)]
pub struct MemoryIndex(pub u32);

/// The scalar value types that signatures, globals and addressing code use.
#[derive(Copy, Clone, PartialEq, Eq, Debug, Structural)]
pub enum ValueType {
    I8,
    I16,
    I32,
    I64,
    F32,
    F64,
}

impl ValueType {
    /// The integer type that is `bits` wide, where there is one.
    pub open spec fn integer(bits: u16) -> Option<ValueType> {
        if bits == 8 {
            Some(ValueType::I8)
        } else if bits == 16 {
            Some(ValueType::I16)
        } else if bits == 32 {
            Some(ValueType::I32)
        } else if bits == 64 {
            Some(ValueType::I64)
        } else {
            None
        }
    }
}

/// What a parameter or return value is for.
#[derive(Copy, Clone, PartialEq, Eq, Debug, Structural)]
pub enum ArgumentPurpose {
    Normal,
    StructReturn,
    Link,
    FramePointer,
    CalleeSaved,
    /// The pointer to the context structure of the running instance.
    VMContext,
    SignatureId,
    StackLimit,
}

/// How a small integer argument is widened to a full register.
#[derive(Copy, Clone, PartialEq, Eq, Debug, Structural)]
pub enum ArgumentExtension {
    Unextended,
    Uext,
    Sext,
}

/// Where the ABI places an argument.
#[derive(Copy, Clone, PartialEq, Eq, Debug, Structural)]
pub enum ArgumentLoc {
    Unassigned,
    Reg(u16),
    Stack(i32),
}

/// A calling convention.
#[derive(Copy, Clone, PartialEq, Eq, Debug, Structural)]
pub enum CallConv {
    Fast,
    Cold,
    SystemV,
    WindowsFastcall,
    Baldrdash,
    Probestack,
}

/// One parameter or return value of a signature.
#[derive(Copy, Clone, PartialEq, Eq, Debug, Structural)]
pub struct AbiParam {
    pub value_type: ValueType,
    pub purpose: ArgumentPurpose,
    pub extension: ArgumentExtension,
    pub location: ArgumentLoc,
}

impl AbiParam {
    pub open spec fn spec_new(value_type: ValueType) -> AbiParam {
        AbiParam {
            value_type,
            purpose: ArgumentPurpose::Normal,
            extension: ArgumentExtension::Unextended,
            location: ArgumentLoc::Unassigned,
        }
    }

    pub open spec fn spec_special(value_type: ValueType, purpose: ArgumentPurpose) -> AbiParam {
        AbiParam {
            value_type,
            purpose,
            extension: ArgumentExtension::Unextended,
            location: ArgumentLoc::Unassigned,
        }
    }

    /// An ordinary parameter that has no location yet.
    #[verifier::when_used_as_spec(spec_new)]
    pub fn new(value_type: ValueType) -> (param: AbiParam)
        ensures
            param == AbiParam::spec_new(value_type),
    {
        AbiParam {
            value_type,
            purpose: ArgumentPurpose::Normal,
            extension: ArgumentExtension::Unextended,
            location: ArgumentLoc::Unassigned,
        }
    }

    /// A parameter with a special purpose that has no location yet.
    #[verifier::when_used_as_spec(spec_special)]
    pub fn special(value_type: ValueType, purpose: ArgumentPurpose) -> (param: AbiParam)
        ensures
            param == AbiParam::spec_special(value_type, purpose),
    {
        AbiParam {
            value_type,
            purpose,
            extension: ArgumentExtension::Unextended,
            location: ArgumentLoc::Unassigned,
        }
    }
}

/// The types a function takes and returns, and how it is called.
#[derive(Clone, PartialEq, Eq, Debug)]
pub struct Signature {
    pub params: Vec<AbiParam>,
    pub returns: Vec<AbiParam>,
    pub call_conv: CallConv,
}

/// A signature as a mathematical value.
pub struct SignatureView {
    pub params: Seq<AbiParam>,
    pub returns: Seq<AbiParam>,
    pub call_conv: CallConv,
}

impl View for Signature {
    type V = SignatureView;

    open spec fn view(&self) -> SignatureView {
        SignatureView { params: self.params@, returns: self.returns@, call_conv: self.call_conv }
    }
}

/// A copy of `params`.
fn copy_params(params: &Vec<AbiParam>) -> (copy: Vec<AbiParam>)
    ensures
        copy@ == params@,
{
    let mut copy: Vec<AbiParam> = Vec::new();
    let mut i: usize = 0;
    while i < params.len()
        invariant
            i <= params@.len(),
            copy@ == params@.subrange(0, i as int),
        decreases params@.len() - i,
    {
        copy.push(params[i]);
        i = i + 1;
    }
    copy
}

impl Signature {
    /// A copy of this signature with the context pointer of the given width
    /// added as its last parameter.
    pub fn with_vmctx(&self, width: PointerWidth) -> (signature: Signature)
        ensures
            signature@ == self@.with_vmctx(width),
    {
        let mut params = copy_params(&self.params);
        params.push(AbiParam::special(width.pointer_type(), ArgumentPurpose::VMContext));
        Signature { params, returns: copy_params(&self.returns), call_conv: self.call_conv }
    }
}

impl SignatureView {
    /// This signature with the context pointer of the given width added as
    /// its last parameter.
    pub open spec fn with_vmctx(self, width: PointerWidth) -> SignatureView {
        SignatureView {
            params: self.params.push(
                AbiParam::spec_special(width.spec_pointer_type(), ArgumentPurpose::VMContext),
            ),
            returns: self.returns,
            call_conv: self.call_conv,
        }
    }
}

/// A signature with the context pointer added is the signature it was made
/// from, with exactly one parameter more: the context pointer, which comes
/// last. Its return values and its calling convention are unchanged.
pub proof fn lemma_vmctx_is_last_param(signature: SignatureView, width: PointerWidth)
    ensures
        signature.with_vmctx(width).params.len() == signature.params.len() + 1,
        signature.with_vmctx(width).params.drop_last() == signature.params,
        signature.with_vmctx(width).params.last() == AbiParam::spec_special(
            width.spec_pointer_type(),
            ArgumentPurpose::VMContext,
        ),
        signature.with_vmctx(width).returns == signature.returns,
        signature.with_vmctx(width).call_conv == signature.call_conv,
{
}

/// Where the first value of a global comes from.
#[derive(Copy, Clone, PartialEq, Eq, Debug, Structural)]
pub enum GlobalInit {
    I32Const(i32),
    I64Const(i64),
    /// The bits of a 32-bit float constant.
    F32Const(u32),
    /// The bits of a 64-bit float constant.
    F64Const(u64),
    /// The value of another global.
    GlobalRef(GlobalIndex),
    /// The global is imported; whoever provides it sets its value.
    Import,
}

/// A global variable.
#[derive(Copy, Clone, PartialEq, Eq, Debug, Structural)]
pub struct Global {
    pub ty: ValueType,
    pub mutability: bool,
    pub initializer: GlobalInit,
}

/// The functions that fill one stretch of a table when the module is
/// instantiated.
#[derive(Clone, PartialEq, Eq, Debug)]
pub struct TableElements {
    pub table_index: TableIndex,
    /// A global to which `offset` would be relative. Such offsets are not
    /// supported: this is `None` in every well-formed module.
    pub base: Option<GlobalIndex>,
    pub offset: usize,
    pub elements: Vec<FuncIndex>,
}

/// The bytes that fill one stretch of a memory when the module is
/// instantiated.
#[derive(Clone, PartialEq, Eq, Debug)]
pub struct DataInitializer<'data> {
    pub memory_index: MemoryIndex,
    /// A global to which `offset` would be relative; always `None`, as in
    /// [`TableElements`].
    pub base: Option<GlobalIndex>,
    pub offset: usize,
    /// The bytes, borrowed from the buffer the module was decoded from.
    pub data: &'data [u8],
}

/// A table initializer as a mathematical value.
pub struct TableElementsView {
    pub table_index: TableIndex,
    pub base: Option<GlobalIndex>,
    pub offset: usize,
    pub elements: Seq<FuncIndex>,
}

impl View for TableElements {
    type V = TableElementsView;

    open spec fn view(&self) -> TableElementsView {
        TableElementsView {
            table_index: self.table_index,
            base: self.base,
            offset: self.offset,
            elements: self.elements@,
        }
    }
}

/// A data initializer as a mathematical value.
pub struct DataInitializerView {
    pub memory_index: MemoryIndex,
    pub base: Option<GlobalIndex>,
    pub offset: usize,
    pub data: Seq<u8>,
}

impl<'data> View for DataInitializer<'data> {
    type V = DataInitializerView;

    open spec fn view(&self) -> DataInitializerView {
        DataInitializerView {
            memory_index: self.memory_index,
            base: self.base,
            offset: self.offset,
            data: self.data@,
        }
    }
}

/// What a module exports under one name.
#[derive(Copy, Clone, PartialEq, Eq, Debug, Structural)]
pub enum Export {
    Function(FuncIndex),
    Table(TableIndex),
    Memory(MemoryIndex),
    Global(GlobalIndex),
}

/// What decoding records of a module without copying it: ranges of the
/// decoded buffer.
pub struct LazyContents<'data> {
    pub data_initializers: Vec<DataInitializer<'data>>,
    /// The body of each function that the module defines, in index order.
    pub func_body_inputs: Vec<&'data [u8]>,
}

/// The recorded ranges as mathematical values.
pub struct LazyContentsView {
    pub data_initializers: Seq<DataInitializerView>,
    pub func_body_inputs: Seq<Seq<u8>>,
}

impl LazyContentsView {
    /// No data initializer is relative to a global.
    pub open spec fn wf(self) -> bool {
        forall|i: int|
            0 <= i < self.data_initializers.len() ==> (#[trigger] self.data_initializers[i]).base
                is None
    }
}

impl<'data> View for LazyContents<'data> {
    type V = LazyContentsView;

    open spec fn view(&self) -> LazyContentsView {
        LazyContentsView {
            data_initializers: self.data_initializers@.map_values(
                |initializer: DataInitializer<'data>| initializer@,
            ),
            func_body_inputs: self.func_body_inputs@.map_values(|body: &'data [u8]| body@),
        }
    }
}

impl<'data> LazyContents<'data> {
    /// No initializers and no bodies.
    pub fn new() -> (lazy: Self)
        ensures
            lazy@ == (LazyContentsView {
                data_initializers: Seq::empty(),
                func_body_inputs: Seq::empty(),
            }),
    {
        let lazy = Self { data_initializers: Vec::new(), func_body_inputs: Vec::new() };
        assert(lazy@.data_initializers =~= Seq::empty());
        assert(lazy@.func_body_inputs =~= Seq::empty());
        lazy
    }
}

/// A decoded module.
pub struct Module {
    pub signatures: Vec<Signature>,
    /// The signature of each function. The first `imported_funcs.len()`
    /// functions are imported, the others are defined by the module.
    pub functions: Vec<SignatureIndex>,
    /// The module and field name of each imported function.
    pub imported_funcs: Vec<(String, String)>,
    pub globals: Vec<Global>,
    /// The tables, as the decoder describes them.
    pub table: Vec<Table>,
    /// The memories, as the decoder describes them.
    pub memories: Vec<Memory>,
    pub table_elements: Vec<TableElements>,
    pub exports: StringHashMap<Export>,
    pub start_func: Option<FuncIndex>,
}

/// A module as a mathematical value.
pub struct ModuleView {
    pub signatures: Seq<SignatureView>,
    pub functions: Seq<SignatureIndex>,
    pub imported_funcs: Seq<(Seq<char>, Seq<char>)>,
    pub globals: Seq<Global>,
    pub table: Seq<Table>,
    pub memories: Seq<Memory>,
    pub table_elements: Seq<TableElementsView>,
    pub exports: Map<Seq<char>, Export>,
    pub start_func: Option<FuncIndex>,
}

impl ModuleView {
    /// The module that declares nothing.
    pub open spec fn empty() -> ModuleView {
        ModuleView {
            signatures: Seq::empty(),
            functions: Seq::empty(),
            imported_funcs: Seq::empty(),
            globals: Seq::empty(),
            table: Seq::empty(),
            memories: Seq::empty(),
            table_elements: Seq::empty(),
            exports: Map::empty(),
            start_func: None,
        }
    }

    /// Every import is a function, and no table initializer is relative to a
    /// global.
    pub open spec fn wf(self) -> bool {
        &&& self.imported_funcs.len() <= self.functions.len()
        &&& forall|i: int|
            0 <= i < self.table_elements.len() ==> (#[trigger] self.table_elements[i]).base is None
    }

    /// Whether a function import can still be declared: every function
    /// declared so far is an import.
    pub open spec fn accepts_import(self) -> bool {
        self.functions.len() == self.imported_funcs.len()
    }

    /// The module with one more imported function.
    pub open spec fn with_import(
        self,
        sig_index: SignatureIndex,
        module: Seq<char>,
        field: Seq<char>,
    ) -> ModuleView {
        ModuleView {
            functions: self.functions.push(sig_index),
            imported_funcs: self.imported_funcs.push((module, field)),
            ..self
        }
    }

    /// The module with one more function that it defines itself.
    pub open spec fn with_function(self, sig_index: SignatureIndex) -> ModuleView {
        ModuleView { functions: self.functions.push(sig_index), ..self }
    }

    /// Whether `index` is a function that the module imports.
    pub open spec fn is_imported(self, index: FuncIndex) -> bool {
        index.0 < self.imported_funcs.len()
    }

    /// Whether `index` is a function that the module defines itself.
    pub open spec fn is_defined(self, index: FuncIndex) -> bool {
        self.imported_funcs.len() <= index.0 < self.functions.len()
    }

    /// The index, among all functions, of the function that is number
    /// `defined` among those the module defines: the imports come first.
    pub open spec fn func_index(self, defined: DefinedFuncIndex) -> Option<FuncIndex> {
        let index = self.imported_funcs.len() + defined.0;
        if index < self.functions.len() && index <= u32::MAX {
            Some(FuncIndex(index as u32))
        } else {
            None
        }
    }

    /// The index of function `index` among the functions that the module
    /// defines, if it is one of them.
    pub open spec fn defined_func_index(self, index: FuncIndex) -> Option<DefinedFuncIndex> {
        if self.is_defined(index) {
            Some(DefinedFuncIndex((index.0 - self.imported_funcs.len()) as u32))
        } else {
            None
        }
    }
}

/// The declaration of one function, as a decoder reports it.
pub enum FuncDeclaration {
    /// A function that the module imports under a module and a field name.
    Import { sig_index: SignatureIndex, module: Seq<char>, field: Seq<char> },
    /// A function that the module defines itself.
    Defined { sig_index: SignatureIndex },
}

impl ModuleView {
    /// The module after one declaration of a function. An import is recorded
    /// only while the module accepts imports; else it is turned down, and the
    /// module stays as it is.
    pub open spec fn declare(self, declaration: FuncDeclaration) -> ModuleView {
        match declaration {
            FuncDeclaration::Import { sig_index, module, field } => if self.accepts_import() {
                self.with_import(sig_index, module, field)
            } else {
                self
            },
            FuncDeclaration::Defined { sig_index } => self.with_function(sig_index),
        }
    }

    /// The module after a sequence of declarations of functions, in their
    /// order.
    pub open spec fn declare_all(self, declarations: Seq<FuncDeclaration>) -> ModuleView
        decreases declarations.len(),
    {
        if declarations.len() == 0 {
            self
        } else {
            self.declare_all(declarations.drop_last()).declare(declarations.last())
        }
    }
}

/// Whatever functions are declared, in whatever order, the imports never
/// outnumber the functions, and every import stands before every function
/// that the module defines: an import that comes too late changes nothing.
pub proof fn lemma_imports_come_first(module: ModuleView, declarations: Seq<FuncDeclaration>)
    requires
        module.imported_funcs.len() <= module.functions.len(),
    ensures
        module.declare_all(declarations).imported_funcs.len() <= module.declare_all(
            declarations,
        ).functions.len(),
        !module.accepts_import() ==> !module.declare_all(declarations).accepts_import()
            && module.declare_all(declarations).imported_funcs == module.imported_funcs,
    decreases declarations.len(),
{
    if declarations.len() > 0 {
        lemma_imports_come_first(module, declarations.drop_last());
    }
}

/// Once a module defines a function, it accepts no import any more.
pub proof fn lemma_no_import_after_defined_function(
    module: ModuleView,
    sig_index: SignatureIndex,
    name: Seq<char>,
    field: Seq<char>,
)
    requires
        module.imported_funcs.len() <= module.functions.len(),
    ensures
        !module.with_function(sig_index).accepts_import(),
        module.with_function(sig_index).declare(
            FuncDeclaration::Import { sig_index, module: name, field },
        ) == module.with_function(sig_index),
{
}

/// Every function of a module is either imported or defined by the module,
/// and not both: the imports are the first functions, the others are defined.
pub proof fn lemma_imported_or_defined(module: ModuleView, index: FuncIndex)
    requires
        module.imported_funcs.len() <= module.functions.len(),
        index.0 < module.functions.len(),
    ensures
        module.is_imported(index) != module.is_defined(index),
        module.is_imported(index) <==> module.defined_func_index(index) is None,
{
}

/// The two numberings of the functions that a module defines lead to each
/// other and back.
pub proof fn lemma_defined_func_index_round_trip(
    module: ModuleView,
    defined: DefinedFuncIndex,
    index: FuncIndex,
)
    ensures
        module.func_index(defined) matches Some(index) ==> module.is_defined(index)
            && module.defined_func_index(index) == Some(defined),
        module.defined_func_index(index) matches Some(defined) ==> module.func_index(defined)
            == Some(index),
{
}

impl View for Module {
    type V = ModuleView;

    open spec fn view(&self) -> ModuleView {
        ModuleView {
            signatures: self.signatures@.map_values(|signature: Signature| signature@),
            functions: self.functions@,
            imported_funcs: self.imported_funcs@.map_values(
                |import: (String, String)| (import.0@, import.1@),
            ),
            globals: self.globals@,
            table: self.table@,
            memories: self.memories@,
            table_elements: self.table_elements@.map_values(|elements: TableElements| elements@),
            exports: self.exports@,
            start_func: self.start_func,
        }
    }
}

impl Module {
    /// A module that declares nothing.
    pub fn new() -> (module: Self)
        ensures
            module@ == ModuleView::empty(),
    {
        let module = Self {
            signatures: Vec::new(),
            functions: Vec::new(),
            imported_funcs: Vec::new(),
            globals: Vec::new(),
            table: Vec::new(),
            memories: Vec::new(),
            table_elements: Vec::new(),
            exports: StringHashMap::new(),
            start_func: None,
        };
        assert(module@.signatures =~= Seq::empty());
        assert(module@.imported_funcs =~= Seq::empty());
        assert(module@.table_elements =~= Seq::empty());
        module
    }

    /// The index, among all functions, of the function that is number
    /// `defined` among those the module defines; none if the module defines
    /// fewer.
    pub fn func_index(&self, defined: DefinedFuncIndex) -> (index: Option<FuncIndex>)
        ensures
            index == self@.func_index(defined),
    {
        let imports = self.imported_funcs.len();
        let functions = self.functions.len();
        if imports > functions || defined.0 as usize >= functions - imports {
            return None;
        }
        let index = imports + defined.0 as usize;
        if index > u32::MAX as usize {
            None
        } else {
            Some(FuncIndex(index as u32))
        }
    }

    /// The index of function `index` among the functions that the module
    /// defines; none if the module imports the function or has no such
    /// function.
    pub fn defined_func_index(&self, index: FuncIndex) -> (defined: Option<DefinedFuncIndex>)
        ensures
            defined == self@.defined_func_index(index),
    {
        let imports = self.imported_funcs.len();
        if imports <= index.0 as usize && (index.0 as usize) < self.functions.len() {
            Some(DefinedFuncIndex((index.0 as usize - imports) as u32))
        } else {
            None
        }
    }
}

} // verus!
