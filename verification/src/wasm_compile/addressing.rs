//! Reaching the globals and memories of a module from compiled code.
//!
//! Every compiled function takes a context pointer as its last argument. The
//! structure behind it holds, at offset zero, the address of the globals
//! array and, one pointer further, the address of the list of memories; each
//! slot of either array is one pointer wide. A [`FuncEnvironment`] declares
//! in the preamble of a function the loads that walk this chain, each link
//! once per function.

use vstd::prelude::*;
use cranelift_codegen::ir;
use target_lexicon::Triple;
use crate::module::{GlobalIndex, MemoryIndex, Module, ValueType};
use crate::target::{pointer_width_of, triple_pointer_width, PointerWidth};
use crate::wasm_compile::function::{
    create_load_global_value, create_static_heap, create_vmctx_global_value, function_global_values,
    function_heaps, function_vmctx_param, global_value_count, heap_count, vmctx_param,
    GlobalValue, GlobalValueData, Heap, HeapData, HeapStyle, Value,
};

verus! {

/// The slot of the context structure that holds the address of the globals
/// array.
pub const GLOBALS_ARRAY_SLOT: u32 = 0;

/// The slot of the context structure that holds the address of the list of
/// memories.
pub const MEMORY_LIST_SLOT: u32 = 1;

/// The size below which a heap access needs no check: none is promised.
pub const HEAP_MIN_SIZE: i64 = 0;

/// The bytes that every heap may address: 4 GiB, whatever its module declares.
pub const HEAP_BOUND: i64 = 0x1_0000_0000;

/// The size of the guard region behind every heap: 2 GiB.
pub const HEAP_GUARD_SIZE: i64 = 0x8000_0000;

/// The width of the indices into every heap.
pub const HEAP_INDEX_BITS: u16 = 32;

/// The global values that one access may declare at most: the context
/// pointer, the base of an array, and a slot of the array.
pub const MAX_ACCESS_ENTRIES: usize = 3;

/// How translated code reaches a global variable.
#[derive(Copy, Clone, PartialEq, Eq, Debug, Structural)]
pub enum GlobalVariable {
    /// A constant whose value is known when the code is generated.
    Const(Value),
    /// A variable in memory: `gv` holds its address, `ty` is its type.
    Memory { gv: GlobalValue, ty: ValueType },
}

/// The heap that every memory gets: anchored at `base`, with the same bound
/// and guard region whatever the module declares for the memory.
pub open spec fn uniform_heap(base: GlobalValue) -> HeapData {
    HeapData {
        base,
        min_size: HEAP_MIN_SIZE,
        guard_size: HEAP_GUARD_SIZE,
        style: HeapStyle::Static { bound: HEAP_BOUND },
        index_type: ValueType::I32,
    }
}

/// What addressing code has derived so far for one function: each link of
/// the chain from the context pointer to globals and memories, once it has
/// been declared in the function's preamble.
pub struct AddressingCache {
    pub pointer_width: PointerWidth,
    /// The context pointer itself.
    pub vmctx_base: Option<GlobalValue>,
    /// The address of the globals array, loaded from its slot of the context
    /// structure.
    pub globals_base: Option<GlobalValue>,
    /// The address of the list of memories, loaded from its slot of the
    /// context structure.
    pub memory_list_base: Option<GlobalValue>,
    /// For each memory its base address, loaded from its slot of the memory
    /// list.
    pub memory_bases: Seq<Option<GlobalValue>>,
}

impl AddressingCache {
    /// The byte offset of slot `index` in an array of pointers.
    pub open spec fn slot_offset(self, index: int) -> int {
        index * self.pointer_width.spec_bytes()
    }

    /// The declaration that loads a pointer from `offset` bytes behind `base`.
    pub open spec fn pointer_load(self, base: GlobalValue, offset: int) -> GlobalValueData {
        GlobalValueData::Load {
            base,
            offset: offset as i32,
            global_type: self.pointer_width.spec_pointer_type(),
        }
    }

    /// Every link that is cached is declared among `declared` as the load
    /// that derives it from the link before it.
    pub open spec fn coherent(self, declared: Seq<GlobalValueData>) -> bool {
        &&& self.vmctx_base matches Some(vmctx) ==> {
            &&& vmctx.0 < declared.len()
            &&& declared[vmctx.0 as int] == GlobalValueData::VMContext
        }
        &&& self.globals_base matches Some(base) ==> {
            &&& self.vmctx_base is Some
            &&& base.0 < declared.len()
            &&& declared[base.0 as int] == self.pointer_load(
                self.vmctx_base.unwrap(),
                self.slot_offset(GLOBALS_ARRAY_SLOT as int),
            )
        }
        &&& self.memory_list_base matches Some(base) ==> {
            &&& self.vmctx_base is Some
            &&& base.0 < declared.len()
            &&& declared[base.0 as int] == self.pointer_load(
                self.vmctx_base.unwrap(),
                self.slot_offset(MEMORY_LIST_SLOT as int),
            )
        }
        &&& forall|i: int|
            0 <= i < self.memory_bases.len() ==> (#[trigger] self.memory_bases[i] matches Some(base)
                ==> {
                &&& self.memory_list_base is Some
                &&& base.0 < declared.len()
                &&& declared[base.0 as int] == self.pointer_load(
                    self.memory_list_base.unwrap(),
                    self.slot_offset(i),
                )
            })
    }

    /// What has to be declared, from position `next` on, before the context
    /// pointer can be used.
    pub open spec fn vmctx_entries(self) -> Seq<GlobalValueData> {
        if self.vmctx_base is Some {
            Seq::empty()
        } else {
            seq![GlobalValueData::VMContext]
        }
    }

    /// The cache once the context pointer is declared.
    pub open spec fn with_vmctx(self, next: int) -> AddressingCache {
        if self.vmctx_base is Some {
            self
        } else {
            AddressingCache { vmctx_base: Some(GlobalValue(next as u32)), ..self }
        }
    }

    /// What has to be declared before the globals array can be used.
    pub open spec fn globals_base_entries(self, next: int) -> Seq<GlobalValueData> {
        if self.globals_base is Some {
            Seq::empty()
        } else {
            self.vmctx_entries().push(
                self.pointer_load(
                    self.with_vmctx(next).vmctx_base.unwrap(),
                    self.slot_offset(GLOBALS_ARRAY_SLOT as int),
                ),
            )
        }
    }

    /// The cache once the globals array is declared.
    pub open spec fn with_globals_base(self, next: int) -> AddressingCache {
        if self.globals_base is Some {
            self
        } else {
            AddressingCache {
                globals_base: Some(GlobalValue((next + self.vmctx_entries().len()) as u32)),
                ..self.with_vmctx(next)
            }
        }
    }

    /// What `make_global` declares for global `index`: the missing links up
    /// to the globals array, then the load of the slot of the global, which
    /// is not cached.
    pub open spec fn global_entries(self, index: int, next: int) -> Seq<GlobalValueData> {
        self.globals_base_entries(next).push(
            self.pointer_load(
                self.with_globals_base(next).globals_base.unwrap(),
                self.slot_offset(index),
            ),
        )
    }

    /// What has to be declared before the list of memories can be used.
    pub open spec fn memory_list_entries(self, next: int) -> Seq<GlobalValueData> {
        if self.memory_list_base is Some {
            Seq::empty()
        } else {
            self.vmctx_entries().push(
                self.pointer_load(
                    self.with_vmctx(next).vmctx_base.unwrap(),
                    self.slot_offset(MEMORY_LIST_SLOT as int),
                ),
            )
        }
    }

    /// The cache once the list of memories is declared.
    pub open spec fn with_memory_list(self, next: int) -> AddressingCache {
        if self.memory_list_base is Some {
            self
        } else {
            AddressingCache {
                memory_list_base: Some(GlobalValue((next + self.vmctx_entries().len()) as u32)),
                ..self.with_vmctx(next)
            }
        }
    }

    /// What `make_heap` declares for memory `index`: nothing where its base
    /// is cached, else the missing links up to the list of memories and the
    /// load of the slot of the memory.
    pub open spec fn heap_entries(self, index: int, next: int) -> Seq<GlobalValueData> {
        if self.memory_bases[index] is Some {
            Seq::empty()
        } else {
            self.memory_list_entries(next).push(
                self.pointer_load(
                    self.with_memory_list(next).memory_list_base.unwrap(),
                    self.slot_offset(index),
                ),
            )
        }
    }

    /// The cache once the base of memory `index` is declared.
    pub open spec fn with_heap(self, index: int, next: int) -> AddressingCache {
        if self.memory_bases[index] is Some {
            self
        } else {
            let cache = self.with_memory_list(next);
            AddressingCache {
                memory_bases: cache.memory_bases.update(
                    index,
                    Some(GlobalValue((next + self.memory_list_entries(next).len()) as u32)),
                ),
                ..cache
            }
        }
    }

    /// Every cached reference is one that a function can hold: the largest
    /// number of 32 bits is reserved.
    pub open spec fn representable(self) -> bool {
        &&& self.vmctx_base matches Some(gv) ==> gv.0 < u32::MAX
        &&& self.globals_base matches Some(gv) ==> gv.0 < u32::MAX
        &&& self.memory_list_base matches Some(gv) ==> gv.0 < u32::MAX
        &&& forall|i: int|
            0 <= i < self.memory_bases.len() ==> (#[trigger] self.memory_bases[i] matches Some(gv)
                ==> gv.0 < u32::MAX)
    }

    /// What an access to global `index`, of type `ty`, makes of the cache and
    /// of the global values `declared` so far, and what it hands back.
    pub open spec fn global_access(
        self,
        index: int,
        ty: ValueType,
        declared: Seq<GlobalValueData>,
    ) -> (AddressingCache, Seq<GlobalValueData>, GlobalVariable) {
        let entries = self.global_entries(index, declared.len() as int);
        (
            self.with_globals_base(declared.len() as int),
            declared + entries,
            GlobalVariable::Memory {
                gv: GlobalValue((declared.len() + entries.len() - 1) as u32),
                ty,
            },
        )
    }

    /// What an access to memory `index` makes of the cache, of the global
    /// values `declared` so far and of the heaps declared so far, and which
    /// heap it hands back.
    pub open spec fn heap_access(
        self,
        index: int,
        declared: Seq<GlobalValueData>,
        heaps: Seq<HeapData>,
    ) -> (AddressingCache, Seq<GlobalValueData>, Seq<HeapData>, Heap) {
        let cache = self.with_heap(index, declared.len() as int);
        (
            cache,
            declared + self.heap_entries(index, declared.len() as int),
            heaps.push(uniform_heap(cache.memory_bases[index].unwrap())),
            Heap(heaps.len() as u32),
        )
    }
}

/// A cache that holds nothing is coherent with whatever a function declares.
pub proof fn lemma_empty_cache_is_coherent(cache: AddressingCache, declared: Seq<GlobalValueData>)
    requires
        cache.vmctx_base is None,
        cache.globals_base is None,
        cache.memory_list_base is None,
        forall|i: int| 0 <= i < cache.memory_bases.len() ==> cache.memory_bases[i] is None,
    ensures
        cache.coherent(declared),
        cache.representable(),
{
}

/// The base of a memory is derived once for a function: after one access to
/// memory `index`, its base is cached, and another access to the same memory
/// declares no global value and leaves the cache as it is.
pub proof fn lemma_heap_base_derived_once(
    cache: AddressingCache,
    index: int,
    first: int,
    later: int,
)
    requires
        0 <= index < cache.memory_bases.len(),
    ensures
        cache.with_heap(index, first).memory_bases[index] is Some,
        cache.with_heap(index, first).heap_entries(index, later) == Seq::<GlobalValueData>::empty(),
        cache.with_heap(index, first).with_heap(index, later) == cache.with_heap(index, first),
{
}

/// What is cached stays cached: an access to a global or to any memory
/// leaves every link that was derived before as it is.
pub proof fn lemma_cache_only_grows(cache: AddressingCache, index: int, next: int, memory: int)
    requires
        0 <= index < cache.memory_bases.len(),
        0 <= memory < cache.memory_bases.len(),
    ensures
        cache.vmctx_base is Some ==> cache.with_heap(index, next).vmctx_base == cache.vmctx_base
            && cache.with_globals_base(next).vmctx_base == cache.vmctx_base,
        cache.globals_base is Some ==> cache.with_heap(index, next).globals_base
            == cache.globals_base && cache.with_globals_base(next).globals_base
            == cache.globals_base,
        cache.memory_list_base is Some ==> cache.with_heap(index, next).memory_list_base
            == cache.memory_list_base && cache.with_globals_base(next).memory_list_base
            == cache.memory_list_base,
        cache.memory_bases[memory] is Some ==> cache.with_heap(index, next).memory_bases[memory]
            == cache.memory_bases[memory] && cache.with_globals_base(next).memory_bases[memory]
            == cache.memory_bases[memory],
{
}

/// What the translation of one function asks of its surroundings: it
/// declares, in the preamble of the function, how to reach the globals and
/// memories of the module from the context pointer. Each link of that chain
/// is declared at most once per function.
///
/// An environment serves one function. Used with one function only, its
/// cache is coherent with what the function declares.
pub struct FuncEnvironment<'mod_env> {
    pointer_width: PointerWidth,
    module: &'mod_env Module,
    vmctx_base: Option<GlobalValue>,
    globals_base: Option<GlobalValue>,
    memory_list_base: Option<GlobalValue>,
    memory_bases: Vec<Option<GlobalValue>>,
}

impl<'mod_env> View for FuncEnvironment<'mod_env> {
    type V = AddressingCache;

    closed spec fn view(&self) -> AddressingCache {
        AddressingCache {
            pointer_width: self.pointer_width,
            vmctx_base: self.vmctx_base,
            globals_base: self.globals_base,
            memory_list_base: self.memory_list_base,
            memory_bases: self.memory_bases@,
        }
    }
}

impl<'mod_env> FuncEnvironment<'mod_env> {
    /// The module whose functions are translated.
    pub closed spec fn module(&self) -> Module {
        *self.module
    }

    /// There is one cache slot for each memory of the module, and every
    /// cached reference is one that a function can hold. This holds of every
    /// environment that the functions of this type hand out.
    pub open spec fn wf(&self) -> bool {
        &&& self@.memory_bases.len() == self.module()@.memories.len()
        &&& self@.representable()
    }

    /// Whether global `index` can be accessed from `func`: the module has
    /// the global, the offset of its slot fits in 32 bits, and `func` has
    /// room for the global values of one more access.
    pub open spec fn can_make_global(&self, func: ir::Function, index: GlobalIndex) -> bool {
        &&& index.0 < self.module()@.globals.len()
        &&& self@.slot_offset(index.0 as int) <= i32::MAX
        &&& function_global_values(func).len() + MAX_ACCESS_ENTRIES <= u32::MAX
    }

    /// Whether memory `index` can be accessed from `func`: the module has
    /// the memory, the offset of its slot fits in 32 bits, and `func` has
    /// room for the global values of one more access and for one more heap.
    pub open spec fn can_make_heap(&self, func: ir::Function, index: MemoryIndex) -> bool {
        &&& index.0 < self.module()@.memories.len()
        &&& self@.slot_offset(index.0 as int) <= i32::MAX
        &&& function_global_values(func).len() + MAX_ACCESS_ENTRIES <= u32::MAX
        &&& function_heaps(func).len() < u32::MAX
    }

    /// An environment for one function of `module`, on a target with pointers
    /// of the given width. Nothing is cached yet.
    pub fn with_pointer_width(pointer_width: PointerWidth, module: &'mod_env Module) -> (env: Self)
        ensures
            env.wf(),
            env.module() == *module,
            env@ == (AddressingCache {
                pointer_width,
                vmctx_base: None,
                globals_base: None,
                memory_list_base: None,
                memory_bases: Seq::new(module@.memories.len(), |i: int| None),
            }),
    {
        let mut memory_bases: Vec<Option<GlobalValue>> = Vec::new();
        let count = module.memories.len();
        while memory_bases.len() < count
            invariant
                memory_bases@.len() <= count,
                forall|i: int| 0 <= i < memory_bases@.len() ==> memory_bases@[i] is None,
            decreases count - memory_bases@.len(),
        {
            memory_bases.push(None);
        }
        let env = Self {
            pointer_width,
            module,
            vmctx_base: None,
            globals_base: None,
            memory_list_base: None,
            memory_bases,
        };
        assert(env@.memory_bases =~= Seq::new(module@.memories.len(), |i: int| None));
        env
    }

    /// An environment for one function of `module`, on the target that
    /// `triple` names; none where the pointer width of that target is not
    /// known.
    pub fn new(triple: &Triple, module: &'mod_env Module) -> (env: Option<Self>)
        ensures
            env is Some <==> triple_pointer_width(*triple) is Some,
            env matches Some(env) ==> {
                &&& env.wf()
                &&& env.module() == *module
                &&& env@ == (AddressingCache {
                    pointer_width: triple_pointer_width(*triple).unwrap(),
                    vmctx_base: None,
                    globals_base: None,
                    memory_list_base: None,
                    memory_bases: Seq::new(module@.memories.len(), |i: int| None),
                })
            },
    {
        match pointer_width_of(triple) {
            Some(pointer_width) => Some(Self::with_pointer_width(pointer_width, module)),
            None => None,
        }
    }

    /// The arguments of a call: `call_args`, then the context pointer `vmctx`
    /// of the calling function as the last one.
    pub fn call_args_with_vmctx(call_args: &[Value], vmctx: Value) -> (real_call_args: Vec<Value>)
        ensures
            real_call_args@ == call_args@.push(vmctx),
    {
        let mut real_call_args: Vec<Value> = Vec::new();
        let mut i: usize = 0;
        while i < call_args.len()
            invariant
                i <= call_args@.len(),
                real_call_args@ == call_args@.subrange(0, i as int),
            decreases call_args@.len() - i,
        {
            real_call_args.push(call_args[i]);
            i = i + 1;
        }
        real_call_args.push(vmctx);
        real_call_args
    }

    /// The arguments of a call made from `func`: `call_args`, then the
    /// context pointer of `func` as the last one. There are none where `func`
    /// has no value that carries its context pointer.
    pub fn get_real_call_args(func: &ir::Function, call_args: &[Value]) -> (real_call_args: Option<
        Vec<Value>,
    >)
        ensures
            real_call_args is Some <==> function_vmctx_param(*func) is Some,
            real_call_args matches Some(args) ==> args@ == call_args@.push(
                function_vmctx_param(*func).unwrap(),
            ),
    {
        match vmctx_param(func) {
            None => None,
            Some(vmctx) => Some(Self::call_args_with_vmctx(call_args, vmctx)),
        }
    }

    /// The width of a pointer on the target.
    pub fn pointer_width(&self) -> (width: PointerWidth)
        ensures
            width == self@.pointer_width,
    {
        self.pointer_width
    }

    /// The offset of slot `index` in an array of pointers, if it fits in 32
    /// bits.
    fn slot_offset(&self, index: u32) -> (offset: Option<i32>)
        ensures
            offset is Some <==> self@.slot_offset(index as int) <= i32::MAX,
            offset matches Some(offset) ==> offset == self@.slot_offset(index as int),
    {
        let bytes: u64 = self.pointer_width.bytes() as u64;
        let wide: u64 = index as u64;
        if wide * bytes <= i32::MAX as u64 {
            Some((wide * bytes) as i32)
        } else {
            None
        }
    }

    /// The context pointer, declared in `func` unless it already is.
    fn vmctx_global(&mut self, func: &mut ir::Function) -> (vmctx: GlobalValue)
        requires
            old(self).wf(),
            function_global_values(*old(func)).len() < u32::MAX,
        ensures
            final(self).wf(),
            final(self)@ == old(self)@.with_vmctx(function_global_values(*old(func)).len() as int),
            final(self).module() == old(self).module(),
            function_global_values(*final(func)) == function_global_values(*old(func))
                + old(self)@.vmctx_entries(),
            function_heaps(*final(func)) == function_heaps(*old(func)),
            final(self)@.vmctx_base == Some(vmctx),
    {
        match self.vmctx_base {
            Some(vmctx) => vmctx,
            None => {
                let vmctx = create_vmctx_global_value(func);
                self.vmctx_base = Some(vmctx);
                vmctx
            },
        }
    }

    /// Declares in `func` how to reach global `index`, and returns the global
    /// value that holds its address together with its type.
    ///
    /// The address is loaded from slot `index` of the globals array, whose own
    /// address is loaded from the context structure at offset zero. The
    /// context pointer and the address of the array are declared once per
    /// function; the load of the slot is declared on every call.
    pub fn make_global(&mut self, func: &mut ir::Function, index: GlobalIndex) -> (global:
        GlobalVariable)
        requires
            old(self).wf(),
            old(self).can_make_global(*old(func), index),
        ensures
            final(self).wf(),
            final(self).module() == old(self).module(),
            (final(self)@, function_global_values(*final(func)), global)
                == old(self)@.global_access(
                index.0 as int,
                old(self).module()@.globals[index.0 as int].ty,
                function_global_values(*old(func)),
            ),
            function_heaps(*final(func)) == function_heaps(*old(func)),
            old(self)@.coherent(function_global_values(*old(func))) ==> final(self)@.coherent(
                function_global_values(*final(func)),
            ),
    {
        let bits = self.pointer_width.bits();
        let globals_base = match self.globals_base {
            Some(base) => base,
            None => {
                let vmctx = self.vmctx_global(func);
                let offset = self.slot_offset(GLOBALS_ARRAY_SLOT).unwrap();
                let base = create_load_global_value(func, vmctx, offset, bits);
                self.globals_base = Some(base);
                base
            },
        };
        let offset = self.slot_offset(index.0).unwrap();
        let gv = create_load_global_value(func, globals_base, offset, bits);
        GlobalVariable::Memory { gv, ty: self.module.globals[index.0 as usize].ty }
    }

    /// Declares in `func` how to reach global `index`, as
    /// [`make_global`](Self::make_global) does, where the global can be
    /// accessed; else nothing changes.
    pub fn try_make_global(&mut self, func: &mut ir::Function, index: GlobalIndex) -> (global:
        Option<GlobalVariable>)
        requires
            old(self).wf(),
        ensures
            final(self).wf(),
            final(self).module() == old(self).module(),
            match global {
                Some(global) => {
                    &&& old(self).can_make_global(*old(func), index)
                    &&& (final(self)@, function_global_values(*final(func)), global)
                        == old(self)@.global_access(
                        index.0 as int,
                        old(self).module()@.globals[index.0 as int].ty,
                        function_global_values(*old(func)),
                    )
                },
                None => {
                    &&& !old(self).can_make_global(*old(func), index)
                    &&& final(self)@ == old(self)@
                    &&& function_global_values(*final(func)) == function_global_values(*old(func))
                },
            },
            function_heaps(*final(func)) == function_heaps(*old(func)),
            old(self)@.coherent(function_global_values(*old(func))) ==> final(self)@.coherent(
                function_global_values(*final(func)),
            ),
    {
        if index.0 as usize >= self.module.globals.len() || self.slot_offset(index.0).is_none()
            || global_value_count(func) > u32::MAX as usize - MAX_ACCESS_ENTRIES {
            None
        } else {
            Some(self.make_global(func, index))
        }
    }

    /// Declares in `func` the heap through which memory `index` is accessed.
    ///
    /// The heap is anchored at the base address of the memory, which is loaded
    /// from slot `index` of the list of memories, whose own address is loaded
    /// from the context structure at an offset of one pointer. Each of these
    /// is declared once per function: where the base of the memory is cached,
    /// no global value is declared. Every heap has the same bound and guard
    /// region, so that the generated code is safe under either sandboxing
    /// strategy.
    pub fn make_heap(&mut self, func: &mut ir::Function, index: MemoryIndex) -> (heap: Heap)
        requires
            old(self).wf(),
            old(self).can_make_heap(*old(func), index),
        ensures
            final(self).wf(),
            final(self).module() == old(self).module(),
            (final(self)@, function_global_values(*final(func)), function_heaps(*final(func)), heap)
                == old(self)@.heap_access(
                index.0 as int,
                function_global_values(*old(func)),
                function_heaps(*old(func)),
            ),
            old(self)@.memory_bases[index.0 as int] is Some ==> function_global_values(*final(func))
                == function_global_values(*old(func)),
            final(self)@.memory_bases[index.0 as int] is Some,
            old(self)@.coherent(function_global_values(*old(func))) ==> final(self)@.coherent(
                function_global_values(*final(func)),
            ),
    {
        let bits = self.pointer_width.bits();
        let slot = index.0 as usize;
        let heap_addr = match self.memory_bases[slot] {
            Some(base) => base,
            None => {
                let memory_list_base = match self.memory_list_base {
                    Some(base) => base,
                    None => {
                        let vmctx = self.vmctx_global(func);
                        let offset = self.slot_offset(MEMORY_LIST_SLOT).unwrap();
                        let base = create_load_global_value(func, vmctx, offset, bits);
                        self.memory_list_base = Some(base);
                        base
                    },
                };
                let offset = self.slot_offset(index.0).unwrap();
                let base = create_load_global_value(func, memory_list_base, offset, bits);
                self.memory_bases.set(slot, Some(base));
                base
            },
        };
        create_static_heap(
            func,
            heap_addr,
            HEAP_MIN_SIZE,
            HEAP_GUARD_SIZE,
            HEAP_BOUND,
            HEAP_INDEX_BITS,
        )
    }

    /// Declares in `func` the heap through which memory `index` is accessed,
    /// as [`make_heap`](Self::make_heap) does, where the memory can be
    /// accessed; else nothing changes.
    pub fn try_make_heap(&mut self, func: &mut ir::Function, index: MemoryIndex) -> (heap: Option<
        Heap,
    >)
        requires
            old(self).wf(),
        ensures
            final(self).wf(),
            final(self).module() == old(self).module(),
            match heap {
                Some(heap) => {
                    &&& old(self).can_make_heap(*old(func), index)
                    &&& (
                        final(self)@,
                        function_global_values(*final(func)),
                        function_heaps(*final(func)),
                        heap,
                    ) == old(self)@.heap_access(
                        index.0 as int,
                        function_global_values(*old(func)),
                        function_heaps(*old(func)),
                    )
                },
                None => {
                    &&& !old(self).can_make_heap(*old(func), index)
                    &&& final(self)@ == old(self)@
                    &&& function_global_values(*final(func)) == function_global_values(*old(func))
                    &&& function_heaps(*final(func)) == function_heaps(*old(func))
                },
            },
            old(self)@.coherent(function_global_values(*old(func))) ==> final(self)@.coherent(
                function_global_values(*final(func)),
            ),
    {
        if index.0 as usize >= self.module.memories.len() || self.slot_offset(index.0).is_none()
            || global_value_count(func) > u32::MAX as usize - MAX_ACCESS_ENTRIES || heap_count(func)
            >= u32::MAX as usize {
            None
        } else {
            Some(self.make_heap(func, index))
        }
    }
}

} // verus!
