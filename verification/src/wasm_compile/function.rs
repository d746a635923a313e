//! The preamble of a function under translation, as far as addressing code
//! needs it: the global values and heaps the function declares, and the value
//! that carries its context pointer.
//!
//! The function itself is Cranelift's `ir::Function`. Verus sees nothing
//! inside it, so what it declares is named by spec functions, and each
//! operation on it is a small function whose contract is taken on trust from
//! Cranelift's source.

use vstd::prelude::*;
use cranelift_codegen::ir;
use cranelift_codegen::ir::immediates::{Imm64, Offset32};
use cranelift_entity::EntityRef;
use crate::module::ValueType;

verus! {

#[verifier::external_type_specification]
#[verifier::external_body]
pub struct ExFunction(ir::Function);

/// A reference to a global value declared in a function's preamble: its
/// position among the function's global values.
#[derive(Copy, Clone, PartialEq, Eq, Debug, Structural)]
pub struct GlobalValue(pub u32);

/// A reference to a heap declared in a function's preamble.
#[derive(Copy, Clone, PartialEq, Eq, Debug, Structural)]
pub struct Heap(pub u32);

/// A reference to an SSA value of a function.
#[derive(Copy, Clone, PartialEq, Eq, Debug, Structural)]
pub struct Value(pub u32);

/// A reference to an extended basic block of a function.
#[derive(Copy, Clone, PartialEq, Eq, Debug, Structural)]
pub struct Ebb(pub u32);

/// What a function declares for one global value.
#[derive(Copy, Clone, PartialEq, Eq, Debug, Structural)]
pub enum GlobalValueData {
    /// The address of the context structure.
    VMContext,
    /// The value loaded from `offset` bytes behind the pointer that `base`
    /// holds.
    Load { base: GlobalValue, offset: i32, global_type: ValueType },
    /// A declaration of a kind that addressing code never makes: an offset
    /// from another global value, a symbol, or a load of another type.
    Other,
}

/// How a heap is bounded.
#[derive(Copy, Clone, PartialEq, Eq, Debug, Structural)]
pub enum HeapStyle {
    /// The bound is held by a global value and may change.
    Dynamic { bound_gv: GlobalValue },
    /// The heap never moves and is `bound` bytes long, guard pages excluded.
    Static { bound: i64 },
}

/// What a function declares for one heap.
#[derive(Copy, Clone, PartialEq, Eq, Debug, Structural)]
pub struct HeapData {
    /// The global value that holds the address of the heap's first byte.
    pub base: GlobalValue,
    /// The size below which no access needs a check.
    pub min_size: i64,
    /// The size of the guard region behind the heap.
    pub guard_size: i64,
    pub style: HeapStyle,
    /// The type of the indices into the heap.
    pub index_type: ValueType,
}

/// The global values that `func` declares, in the order of their references.
pub uninterp spec fn function_global_values(func: ir::Function) -> Seq<GlobalValueData>;

/// The heaps that `func` declares, in the order of their references.
pub uninterp spec fn function_heaps(func: ir::Function) -> Seq<HeapData>;

/// The entry block of `func`: the first block of its layout, if it has one.
pub uninterp spec fn function_entry_block(func: ir::Function) -> Option<Ebb>;

/// Whether the data flow graph of `func` has the block `ebb`.
pub uninterp spec fn function_ebb_is_valid(func: ir::Function, ebb: Ebb) -> bool;

/// The parameters of block `ebb` of `func`, in their order.
pub uninterp spec fn function_ebb_params(func: ir::Function, ebb: Ebb) -> Seq<Value>;

/// The position, in the signature of `func`, of the last parameter that
/// carries a context pointer, if there is such a parameter.
pub uninterp spec fn function_vmctx_param_index(func: ir::Function) -> Option<usize>;

/// The value that carries the context pointer of `func`: the parameter of
/// the entry block at the position of the context pointer in the signature.
/// There is none where the function has no entry block, where its signature
/// has no context pointer, or where the entry block has no parameter at that
/// position.
pub open spec fn function_vmctx_param(func: ir::Function) -> Option<Value> {
    match (function_entry_block(func), function_vmctx_param_index(func)) {
        (Some(ebb), Some(index)) => if ebb.0 < u32::MAX && function_ebb_is_valid(func, ebb)
            && index < function_ebb_params(func, ebb).len() {
            Some(function_ebb_params(func, ebb)[index as int])
        } else {
            None
        },
        _ => None,
    }
}

/// `Function::create_global_value` with `GlobalValueData::VMContext`: the
/// declaration is appended to the function's global values, and its reference
/// is its position there. Nothing else of the function changes.
#[verifier::external_body]
pub(crate) fn create_vmctx_global_value(func: &mut ir::Function) -> (gv: GlobalValue)
    requires
        function_global_values(*old(func)).len() < u32::MAX,
    ensures
        function_global_values(*final(func)) == function_global_values(*old(func)).push(
            GlobalValueData::VMContext,
        ),
        gv.0 == function_global_values(*old(func)).len(),
        function_heaps(*final(func)) == function_heaps(*old(func)),
{
    let gv = func.create_global_value(ir::GlobalValueData::VMContext);
    GlobalValue(gv.index() as u32)
}

/// `Function::create_global_value` with `GlobalValueData::Load` of the integer
/// type that `Type::int(bits)` gives: the declaration is appended to the
/// function's global values, and its reference is its position there. Nothing
/// else of the function changes.
#[verifier::external_body]
pub(crate) fn create_load_global_value(
    func: &mut ir::Function,
    base: GlobalValue,
    offset: i32,
    bits: u16,
) -> (gv: GlobalValue)
    requires
        function_global_values(*old(func)).len() < u32::MAX,
        base.0 < u32::MAX,
        ValueType::integer(bits) is Some,
    ensures
        function_global_values(*final(func)) == function_global_values(*old(func)).push(
            GlobalValueData::Load { base, offset, global_type: ValueType::integer(bits).unwrap() },
        ),
        gv.0 == function_global_values(*old(func)).len(),
        function_heaps(*final(func)) == function_heaps(*old(func)),
{
    let data = ir::GlobalValueData::Load {
        base: ir::GlobalValue::new(base.0 as usize),
        offset: Offset32::new(offset),
        global_type: ir::Type::int(bits).unwrap(),
    };
    GlobalValue(func.create_global_value(data).index() as u32)
}

/// `Function::create_heap` with a static heap whose index type is the integer
/// type that `Type::int(index_bits)` gives: the declaration is appended to the
/// function's heaps, and its reference is its position there. Nothing else of
/// the function changes.
#[verifier::external_body]
pub(crate) fn create_static_heap(
    func: &mut ir::Function,
    base: GlobalValue,
    min_size: i64,
    guard_size: i64,
    bound: i64,
    index_bits: u16,
) -> (heap: Heap)
    requires
        function_heaps(*old(func)).len() < u32::MAX,
        base.0 < u32::MAX,
        ValueType::integer(index_bits) is Some,
    ensures
        function_heaps(*final(func)) == function_heaps(*old(func)).push(
            HeapData {
                base,
                min_size,
                guard_size,
                style: HeapStyle::Static { bound },
                index_type: ValueType::integer(index_bits).unwrap(),
            },
        ),
        heap.0 == function_heaps(*old(func)).len(),
        function_global_values(*final(func)) == function_global_values(*old(func)),
{
    let data = ir::HeapData {
        base: ir::GlobalValue::new(base.0 as usize),
        min_size: Imm64::new(min_size),
        guard_size: Imm64::new(guard_size),
        style: ir::HeapStyle::Static { bound: Imm64::new(bound) },
        index_type: ir::Type::int(index_bits).unwrap(),
    };
    Heap(func.create_heap(data).index() as u32)
}

/// `PrimaryMap::len` on the global values of the function: how many the
/// function declares.
#[verifier::external_body]
pub(crate) fn global_value_count(func: &ir::Function) -> (count: usize)
    ensures
        count == function_global_values(*func).len(),
{
    func.global_values.len()
}

/// `PrimaryMap::len` on the heaps of the function: how many the function
/// declares.
#[verifier::external_body]
pub(crate) fn heap_count(func: &ir::Function) -> (count: usize)
    ensures
        count == function_heaps(*func).len(),
{
    func.heaps.len()
}

/// `Layout::entry_block` on the layout of the function: the first block of
/// the layout, if there is one.
#[verifier::external_body]
pub(crate) fn entry_block(func: &ir::Function) -> (ebb: Option<Ebb>)
    ensures
        ebb == function_entry_block(*func),
{
    func.layout.entry_block().map(|ebb| Ebb(ebb.index() as u32))
}

/// `DataFlowGraph::ebb_is_valid` on the data flow graph of the function:
/// whether the graph has the block.
#[verifier::external_body]
pub(crate) fn ebb_is_valid(func: &ir::Function, ebb: Ebb) -> (valid: bool)
    requires
        ebb.0 < u32::MAX,
    ensures
        valid == function_ebb_is_valid(*func, ebb),
{
    func.dfg.ebb_is_valid(ir::Ebb::new(ebb.0 as usize))
}

/// `DataFlowGraph::ebb_params` on the data flow graph of the function: the
/// parameters of the block. It panics on a block that the graph does not
/// have.
#[verifier::external_body]
pub(crate) fn ebb_params(func: &ir::Function, ebb: Ebb) -> (params: Vec<Value>)
    requires
        ebb.0 < u32::MAX,
        function_ebb_is_valid(*func, ebb),
    ensures
        params@ == function_ebb_params(*func, ebb),
{
    let params = func.dfg.ebb_params(ir::Ebb::new(ebb.0 as usize));
    params.iter().map(|value| Value(value.index() as u32)).collect()
}

/// `Signature::special_param_index` on the signature of the function, for
/// the purpose `ArgumentPurpose::VMContext`: the position of the last
/// parameter of that purpose, if there is one.
#[verifier::external_body]
pub(crate) fn vmctx_param_index(func: &ir::Function) -> (index: Option<usize>)
    ensures
        index == function_vmctx_param_index(*func),
{
    func.signature.special_param_index(ir::ArgumentPurpose::VMContext)
}

/// The value that carries the context pointer of `func`, if there is one.
pub fn vmctx_param(func: &ir::Function) -> (param: Option<Value>)
    ensures
        param == function_vmctx_param(*func),
{
    let ebb = match entry_block(func) {
        Some(ebb) => ebb,
        None => return None,
    };
    let index = match vmctx_param_index(func) {
        Some(index) => index,
        None => return None,
    };
    if ebb.0 == u32::MAX || !ebb_is_valid(func, ebb) {
        return None;
    }
    let params = ebb_params(func, ebb);
    if index < params.len() {
        Some(params[index])
    } else {
        None
    }
}

} // verus!
