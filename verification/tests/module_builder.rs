use std::str::FromStr;

use cranelift_wasm::{translate_module, DummyEnvironment, Memory, Table};
use nucleus::module::{
    AbiParam, ArgumentExtension, ArgumentLoc, ArgumentPurpose, CallConv, DataInitializer,
    DefinedFuncIndex, Export, FuncIndex, Global, GlobalIndex, GlobalInit, LazyContents,
    MemoryIndex, Module, Signature, SignatureIndex, TableElements, TableIndex, ValueType,
};
use nucleus::target::PointerWidth;
use nucleus::wasm_compile::environ::{
    get_func_name, DeclareError, ExternalName, ModuleEnvironment, WasmError, FUNC_NAMESPACE,
};
use target_lexicon::Triple;

fn signature(params: &[ValueType], returns: &[ValueType]) -> Signature {
    Signature {
        params: params.iter().map(|ty| AbiParam::new(*ty)).collect(),
        returns: returns.iter().map(|ty| AbiParam::new(*ty)).collect(),
        call_conv: CallConv::SystemV,
    }
}

#[test]
fn new_module_declares_nothing() {
    let module = Module::new();

    assert!(module.signatures.is_empty());
    assert!(module.functions.is_empty());
    assert!(module.imported_funcs.is_empty());
    assert!(module.globals.is_empty());
    assert!(module.table.is_empty());
    assert!(module.memories.is_empty());
    assert!(module.table_elements.is_empty());
    assert_eq!(module.exports.len(), 0);
    assert_eq!(module.start_func, None);
}

#[test]
fn new_lazy_contents_are_empty() {
    let lazy = LazyContents::new();

    assert!(lazy.data_initializers.is_empty());
    assert!(lazy.func_body_inputs.is_empty());
}

#[test]
fn ordinary_and_special_parameters() {
    assert_eq!(
        AbiParam::new(ValueType::F32),
        AbiParam {
            value_type: ValueType::F32,
            purpose: ArgumentPurpose::Normal,
            extension: ArgumentExtension::Unextended,
            location: ArgumentLoc::Unassigned,
        }
    );
    assert_eq!(
        AbiParam::special(ValueType::I64, ArgumentPurpose::VMContext),
        AbiParam {
            value_type: ValueType::I64,
            purpose: ArgumentPurpose::VMContext,
            extension: ArgumentExtension::Unextended,
            location: ArgumentLoc::Unassigned,
        }
    );
}

#[test]
fn signature_with_context_pointer() {
    let sig = signature(&[ValueType::I32, ValueType::F64], &[ValueType::I64]);

    let with_vmctx = sig.with_vmctx(PointerWidth::U32);

    assert_eq!(
        with_vmctx.params,
        vec![
            AbiParam::new(ValueType::I32),
            AbiParam::new(ValueType::F64),
            AbiParam::special(ValueType::I32, ArgumentPurpose::VMContext),
        ]
    );
    assert_eq!(with_vmctx.returns, sig.returns);
    assert_eq!(with_vmctx.call_conv, CallConv::SystemV);
}

#[test]
fn declared_signature_gets_one_trailing_context_pointer() {
    let mut module = Module::new();
    let sig = signature(&[ValueType::I32, ValueType::I64], &[ValueType::F32]);
    {
        let mut env = ModuleEnvironment::with_pointer_width(PointerWidth::U64, &mut module);
        env.declare_signature(&sig);
        assert_eq!(env.get_signature(SignatureIndex(0)).params.len(), 3);
    }

    assert_eq!(module.signatures.len(), 1);
    let stored = &module.signatures[0];
    assert_eq!(stored.params.len(), sig.params.len() + 1);
    assert_eq!(&stored.params[..2], &sig.params[..]);
    assert_eq!(stored.params[2], AbiParam::special(ValueType::I64, ArgumentPurpose::VMContext));
    assert_eq!(stored.returns, sig.returns);
    assert_eq!(stored.call_conv, sig.call_conv);
    assert_eq!(sig.params.len(), 2);
}

#[test]
fn signature_without_parameters_gets_the_context_pointer() {
    let mut module = Module::new();
    {
        let mut env = ModuleEnvironment::with_pointer_width(PointerWidth::U16, &mut module);
        env.declare_signature(&signature(&[], &[]));
        env.declare_signature(&signature(&[ValueType::F64], &[]));
    }

    assert_eq!(
        module.signatures[0].params,
        vec![AbiParam::special(ValueType::I16, ArgumentPurpose::VMContext)]
    );
    assert_eq!(
        module.signatures[1].params,
        vec![
            AbiParam::new(ValueType::F64),
            AbiParam::special(ValueType::I16, ArgumentPurpose::VMContext),
        ]
    );
}

#[test]
fn imports_then_defined_functions() {
    let mut module = Module::new();
    {
        let mut env = ModuleEnvironment::with_pointer_width(PointerWidth::U64, &mut module);
        assert_eq!(env.declare_func_import(SignatureIndex(1), "env", "print"), Ok(()));
        assert_eq!(env.declare_func_import(SignatureIndex(0), "env", "exit"), Ok(()));
        assert_eq!(env.get_num_func_imports(), 2);
        env.declare_func_type(SignatureIndex(2));
        env.declare_func_type(SignatureIndex(0));
        assert_eq!(env.get_num_func_imports(), 2);
        assert_eq!(env.get_func_type(FuncIndex(0)), SignatureIndex(1));
        assert_eq!(env.get_func_type(FuncIndex(2)), SignatureIndex(2));
    }

    assert_eq!(
        module.functions,
        vec![SignatureIndex(1), SignatureIndex(0), SignatureIndex(2), SignatureIndex(0)]
    );
    assert_eq!(
        module.imported_funcs,
        vec![
            ("env".to_string(), "print".to_string()),
            ("env".to_string(), "exit".to_string()),
        ]
    );
    assert!(module.imported_funcs.len() <= module.functions.len());
}

#[test]
fn import_after_defined_function_is_rejected() {
    let mut module = Module::new();
    {
        let mut env = ModuleEnvironment::with_pointer_width(PointerWidth::U64, &mut module);
        assert_eq!(env.declare_func_import(SignatureIndex(0), "a", "b"), Ok(()));
        env.declare_func_type(SignatureIndex(0));
        assert_eq!(
            env.declare_func_import(SignatureIndex(0), "c", "d"),
            Err(DeclareError::ImportAfterDefinedFunction)
        );
        env.declare_func_type(SignatureIndex(1));
        assert_eq!(
            env.declare_func_import(SignatureIndex(0), "e", "f"),
            Err(DeclareError::ImportAfterDefinedFunction)
        );
    }

    assert_eq!(module.functions, vec![SignatureIndex(0), SignatureIndex(0), SignatureIndex(1)]);
    assert_eq!(module.imported_funcs, vec![("a".to_string(), "b".to_string())]);
}

/// The table of four to eight functions that the decoder reads from a module
/// with one table.
fn decoded_table() -> Table {
    let binary = [
        0x00, 0x61, 0x73, 0x6d, 0x01, 0x00, 0x00, 0x00, 0x04, 0x05, 0x01, 0x70, 0x01, 0x04, 0x08,
    ];
    let mut decoder = DummyEnvironment::with_triple(Triple::default());
    translate_module(&binary, &mut decoder).unwrap();
    decoder.info.tables[0].entity
}

#[test]
fn globals_tables_and_memories_are_appended() {
    let mut module = Module::new();
    let global = Global {
        ty: ValueType::F32,
        mutability: false,
        initializer: GlobalInit::F32Const(0x3f80_0000),
    };
    let imported = Global { ty: ValueType::I64, mutability: true, initializer: GlobalInit::Import };
    {
        let mut env = ModuleEnvironment::with_pointer_width(PointerWidth::U64, &mut module);
        env.declare_global(global);
        env.declare_global(imported);
        env.declare_table(decoded_table());
        env.declare_memory(Memory { pages_count: 1, maximum: None, shared: false });
        env.declare_memory(Memory { pages_count: 2, maximum: Some(3), shared: true });
        assert_eq!(*env.get_global(GlobalIndex(1)), imported);
    }

    assert_eq!(module.globals, vec![global, imported]);
    assert_eq!(module.table.len(), 1);
    assert_eq!((module.table[0].size, module.table[0].maximum), (4, Some(8)));
    let memories: Vec<_> = module
        .memories
        .iter()
        .map(|memory| (memory.pages_count, memory.maximum, memory.shared))
        .collect();
    assert_eq!(memories, vec![(1, None, false), (2, Some(3), true)]);
}

#[test]
fn table_elements_at_a_constant_offset() {
    let mut module = Module::new();
    {
        let mut env = ModuleEnvironment::with_pointer_width(PointerWidth::U64, &mut module);
        assert_eq!(
            env.declare_table_elements(TableIndex(0), None, 3, vec![FuncIndex(2), FuncIndex(0)]),
            Ok(())
        );
    }

    assert_eq!(
        module.table_elements,
        vec![TableElements {
            table_index: TableIndex(0),
            base: None,
            offset: 3,
            elements: vec![FuncIndex(2), FuncIndex(0)],
        }]
    );
}

#[test]
fn table_elements_relative_to_a_global_are_rejected() {
    let mut module = Module::new();
    {
        let mut env = ModuleEnvironment::with_pointer_width(PointerWidth::U64, &mut module);
        assert_eq!(
            env.declare_table_elements(TableIndex(0), Some(GlobalIndex(0)), 0, vec![FuncIndex(1)]),
            Err(DeclareError::GlobalOffsetUnsupported)
        );
    }

    assert!(module.table_elements.is_empty());
}

#[test]
fn data_initializers_borrow_the_buffer() {
    let buffer: Vec<u8> = vec![1, 2, 3, 4, 5, 6];
    let mut module = Module::new();
    let mut env = ModuleEnvironment::with_pointer_width(PointerWidth::U64, &mut module);

    assert_eq!(env.declare_data_initialization(MemoryIndex(0), None, 16, &buffer[2..5]), Ok(()));
    assert_eq!(
        env.declare_data_initialization(MemoryIndex(0), Some(GlobalIndex(1)), 0, &buffer[..]),
        Err(DeclareError::GlobalOffsetUnsupported)
    );

    let translation = env.translate(Ok(())).unwrap();
    assert_eq!(
        translation.lazy.data_initializers,
        vec![DataInitializer {
            memory_index: MemoryIndex(0),
            base: None,
            offset: 16,
            data: &buffer[2..5],
        }]
    );
    assert_eq!(
        translation.lazy.data_initializers[0].data.as_ptr(),
        buffer[2..].as_ptr()
    );
}

#[test]
fn exports_by_name() {
    let mut module = Module::new();
    {
        let mut env = ModuleEnvironment::with_pointer_width(PointerWidth::U64, &mut module);
        env.declare_func_export(FuncIndex(3), "main");
        env.declare_table_export(TableIndex(0), "table");
        env.declare_memory_export(MemoryIndex(1), "memory");
        env.declare_global_export(GlobalIndex(2), "counter");
    }

    assert_eq!(module.exports.len(), 4);
    assert_eq!(module.exports.get("main"), Some(&Export::Function(FuncIndex(3))));
    assert_eq!(module.exports.get("table"), Some(&Export::Table(TableIndex(0))));
    assert_eq!(module.exports.get("memory"), Some(&Export::Memory(MemoryIndex(1))));
    assert_eq!(module.exports.get("counter"), Some(&Export::Global(GlobalIndex(2))));
    assert_eq!(module.exports.get("other"), None);
}

#[test]
fn later_export_of_a_name_wins() {
    let mut module = Module::new();
    {
        let mut env = ModuleEnvironment::with_pointer_width(PointerWidth::U64, &mut module);
        env.declare_func_export(FuncIndex(0), "entry");
        env.declare_memory_export(MemoryIndex(0), "entry");
        env.declare_func_export(FuncIndex(5), "entry");
    }

    assert_eq!(module.exports.len(), 1);
    assert_eq!(module.exports.get("entry"), Some(&Export::Function(FuncIndex(5))));
}

#[test]
fn start_function_is_set_once() {
    let mut module = Module::new();
    {
        let mut env = ModuleEnvironment::with_pointer_width(PointerWidth::U64, &mut module);
        assert_eq!(env.declare_start_func(FuncIndex(4)), Ok(()));
        assert_eq!(
            env.declare_start_func(FuncIndex(7)),
            Err(DeclareError::StartFunctionAlreadyDeclared)
        );
    }

    assert_eq!(module.start_func, Some(FuncIndex(4)));
}

#[test]
fn function_bodies_are_recorded_in_order_without_copying() {
    let buffer: Vec<u8> = vec![0x00, 0x0b, 0x01, 0x0b, 0xff];
    let mut module = Module::new();
    let mut env = ModuleEnvironment::with_pointer_width(PointerWidth::U64, &mut module);

    assert_eq!(env.define_function_body(&buffer[0..2]), Ok(()));
    assert_eq!(env.define_function_body(&buffer[2..4]), Ok(()));

    let translation = env.translate(Ok(())).unwrap();
    assert_eq!(translation.lazy.func_body_inputs.len(), 2);
    assert_eq!(translation.lazy.func_body_inputs[0], &[0x00u8, 0x0b][..]);
    assert_eq!(translation.lazy.func_body_inputs[1], &[0x01u8, 0x0b][..]);
    assert_eq!(translation.lazy.func_body_inputs[1].as_ptr(), buffer[2..].as_ptr());
}

#[test]
fn translation_of_a_decoded_module() {
    let mut module = Module::new();
    let mut env = ModuleEnvironment::with_pointer_width(PointerWidth::U32, &mut module);
    env.declare_func_type(SignatureIndex(0));
    env.declare_memory(Memory { pages_count: 1, maximum: None, shared: false });

    let translation = env.translate(Ok(())).unwrap();

    assert_eq!(translation.pointer_width, PointerWidth::U32);
    assert_eq!(translation.module.functions, vec![SignatureIndex(0)]);
    assert_eq!(translation.module.memories.len(), 1);
    assert!(translation.lazy.func_body_inputs.is_empty());
}

#[test]
fn decoder_errors_are_passed_on() {
    let errors = vec![
        WasmError::InvalidWebAssembly { message: "bad magic", offset: 4 },
        WasmError::Unsupported("threads"),
        WasmError::ImplLimitExceeded,
    ];
    for error in errors {
        let mut module = Module::new();
        let env = ModuleEnvironment::with_pointer_width(PointerWidth::U64, &mut module);

        let outcome = env.translate(Err(error.clone()));

        assert_eq!(outcome.err(), Some(error));
    }
}

#[test]
fn builder_for_a_triple() {
    let mut module = Module::new();
    let triple = Triple::from_str("aarch64-unknown-linux-gnu").unwrap();
    {
        let mut env = ModuleEnvironment::new(&triple, &mut module).unwrap();
        assert_eq!(env.pointer_width, PointerWidth::U64);
        assert_eq!(env.pointer_type(), ValueType::I64);
        env.declare_signature(&signature(&[], &[]));
    }
    assert_eq!(
        module.signatures[0].params,
        vec![AbiParam::special(ValueType::I64, ArgumentPurpose::VMContext)]
    );

    let narrow = Triple::from_str("riscv32-unknown-unknown").unwrap();
    let env = ModuleEnvironment::new(&narrow, &mut module).unwrap();
    assert_eq!(env.pointer_type(), ValueType::I32);
}

#[test]
fn no_builder_for_an_unknown_architecture() {
    let mut module = Module::new();
    module.functions.push(SignatureIndex(0));

    assert!(ModuleEnvironment::new(&Triple::default(), &mut module).is_none());
    assert_eq!(module.functions, vec![SignatureIndex(0)]);
}

#[test]
fn function_names_are_user_names_in_namespace_zero() {
    assert_eq!(FUNC_NAMESPACE, 0);
    assert_eq!(get_func_name(FuncIndex(0)), ExternalName::User { namespace: 0, index: 0 });
    assert_eq!(get_func_name(FuncIndex(7)), ExternalName::User { namespace: 0, index: 7 });
    assert_eq!(
        get_func_name(FuncIndex(u32::MAX)),
        ExternalName::User { namespace: 0, index: u32::MAX }
    );
}

#[test]
fn function_names_differ_and_repeat() {
    let indices = [0u32, 1, 2, 41, 42, 1000, u32::MAX];
    for a in indices {
        assert_eq!(get_func_name(FuncIndex(a)), get_func_name(FuncIndex(a)));
        for b in indices {
            if a != b {
                assert_ne!(get_func_name(FuncIndex(a)), get_func_name(FuncIndex(b)));
            }
        }
    }
}

fn module_of(imports: usize, defined: usize) -> Module {
    let mut module = Module::new();
    let mut env = ModuleEnvironment::with_pointer_width(PointerWidth::U64, &mut module);
    for _ in 0..imports {
        env.declare_func_import(SignatureIndex(0), "env", "f").unwrap();
    }
    for _ in 0..defined {
        env.declare_func_type(SignatureIndex(0));
    }
    module
}

#[test]
fn defined_functions_follow_the_imports() {
    let module = module_of(2, 3);

    assert_eq!(module.func_index(DefinedFuncIndex(0)), Some(FuncIndex(2)));
    assert_eq!(module.func_index(DefinedFuncIndex(2)), Some(FuncIndex(4)));
    assert_eq!(module.func_index(DefinedFuncIndex(3)), None);
    assert_eq!(module.func_index(DefinedFuncIndex(u32::MAX)), None);
    assert_eq!(module.defined_func_index(FuncIndex(0)), None);
    assert_eq!(module.defined_func_index(FuncIndex(1)), None);
    assert_eq!(module.defined_func_index(FuncIndex(2)), Some(DefinedFuncIndex(0)));
    assert_eq!(module.defined_func_index(FuncIndex(4)), Some(DefinedFuncIndex(2)));
    assert_eq!(module.defined_func_index(FuncIndex(5)), None);
}

#[test]
fn module_of_imports_only_defines_nothing() {
    let module = module_of(3, 0);

    assert_eq!(module.func_index(DefinedFuncIndex(0)), None);
    assert_eq!(module.defined_func_index(FuncIndex(2)), None);
    assert_eq!(module.defined_func_index(FuncIndex(3)), None);
}

#[test]
fn module_without_imports_numbers_alike() {
    let module = module_of(0, 2);

    assert_eq!(module.func_index(DefinedFuncIndex(1)), Some(FuncIndex(1)));
    assert_eq!(module.defined_func_index(FuncIndex(1)), Some(DefinedFuncIndex(1)));
    assert_eq!(module.func_index(DefinedFuncIndex(2)), None);
}
