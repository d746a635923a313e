use cranelift_codegen::binemit::Reloc;
use cranelift_codegen::ir::JumpTable;
use cranelift_entity::EntityRef;
use nucleus::module::{DefinedFuncIndex, FuncIndex, Module};
use nucleus::target::PointerWidth;
use nucleus::wasm_compile::environ::{get_func_name, ExternalName, ModuleEnvironment};
use nucleus::wasm_compile::{
    compile_module, Compilation, CompiledFunction, RelocError, RelocSink, Relocation,
    RelocationTarget, CURRENT_MEMORY, GROW_MEMORY,
};

fn testcase(name: &str) -> ExternalName {
    ExternalName::TestCase(name.as_bytes().to_vec())
}

fn relocation(target: RelocationTarget, offset: u32, addend: i64) -> Relocation {
    Relocation { reloc: Reloc::Abs8, reloc_target: target, offset, addend }
}

fn parts(relocation: &Relocation) -> (String, RelocationTarget, u32, i64) {
    (
        format!("{:?}", relocation.reloc),
        relocation.reloc_target,
        relocation.offset,
        relocation.addend,
    )
}

#[test]
fn names_of_the_runtime_routines() {
    assert_eq!(&GROW_MEMORY[..], b"grow_memory");
    assert_eq!(&CURRENT_MEMORY[..], b"current_memory");
}

#[test]
fn grow_memory_is_a_runtime_routine() {
    assert_eq!(
        RelocationTarget::of_name(&testcase("grow_memory")),
        Some(RelocationTarget::GrowMemory)
    );
}

#[test]
fn current_memory_is_a_runtime_routine() {
    assert_eq!(
        RelocationTarget::of_name(&testcase("current_memory")),
        Some(RelocationTarget::CurrentMemory)
    );
}

#[test]
fn user_name_stands_for_the_function_of_its_index() {
    assert_eq!(
        RelocationTarget::of_name(&ExternalName::User { namespace: 0, index: 7 }),
        Some(RelocationTarget::UserFunc(FuncIndex(7)))
    );
    assert_eq!(
        RelocationTarget::of_name(&ExternalName::User { namespace: 0, index: 0 }),
        Some(RelocationTarget::UserFunc(FuncIndex(0)))
    );
}

#[test]
fn name_of_a_function_leads_back_to_the_function() {
    for index in [0u32, 1, 7, 65536, u32::MAX] {
        assert_eq!(
            RelocationTarget::of_name(&get_func_name(FuncIndex(index))),
            Some(RelocationTarget::UserFunc(FuncIndex(index)))
        );
    }
}

#[test]
fn other_names_are_unknown() {
    assert_eq!(RelocationTarget::of_name(&testcase("")), None);
    assert_eq!(RelocationTarget::of_name(&testcase("grow_memor")), None);
    assert_eq!(RelocationTarget::of_name(&testcase("grow_memory_")), None);
    assert_eq!(RelocationTarget::of_name(&testcase("Grow_memory")), None);
    assert_eq!(RelocationTarget::of_name(&testcase("current_memorx")), None);
    assert_eq!(RelocationTarget::of_name(&testcase("memory_grow")), None);
    assert_eq!(RelocationTarget::of_name(&ExternalName::LibCall), None);
}

#[test]
fn new_sink_is_empty() {
    assert!(RelocSink::new().into_relocs().is_empty());
}

#[test]
fn external_relocations_are_recorded_in_order() {
    let mut sink = RelocSink::new();

    assert_eq!(
        sink.reloc_external(
            4,
            Reloc::X86CallPCRel4,
            &ExternalName::User { namespace: 0, index: 7 },
            -4
        ),
        Ok(())
    );
    assert_eq!(sink.reloc_external(12, Reloc::Abs8, &testcase("grow_memory"), 0), Ok(()));
    assert_eq!(sink.reloc_external(30, Reloc::Abs4, &testcase("current_memory"), 8), Ok(()));

    let relocs = sink.into_relocs();
    let recorded: Vec<_> = relocs.iter().map(parts).collect();
    assert_eq!(
        recorded,
        vec![
            ("X86CallPCRel4".to_string(), RelocationTarget::UserFunc(FuncIndex(7)), 4, -4),
            ("Abs8".to_string(), RelocationTarget::GrowMemory, 12, 0),
            ("Abs4".to_string(), RelocationTarget::CurrentMemory, 30, 8),
        ]
    );
}

#[test]
fn unknown_name_is_reported_and_not_recorded() {
    let mut sink = RelocSink::new();
    assert_eq!(sink.reloc_external(0, Reloc::Abs8, &testcase("grow_memory"), 0), Ok(()));

    assert_eq!(
        sink.reloc_external(8, Reloc::Abs8, &testcase("shrink_memory"), 0),
        Err(RelocError::UnknownExternalName)
    );
    assert_eq!(
        sink.reloc_external(8, Reloc::Abs8, &ExternalName::LibCall, 0),
        Err(RelocError::UnknownExternalName)
    );

    assert_eq!(sink.into_relocs().len(), 1);
}

#[test]
fn block_relocations_fail_loudly() {
    let mut sink = RelocSink::new();

    assert_eq!(
        sink.reloc_ebb(0, Reloc::X86PCRel4, 16),
        Err(RelocError::BlockRelocationUnsupported)
    );

    assert!(sink.into_relocs().is_empty());
}

#[test]
fn jump_table_relocations_fail_loudly() {
    let mut sink = RelocSink::new();

    assert_eq!(
        sink.reloc_jt(0, Reloc::X86PCRel4, JumpTable::new(0)),
        Err(RelocError::JumpTableRelocationUnsupported)
    );

    assert!(sink.into_relocs().is_empty());
}

#[test]
fn compilation_holds_code_by_index() {
    let compilation = Compilation::new(vec![vec![0xc3], vec![], vec![0x90, 0xc3]]);

    assert_eq!(compilation.len(), 3);
    assert_eq!(compilation.get(DefinedFuncIndex(0)), Some(&vec![0xc3]));
    assert_eq!(compilation.get(DefinedFuncIndex(1)), Some(&vec![]));
    assert_eq!(compilation.get(DefinedFuncIndex(2)), Some(&vec![0x90, 0xc3]));
    assert_eq!(compilation.get(DefinedFuncIndex(3)), None);
    assert_eq!(compilation.get(DefinedFuncIndex(u32::MAX)), None);
}

#[test]
fn empty_compilation() {
    let compilation = Compilation::new(Vec::new());

    assert_eq!(compilation.len(), 0);
    assert_eq!(compilation.get(DefinedFuncIndex(0)), None);
}

fn with_translation<R>(
    bodies: usize,
    run: impl FnOnce(&nucleus::wasm_compile::environ::ModuleTranslation) -> R,
) -> R {
    let buffer = vec![0x0bu8; bodies];
    let mut module = Module::new();
    let mut env = ModuleEnvironment::with_pointer_width(PointerWidth::U64, &mut module);
    for i in 0..bodies {
        env.define_function_body(&buffer[i..i + 1]).unwrap();
    }
    let translation = env.translate(Ok(())).unwrap();
    run(&translation)
}

#[test]
fn module_of_compiled_functions() {
    let outcomes = vec![
        Ok(CompiledFunction {
            code: vec![0xc3],
            relocs: vec![relocation(RelocationTarget::UserFunc(FuncIndex(1)), 1, -4)],
        }),
        Ok(CompiledFunction { code: vec![0x90, 0xc3], relocs: vec![] }),
        Ok(CompiledFunction {
            code: vec![1, 2, 3],
            relocs: vec![
                relocation(RelocationTarget::GrowMemory, 2, 0),
                relocation(RelocationTarget::CurrentMemory, 9, 3),
            ],
        }),
    ];

    let (compilation, relocations) =
        with_translation(3, |translation| compile_module(translation, outcomes)).unwrap();

    assert_eq!(compilation.len(), 3);
    assert_eq!(relocations.len(), 3);
    assert_eq!(compilation.get(DefinedFuncIndex(0)), Some(&vec![0xc3]));
    assert_eq!(compilation.get(DefinedFuncIndex(1)), Some(&vec![0x90, 0xc3]));
    assert_eq!(compilation.get(DefinedFuncIndex(2)), Some(&vec![1, 2, 3]));
    assert_eq!(compilation.get(DefinedFuncIndex(3)), None);
    let first: Vec<_> = relocations.get(DefinedFuncIndex(0)).unwrap().iter().map(parts).collect();
    assert_eq!(
        first,
        vec![("Abs8".to_string(), RelocationTarget::UserFunc(FuncIndex(1)), 1, -4)]
    );
    assert!(relocations.get(DefinedFuncIndex(1)).unwrap().is_empty());
    let third: Vec<_> = relocations.get(DefinedFuncIndex(2)).unwrap().iter().map(parts).collect();
    assert_eq!(
        third,
        vec![
            ("Abs8".to_string(), RelocationTarget::GrowMemory, 2, 0),
            ("Abs8".to_string(), RelocationTarget::CurrentMemory, 9, 3),
        ]
    );
    assert!(relocations.get(DefinedFuncIndex(3)).is_none());
    assert!(relocations.get(DefinedFuncIndex(u32::MAX)).is_none());
}

#[test]
fn module_without_functions() {
    let (compilation, relocations) =
        with_translation(0, |translation| compile_module(translation, Vec::new())).unwrap();

    assert_eq!(compilation.len(), 0);
    assert_eq!(relocations.len(), 0);
}

#[test]
fn many_functions_stay_aligned() {
    let count = 100usize;
    let outcomes = (0..count)
        .map(|i| {
            Ok(CompiledFunction {
                code: vec![i as u8; i % 5],
                relocs: vec![relocation(
                    RelocationTarget::UserFunc(FuncIndex(i as u32)),
                    i as u32,
                    0,
                )],
            })
        })
        .collect();

    let (compilation, relocations) =
        with_translation(count, |translation| compile_module(translation, outcomes)).unwrap();

    assert_eq!(compilation.len(), count);
    assert_eq!(relocations.len(), count);
    for i in 0..count {
        let index = DefinedFuncIndex(i as u32);
        assert_eq!(compilation.get(index), Some(&vec![i as u8; i % 5]));
        let relocs = relocations.get(index).unwrap();
        assert_eq!(relocs.len(), 1);
        assert_eq!(relocs[0].reloc_target, RelocationTarget::UserFunc(FuncIndex(i as u32)));
        assert_eq!(relocs[0].offset, i as u32);
    }
}

#[test]
fn first_failure_aborts_the_module() {
    let outcomes = vec![
        Ok(CompiledFunction { code: vec![0xc3], relocs: vec![] }),
        Err("function 1: invalid body".to_string()),
        Err("function 2: never reached".to_string()),
    ];

    let result = with_translation(3, |translation| compile_module(translation, outcomes));

    assert_eq!(result.err(), Some("function 1: invalid body".to_string()));
}

#[test]
fn failure_ends_the_outcomes_early() {
    let outcomes = vec![Err("function 0: unsupported".to_string())];

    let result = with_translation(4, |translation| compile_module(translation, outcomes));

    assert_eq!(result.err(), Some("function 0: unsupported".to_string()));
}
