use compiler_llvm_context::DumpFlag;

#[test]
fn initialize_keeps_the_order_of_the_switches() {
    assert_eq!(
        DumpFlag::initialize(true, false, true, false, true, false),
        vec![DumpFlag::Yul, DumpFlag::EVM, DumpFlag::Assembly]
    );
    assert_eq!(DumpFlag::initialize(false, false, false, false, false, false), vec![]);
    assert_eq!(
        DumpFlag::initialize(true, true, true, true, true, true),
        vec![
            DumpFlag::Yul,
            DumpFlag::EthIR,
            DumpFlag::EVM,
            DumpFlag::LLVM,
            DumpFlag::Assembly,
            DumpFlag::LLL
        ]
    );
}
