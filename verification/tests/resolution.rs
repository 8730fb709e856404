use breakpad_symbols::SymbolFile;
use std::collections::HashMap;
use symbolapi::coordinator::{assemble, resolve_task};
use symbolapi::resolve::{resolve_addresses, resolve_module, symbolicate_address, ModuleResolution};
use symbolapi::server::symbolicate;
use symbolapi::{client, stacks_to_stack_map, SymbolRequest};

const XUL_ID: &str = "44E4EC8C2F41492B9369D6B9A059577C2";
const WNTDLL_ID: &str = "D74F79EB1F8D4A45ABCD2F476CCABACC2";

fn xul_sym() -> Vec<u8> {
    let text = "MODULE windows x86 44E4EC8C2F41492B9369D6B9A059577C2 xul.pdb\n\
                FILE 0 toolkit/xre/nsAppRunner.cpp\n\
                FUNC b2e000 100 0 XREMain::XRE_mainInit(bool*)\n\
                b2e000 100 3000 0\n\
                FUNC b2e3f0 20 0 XREMain::XRE_mainRun()\n\
                b2e3f0 20 4000 0\n";
    text.as_bytes().to_vec()
}

fn wntdll_sym() -> Vec<u8> {
    let text = "MODULE windows x86 D74F79EB1F8D4A45ABCD2F476CCABACC2 wntdll.pdb\n\
                PUBLIC 10000 0 KiRaiseUserExceptionDispatcher\n\
                PUBLIC 10100 0 KiUserCallbackDispatcher\n\
                PUBLIC 20000 0 LdrInitializeThunk\n";
    text.as_bytes().to_vec()
}

fn memory_map() -> Vec<(String, String)> {
    vec![
        ("xul.pdb".to_string(), XUL_ID.to_string()),
        ("wntdll.pdb".to_string(), WNTDLL_ID.to_string()),
    ]
}

fn texts(entries: &[&str]) -> Vec<String> {
    entries.iter().map(|e| e.to_string()).collect()
}

#[test]
fn two_modules_with_symbols_are_both_resolved() {
    let stack_map = stacks_to_stack_map(vec![vec![(0, 11723767), (1, 65802)]]);
    let resp = client(memory_map(), stack_map, vec![Some(xul_sym()), Some(wntdll_sym())]);
    assert_eq!(
        resp.symbolicatedStacks,
        vec![texts(&[
            "XREMain::XRE_mainRun() (in xul.pdb)",
            "KiUserCallbackDispatcher (in wntdll.pdb)"
        ])]
    );
    assert_eq!(resp.knownModules, vec![true, true]);
}

#[test]
fn a_whole_request_is_symbolicated() {
    let request = SymbolRequest {
        memoryMap: memory_map(),
        stacks: vec![vec![(0, 11723767), (1, 65802)]],
        version: 4,
    };
    let resp = symbolicate(request, vec![Some(xul_sym()), Some(wntdll_sym())]);
    assert_eq!(
        resp.symbolicatedStacks,
        vec![texts(&[
            "XREMain::XRE_mainRun() (in xul.pdb)",
            "KiUserCallbackDispatcher (in wntdll.pdb)"
        ])]
    );
    assert_eq!(resp.knownModules, vec![true, true]);
}

#[test]
fn a_failed_fetch_degrades_only_its_module() {
    let stack_map = stacks_to_stack_map(vec![vec![(0, 11723767), (1, 65802), (0, 0xb2e010)]]);
    let resp = client(memory_map(), stack_map, vec![None, Some(wntdll_sym())]);
    assert_eq!(
        resp.symbolicatedStacks,
        vec![texts(&[
            "0xb2e3f7 (in xul.pdb)",
            "0xb2e010 (in xul.pdb)",
            "KiUserCallbackDispatcher (in wntdll.pdb)"
        ])]
    );
    assert_eq!(resp.knownModules, vec![false, true]);
}

#[test]
fn bytes_that_do_not_parse_degrade_only_their_module() {
    let stack_map = stacks_to_stack_map(vec![vec![(0, 11723767), (1, 65802)]]);
    let resp = client(memory_map(), stack_map, vec![Some(xul_sym()), Some(Vec::new())]);
    assert_eq!(
        resp.symbolicatedStacks,
        vec![texts(&["XREMain::XRE_mainRun() (in xul.pdb)", "0x1010a (in wntdll.pdb)"])]
    );
    assert_eq!(resp.knownModules, vec![true, false]);
}

#[test]
fn addresses_without_a_module_come_first_as_hex() {
    let stack_map = stacks_to_stack_map(vec![vec![(0, 11723767), (-1, 0xdeadbeef), (1, 65802)]]);
    let resp = client(memory_map(), stack_map, vec![Some(xul_sym()), Some(wntdll_sym())]);
    assert_eq!(
        resp.symbolicatedStacks,
        vec![texts(&[
            "0xdeadbeef",
            "XREMain::XRE_mainRun() (in xul.pdb)",
            "KiUserCallbackDispatcher (in wntdll.pdb)"
        ])]
    );
    assert_eq!(resp.knownModules, vec![true, true]);
}

#[test]
fn passthrough_addresses_keep_their_order() {
    let stack_map = stacks_to_stack_map(vec![vec![(-1, 3), (0, 11723767), (-1, 1), (-1, 2)]]);
    let resp = client(memory_map(), stack_map, vec![Some(xul_sym()), Some(wntdll_sym())]);
    assert_eq!(
        resp.symbolicatedStacks,
        vec![texts(&["0x3", "0x1", "0x2", "XREMain::XRE_mainRun() (in xul.pdb)"])]
    );
}

#[test]
fn an_unresolvable_address_makes_its_module_unknown() {
    let stack_map = stacks_to_stack_map(vec![vec![(0, 11723767), (0, 0x10), (0, 0xb2e001)]]);
    let resp = client(memory_map(), stack_map, vec![Some(xul_sym()), Some(wntdll_sym())]);
    assert_eq!(
        resp.symbolicatedStacks,
        vec![texts(&[
            "XREMain::XRE_mainRun() (in xul.pdb)",
            "0x10 (in xul.pdb)",
            "XREMain::XRE_mainInit(bool*) (in xul.pdb)"
        ])]
    );
    assert_eq!(resp.knownModules, vec![false, true]);
}

#[test]
fn entries_follow_the_memory_map_not_the_frames() {
    let stack_map = stacks_to_stack_map(vec![vec![(1, 65802), (0, 11723767), (1, 0x20004)]]);
    let resp = client(memory_map(), stack_map, vec![Some(xul_sym()), Some(wntdll_sym())]);
    assert_eq!(
        resp.symbolicatedStacks,
        vec![texts(&[
            "XREMain::XRE_mainRun() (in xul.pdb)",
            "KiUserCallbackDispatcher (in wntdll.pdb)",
            "LdrInitializeThunk (in wntdll.pdb)"
        ])]
    );
}

#[test]
fn one_flag_per_module_even_without_frames() {
    let resp = client(memory_map(), HashMap::new(), vec![Some(xul_sym()), None]);
    assert_eq!(resp.symbolicatedStacks, vec![Vec::<String>::new()]);
    assert_eq!(resp.knownModules, vec![true, true]);
}

#[test]
fn no_modules_and_no_frames() {
    let resp = client(vec![], HashMap::new(), vec![]);
    assert_eq!(resp.symbolicatedStacks, vec![Vec::<String>::new()]);
    assert_eq!(resp.knownModules, Vec::<bool>::new());
}

#[test]
fn modules_without_fetched_bytes_count_as_not_fetched() {
    let stack_map = stacks_to_stack_map(vec![vec![(0, 11723767), (1, 65802)]]);
    let resp = client(memory_map(), stack_map, vec![Some(xul_sym())]);
    assert_eq!(
        resp.symbolicatedStacks,
        vec![texts(&["XREMain::XRE_mainRun() (in xul.pdb)", "0x1010a (in wntdll.pdb)"])]
    );
    assert_eq!(resp.knownModules, vec![true, false]);
}

#[test]
fn more_modules_than_an_index_can_name() {
    let mut modules = Vec::new();
    let mut fetched = Vec::new();
    for i in 0..130 {
        modules.push((format!("m{}.pdb", i), "1".to_string()));
        fetched.push(None);
    }
    let stack_map = stacks_to_stack_map(vec![vec![(127, 1), (-128, 2), (-1, 3)]]);
    let resp = client(modules, stack_map, fetched);
    assert_eq!(resp.knownModules.len(), 130);
    assert_eq!(resp.symbolicatedStacks, vec![texts(&["0x3", "0x1 (in m127.pdb)"])]);
    for i in 0..130 {
        assert_eq!(resp.knownModules[i], i != 127);
    }
}

#[test]
fn one_entry_per_frame_of_a_valid_request() {
    let frames: Vec<(i8, u64)> =
        vec![(0, 11723767), (-1, 7), (1, 65802), (1, 1), (0, 2), (-1, 9), (1, 0x20000)];
    let stack_map = stacks_to_stack_map(vec![frames.clone()]);
    let resp = client(memory_map(), stack_map, vec![Some(xul_sym()), Some(wntdll_sym())]);
    assert_eq!(resp.symbolicatedStacks.len(), 1);
    assert_eq!(resp.symbolicatedStacks[0].len(), frames.len());
    assert_eq!(resp.knownModules.len(), 2);
}

#[test]
fn frames_of_an_index_outside_the_memory_map_have_no_entry() {
    let stack_map = stacks_to_stack_map(vec![vec![(0, 11723767), (5, 1), (-2, 2)]]);
    let resp = client(memory_map(), stack_map, vec![Some(xul_sym()), Some(wntdll_sym())]);
    assert_eq!(resp.symbolicatedStacks, vec![texts(&["XREMain::XRE_mainRun() (in xul.pdb)"])]);
    assert_eq!(resp.knownModules, vec![true, true]);
}

#[test]
fn same_inputs_give_the_same_response() {
    let frames: Vec<(i8, u64)> = vec![(1, 65802), (0, 11723767), (-1, 5), (0, 1)];
    let first = client(
        memory_map(),
        stacks_to_stack_map(vec![frames.clone()]),
        vec![Some(xul_sym()), Some(wntdll_sym())],
    );
    let second = client(
        memory_map(),
        stacks_to_stack_map(vec![frames]),
        vec![Some(xul_sym()), Some(wntdll_sym())],
    );
    assert_eq!(first.symbolicatedStacks, second.symbolicatedStacks);
    assert_eq!(first.knownModules, second.knownModules);
}

#[test]
fn assembling_in_module_order_whatever_order_results_were_computed_in() {
    let stack_map = stacks_to_stack_map(vec![vec![(1, 65802), (-1, 0xdeadbeef), (0, 11723767)]]);
    let late = resolve_task("wntdll.pdb".to_string(), 1, &stack_map, &Some(wntdll_sym()));
    let early = resolve_task("xul.pdb".to_string(), 0, &stack_map, &Some(xul_sym()));
    let resp = assemble(&stack_map, &vec![early, late]);
    assert_eq!(
        resp.symbolicatedStacks,
        vec![texts(&[
            "0xdeadbeef",
            "XREMain::XRE_mainRun() (in xul.pdb)",
            "KiUserCallbackDispatcher (in wntdll.pdb)"
        ])]
    );
    assert_eq!(resp.knownModules, vec![true, true]);
}

#[test]
fn assemble_keeps_flags_of_modules_without_entries() {
    let results = vec![
        ModuleResolution { name: "a.pdb".to_string(), symbols: vec![], known: true },
        ModuleResolution { name: "b.pdb".to_string(), symbols: texts(&["f", "0x1"]), known: false },
        ModuleResolution { name: "c.pdb".to_string(), symbols: vec![], known: false },
    ];
    let resp = assemble(&HashMap::new(), &results);
    assert_eq!(resp.symbolicatedStacks, vec![texts(&["f (in b.pdb)", "0x1 (in b.pdb)"])]);
    assert_eq!(resp.knownModules, vec![true, false, false]);
}

#[test]
fn a_found_name_is_kept_and_a_missing_one_becomes_hex() {
    assert_eq!(symbolicate_address(Some("main".to_string()), 0x10), ("main".to_string(), true));
    assert_eq!(symbolicate_address(None, 0x10), ("0x10".to_string(), false));
    assert_eq!(symbolicate_address(None, 0), ("0x0".to_string(), false));
}

#[test]
fn a_table_resolves_functions_and_publics() {
    let xul = SymbolFile::from_bytes(&xul_sym()).unwrap();
    assert_eq!(
        resolve_addresses(Some(&xul), &vec![0xb2e3f0, 0xb2e40f, 0xb2e0ff]),
        (
            texts(&["XREMain::XRE_mainRun()", "XREMain::XRE_mainRun()", "XREMain::XRE_mainInit(bool*)"]),
            true
        )
    );
    let wntdll = SymbolFile::from_bytes(&wntdll_sym()).unwrap();
    assert_eq!(
        resolve_addresses(Some(&wntdll), &vec![0x10100, 0xffff]),
        (texts(&["KiUserCallbackDispatcher", "0xffff"]), false)
    );
}

#[test]
fn unknown_stays_unknown_after_later_successes() {
    let xul = SymbolFile::from_bytes(&xul_sym()).unwrap();
    let (symbols, known) = resolve_addresses(Some(&xul), &vec![0x1, 0xb2e3f0, 0xb2e000]);
    assert_eq!(symbols, texts(&["0x1", "XREMain::XRE_mainRun()", "XREMain::XRE_mainInit(bool*)"]));
    assert!(!known);
}

#[test]
fn without_a_table_every_address_is_hex() {
    assert_eq!(resolve_addresses(None, &vec![1, 0xabc]), (texts(&["0x1", "0xabc"]), false));
    assert_eq!(resolve_addresses(None, &vec![]), (Vec::<String>::new(), true));
}

#[test]
fn a_task_resolves_the_bucket_of_its_position() {
    let stack_map = stacks_to_stack_map(vec![vec![(1, 65802), (0, 11723767), (1, 0x20000)]]);
    let result = resolve_task("wntdll.pdb".to_string(), 1, &stack_map, &Some(wntdll_sym()));
    assert_eq!(result.name, "wntdll.pdb");
    assert_eq!(result.symbols, texts(&["KiUserCallbackDispatcher", "LdrInitializeThunk"]));
    assert!(result.known);
    let none = resolve_task("other.pdb".to_string(), 2, &stack_map, &None);
    assert_eq!(none.symbols, Vec::<String>::new());
    assert!(none.known);
    let far = resolve_task("far.pdb".to_string(), 300, &stack_map, &None);
    assert_eq!(far.symbols, Vec::<String>::new());
    assert!(far.known);
    let failed = resolve_task("xul.pdb".to_string(), 0, &stack_map, &None);
    assert_eq!(failed.symbols, texts(&["0xb2e3f7"]));
    assert!(!failed.known);
}

#[test]
fn a_module_task_names_its_module() {
    let result = resolve_module("xul.pdb".to_string(), &Some(xul_sym()), &vec![11723767, 5]);
    assert_eq!(result.name, "xul.pdb");
    assert_eq!(result.symbols, texts(&["XREMain::XRE_mainRun()", "0x5"]));
    assert!(!result.known);
}
