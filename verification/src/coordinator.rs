//! The resolution coordinator: from the modules of a request, the stack map
//! and the fetched symbol files to the response.
//!
//! The response lists the addresses without a module first, in hexadecimal,
//! and then the entries of each module in the order of the request's memory
//! map. That order depends on nothing else: results are put together by
//! module position, whenever each of them was computed.

use crate::hex::{format_address, hex_address};
use crate::resolve::{
    fetched_names, resolution, resolve_module, ModuleResolution, ResolutionView,
};
use crate::stack_map::{
    bucket_at, bucket_total, buckets, lemma_bucket_total, lemma_bucket_total_split, stack_map_of,
};
use crate::SymbolResponse;
use std::collections::HashMap;
use vstd::prelude::*;

verus! {

broadcast use vstd::std_specs::hash::group_hash_axioms;

/// The mathematical content of a [`SymbolResponse`].
pub struct ResponseView {
    pub symbolicated_stacks: Seq<Seq<Seq<char>>>,
    pub known_modules: Seq<bool>,
}

impl View for SymbolResponse {
    type V = ResponseView;

    open spec fn view(&self) -> ResponseView {
        ResponseView {
            symbolicated_stacks: self.symbolicatedStacks.deep_view(),
            known_modules: self.knownModules@,
        }
    }
}

/// The words ` (in name)` that follow each entry of the module `name`.
pub open spec fn module_suffix(name: Seq<char>) -> Seq<char> {
    seq![' ', '(', 'i', 'n', ' '] + name + seq![')']
}

/// The entries that one module adds to the response.
pub open spec fn module_entries(result: ResolutionView) -> Seq<Seq<char>> {
    Seq::new(result.symbols.len(), |i: int| result.symbols[i] + module_suffix(result.name))
}

/// The entries of the addresses that belong to no module.
pub open spec fn passthrough_entries(addresses: Seq<u64>) -> Seq<Seq<char>> {
    Seq::new(addresses.len(), |i: int| hex_address(addresses[i] as nat))
}

/// The entries of all modules, one module after the other.
pub open spec fn resolved_entries(results: Seq<ResolutionView>) -> Seq<Seq<char>> {
    results.map_values(|r: ResolutionView| module_entries(r)).flatten()
}

/// The response made of the pass-through addresses and the modules' results.
pub open spec fn response(passthrough: Seq<u64>, results: Seq<ResolutionView>) -> ResponseView {
    ResponseView {
        symbolicated_stacks: seq![passthrough_entries(passthrough) + resolved_entries(results)],
        known_modules: results.map_values(|r: ResolutionView| r.known),
    }
}

/// The contents of a sequence of task results.
pub open spec fn resolution_views(results: Seq<ModuleResolution>) -> Seq<ResolutionView> {
    results.map_values(|r: ModuleResolution| r@)
}

/// The fetched symbol file of the module at `position`. A module for which
/// nothing was handed in counts as not fetched.
pub open spec fn fetched_at(fetched: Seq<Option<Vec<u8>>>, position: int) -> Option<Vec<u8>> {
    if 0 <= position < fetched.len() {
        fetched[position]
    } else {
        None
    }
}

/// The result of every module of the memory map, in the memory map's order.
pub open spec fn resolutions(
    memory_map: Seq<(String, String)>,
    buckets: Map<i8, Seq<u64>>,
    fetched: Seq<Option<Vec<u8>>>,
) -> Seq<ResolutionView> {
    Seq::new(
        memory_map.len(),
        |i: int|
            resolution(
                memory_map[i].0@,
                fetched_names(fetched_at(fetched, i)),
                bucket_at(buckets, i),
            ),
    )
}

/// The modules' results hold one entry per address of the modules' buckets.
proof fn lemma_resolved_entries_len(
    frames: Seq<(i8, u64)>,
    memory_map: Seq<(String, String)>,
    fetched: Seq<Option<Vec<u8>>>,
    modules: nat,
)
    requires
        modules <= memory_map.len(),
    ensures
        resolved_entries(
            resolutions(memory_map, stack_map_of(frames), fetched).take(modules as int),
        ).len() == bucket_total(frames, 0, modules as int),
    decreases modules,
{
    let results = resolutions(memory_map, stack_map_of(frames), fetched);
    if modules > 0 {
        let position = modules - 1;
        lemma_resolved_entries_len(frames, memory_map, fetched, position as nat);
        let mapped = results.take(position).map_values(|r: ResolutionView| module_entries(r));
        assert(results.take(modules as int).map_values(|r: ResolutionView| module_entries(r))
            =~= mapped.push(module_entries(results[position])));
        mapped.lemma_flatten_push(module_entries(results[position]));
    }
}

/// The response has as many flags as the memory map has modules.
pub proof fn lemma_one_flag_per_module(
    passthrough: Seq<u64>,
    memory_map: Seq<(String, String)>,
    stack_map: Map<i8, Seq<u64>>,
    fetched: Seq<Option<Vec<u8>>>,
)
    ensures
        response(passthrough, resolutions(memory_map, stack_map, fetched)).known_modules.len()
            == memory_map.len(),
{
}

/// Where every frame of a request names `-1` or a position of the memory
/// map, the response built from the request's stack map holds exactly one
/// entry per frame.
pub proof fn lemma_one_entry_per_frame(
    frames: Seq<(i8, u64)>,
    memory_map: Seq<(String, String)>,
    fetched: Seq<Option<Vec<u8>>>,
)
    requires
        forall|i: int|
            0 <= i < frames.len() ==> -1 <= (#[trigger] frames[i]).0 < memory_map.len(),
    ensures
        response(
            bucket_at(stack_map_of(frames), -1),
            resolutions(memory_map, stack_map_of(frames), fetched),
        ).symbolicated_stacks.len() == 1,
        response(
            bucket_at(stack_map_of(frames), -1),
            resolutions(memory_map, stack_map_of(frames), fetched),
        ).symbolicated_stacks[0].len() == frames.len(),
{
    let results = resolutions(memory_map, stack_map_of(frames), fetched);
    let modules = memory_map.len() as int;
    lemma_bucket_total(frames, -1, modules);
    lemma_bucket_total_split(frames, -1, 0, modules);
    assert(bucket_total(frames, -1, 0) == bucket_at(stack_map_of(frames), -1).len()) by {
        assert(bucket_total(frames, -1, -1) == 0);
    }
    lemma_resolved_entries_len(frames, memory_map, fetched, memory_map.len());
    assert(results.take(modules) =~= results);
}

/// The entries of the addresses without a module stand before the entries
/// of every module, one per address and in the addresses' order.
pub proof fn lemma_passthrough_first(passthrough: Seq<u64>, results: Seq<ResolutionView>)
    ensures
        response(passthrough, results).symbolicated_stacks[0].len() >= passthrough.len(),
        response(passthrough, results).symbolicated_stacks[0].take(passthrough.len() as int)
            == passthrough_entries(passthrough),
        response(passthrough, results).symbolicated_stacks[0].skip(passthrough.len() as int)
            == resolved_entries(results),
{
}

/// The modules' entries stand in the order of the modules: at every
/// position of the memory map, the entries of the modules before it come
/// first and those of the modules from it on follow. Where a result was
/// computed earlier or later than another plays no part.
pub proof fn lemma_entries_in_module_order(results: Seq<ResolutionView>, position: int)
    requires
        0 <= position <= results.len(),
    ensures
        resolved_entries(results) == resolved_entries(results.take(position)) + resolved_entries(
            results.skip(position),
        ),
{
    let mapped = results.map_values(|r: ResolutionView| module_entries(r));
    let before = results.take(position).map_values(|r: ResolutionView| module_entries(r));
    let after = results.skip(position).map_values(|r: ResolutionView| module_entries(r));
    assert(mapped =~= before + after);
    vstd::seq_lib::lemma_flatten_concat(before, after);
}

/// Adds one entry to the list of entries.
fn push_entry(entries: &mut Vec<String>, text: String)
    ensures
        final(entries).deep_view() == old(entries).deep_view().push(text@),
{
    entries.push(text);
}

/// The entry of one resolved symbol: the symbol and the module it is in.
fn module_entry(symbol: &String, name: &String) -> (text: String)
    ensures
        text@ == symbol@ + module_suffix(name@),
{
    proof {
        reveal_strlit(" (in ");
        reveal_strlit(")");
    }
    let mut text = symbol.clone();
    text.append(" (in ");
    text.append(name.as_str());
    text.append(")");
    text
}

/// The bucket of the module index `index`, where the stack map has one.
fn bucket_of(stack_map: &HashMap<i8, Vec<u64>>, index: i8) -> (found: Option<&Vec<u64>>)
    ensures
        match found {
            Some(addresses) => addresses@ == bucket_at(buckets(stack_map@), index as int),
            None => bucket_at(buckets(stack_map@), index as int) == Seq::<u64>::empty(),
        },
{
    stack_map.get(&index)
}

/// The work of the task of the module at `position` of the memory map,
/// once its symbol file has been fetched (`None`: the fetch failed): the
/// bucket of index `position` is resolved against the file.
pub fn resolve_task(
    name: String,
    position: usize,
    stack_map: &HashMap<i8, Vec<u64>>,
    fetched: &Option<Vec<u8>>,
) -> (result: ModuleResolution)
    ensures
        result@ == resolution(
            name@,
            fetched_names(*fetched),
            bucket_at(buckets(stack_map@), position as int),
        ),
{
    let found = if position <= 127 {
        bucket_of(stack_map, position as i8)
    } else {
        None
    };
    match found {
        Some(addresses) => resolve_module(name, fetched, addresses),
        None => {
            let empty: Vec<u64> = Vec::new();
            resolve_module(name, fetched, &empty)
        },
    }
}

/// Puts the response together from the results of the modules' tasks, in
/// the order of `results`: the addresses of the stack map's bucket `-1` in
/// hexadecimal, then each module's entries, and one flag per module.
pub fn assemble(stack_map: &HashMap<i8, Vec<u64>>, results: &Vec<ModuleResolution>) -> (resp:
    SymbolResponse)
    ensures
        resp@ == response(bucket_at(buckets(stack_map@), -1), resolution_views(results@)),
        resp.symbolicatedStacks@.len() == 1,
        resp.knownModules@.len() == results@.len(),
{
    let empty: Vec<u64> = Vec::new();
    let passthrough: &Vec<u64> = match bucket_of(stack_map, -1) {
        Some(addresses) => addresses,
        None => &empty,
    };
    let ghost views = resolution_views(results@);
    let mut entries: Vec<String> = Vec::new();
    let mut i: usize = 0;
    while i < passthrough.len()
        invariant
            i <= passthrough.len(),
            entries.deep_view() == passthrough_entries(passthrough@).take(i as int),
        decreases passthrough.len() - i,
    {
        push_entry(&mut entries, format_address(passthrough[i]));
        i += 1;
    }
    let mut known_modules: Vec<bool> = Vec::new();
    let mut m: usize = 0;
    while m < results.len()
        invariant
            m <= results.len(),
            views == resolution_views(results@),
            entries.deep_view() == passthrough_entries(passthrough@) + resolved_entries(
                views.take(m as int),
            ),
            known_modules@ == views.take(m as int).map_values(|r: ResolutionView| r.known),
        decreases results.len() - m,
    {
        let result = &results[m];
        let ghost before = entries.deep_view();
        let mut k: usize = 0;
        while k < result.symbols.len()
            invariant
                k <= result.symbols.len(),
                m < results.len(),
                result == results@[m as int],
                entries.deep_view() == before + module_entries(result@).take(k as int),
            decreases result.symbols.len() - k,
        {
            push_entry(&mut entries, module_entry(&result.symbols[k], &result.name));
            k += 1;
        }
        known_modules.push(result.known);
        m += 1;
        proof {
            let done = views.take(m as int);
            let mapped = views.take(m - 1).map_values(|r: ResolutionView| module_entries(r));
            assert(done.map_values(|r: ResolutionView| module_entries(r)) =~= mapped.push(
                module_entries(result@),
            ));
            mapped.lemma_flatten_push(module_entries(result@));
        }
    }
    assert(views.take(results.len() as int) =~= views);
    let mut stacks: Vec<Vec<String>> = Vec::new();
    stacks.push(entries);
    let resp = SymbolResponse { symbolicatedStacks: stacks, knownModules: known_modules };
    assert(resp@.symbolicated_stacks =~= response(passthrough@, views).symbolicated_stacks);
    resp
}

/// Symbolicates a whole request once the symbol file of each module has
/// been fetched: `fetched[i]` holds the bytes for the module at position `i`
/// of `memory_map`, or `None` where the fetch failed.
///
/// The module at position `i` resolves the bucket of index `i` of the stack
/// map; the bucket of index `-1` is passed through in hexadecimal. One flag
/// per module comes back, whether or not the module had any address.
pub fn client(
    memory_map: Vec<(String, String)>,
    stack_map: HashMap<i8, Vec<u64>>,
    fetched: Vec<Option<Vec<u8>>>,
) -> (resp: SymbolResponse)
    ensures
        resp@ == response(
            bucket_at(buckets(stack_map@), -1),
            resolutions(memory_map@, buckets(stack_map@), fetched@),
        ),
        resp.symbolicatedStacks@.len() == 1,
        resp.knownModules@.len() == memory_map@.len(),
{
    let missing: Option<Vec<u8>> = None;
    let mut results: Vec<ModuleResolution> = Vec::new();
    let mut i: usize = 0;
    while i < memory_map.len()
        invariant
            i <= memory_map.len(),
            missing is None,
            results.len() == i,
            forall|j: int|
                0 <= j < i ==> (#[trigger] results@[j])@ == resolution(
                    memory_map@[j].0@,
                    fetched_names(fetched_at(fetched@, j)),
                    bucket_at(buckets(stack_map@), j),
                ),
        decreases memory_map.len() - i,
    {
        let name = memory_map[i].0.clone();
        let table: &Option<Vec<u8>> = if i < fetched.len() {
            &fetched[i]
        } else {
            &missing
        };
        results.push(resolve_task(name, i, &stack_map, table));
        i += 1;
    }
    assert(resolution_views(results@) =~= resolutions(
        memory_map@,
        buckets(stack_map@),
        fetched@,
    ));
    assemble(&stack_map, &results)
}

} // verus!
