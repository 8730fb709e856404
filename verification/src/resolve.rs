//! Resolution of one module's addresses against its symbol table.
//!
//! Each module of a request is resolved on its own: every address of its
//! bucket becomes a function name where the table has one, and the address
//! in hexadecimal where it has none. A module is known when none of its
//! addresses fell back to hexadecimal.

use crate::hex::{
    format_address, hex_address, hex_digits, hex_prefix, is_lower_hex, lemma_hex_digits_lowercase,
    lemma_hex_digits_no_padding,
};
use crate::symbols::{parse_symbol_file, parsed_symbols, symbol_at, table_symbols};
use breakpad_symbols::SymbolFile;
use vstd::prelude::*;

verus! {

/// What one module's resolution task hands to the coordinator.
pub struct ModuleResolution {
    /// The module's name, as the request gave it.
    pub name: String,
    /// One text per address of the module's bucket, in the bucket's order.
    pub symbols: Vec<String>,
    /// Whether every address of the bucket was given a function name.
    pub known: bool,
}

/// The mathematical content of a [`ModuleResolution`].
pub struct ResolutionView {
    pub name: Seq<char>,
    pub symbols: Seq<Seq<char>>,
    pub known: bool,
}

impl View for ModuleResolution {
    type V = ResolutionView;

    open spec fn view(&self) -> ResolutionView {
        ResolutionView {
            name: self.name@,
            symbols: self.symbols.deep_view(),
            known: self.known,
        }
    }
}

/// The name that `table` gives to `address`, if the table could be had and
/// holds one. A module whose table is missing names nothing.
pub open spec fn lookup(table: Option<Map<u64, Seq<char>>>, address: u64) -> Option<Seq<char>> {
    match table {
        Some(t) => if t.contains_key(address) {
            Some(t[address])
        } else {
            None
        },
        None => None,
    }
}

/// The text shown for an address: its name where one was found, else the
/// address in hexadecimal.
pub open spec fn entry_text(found: Option<Seq<char>>, address: u64) -> Seq<char> {
    match found {
        Some(name) => name,
        None => hex_address(address as nat),
    }
}

/// The texts of a whole bucket, in the bucket's order.
pub open spec fn resolved_symbols(
    table: Option<Map<u64, Seq<char>>>,
    addresses: Seq<u64>,
) -> Seq<Seq<char>> {
    Seq::new(addresses.len(), |i: int| entry_text(lookup(table, addresses[i]), addresses[i]))
}

/// Whether every address of the bucket has a name in `table`.
pub open spec fn all_known(table: Option<Map<u64, Seq<char>>>, addresses: Seq<u64>) -> bool {
    forall|i: int| 0 <= i < addresses.len() ==> (#[trigger] lookup(table, addresses[i])) is Some
}

/// What resolving `addresses` against `table` under the name `name` gives.
pub open spec fn resolution(
    name: Seq<char>,
    table: Option<Map<u64, Seq<char>>>,
    addresses: Seq<u64>,
) -> ResolutionView {
    ResolutionView {
        name,
        symbols: resolved_symbols(table, addresses),
        known: all_known(table, addresses),
    }
}

/// The names of a parsed table, or `None` for a module without one.
pub open spec fn table_names(table: Option<&SymbolFile>) -> Option<Map<u64, Seq<char>>> {
    match table {
        Some(t) => Some(table_symbols(*t)),
        None => None,
    }
}

/// The names that the fetched bytes of a symbol file give once parsed, or
/// `None` where there are no bytes or they do not parse.
pub open spec fn fetched_names(fetched: Option<Vec<u8>>) -> Option<Map<u64, Seq<char>>> {
    match fetched {
        Some(bytes) => parsed_symbols(bytes@),
        None => None,
    }
}

/// An address without a name is shown in hexadecimal and makes its module
/// unknown: where the table of a module has no name for one address of the
/// module's bucket, the entry of that address is `0x` and the digits of the
/// address, lowercase and without a leading zero (but for the address zero
/// itself), and the module is not known.
pub proof fn lemma_unresolved_address(
    name: Seq<char>,
    table: Option<Map<u64, Seq<char>>>,
    addresses: Seq<u64>,
    i: int,
)
    requires
        0 <= i < addresses.len(),
        lookup(table, addresses[i]) is None,
    ensures
        !resolution(name, table, addresses).known,
        resolution(name, table, addresses).symbols[i] == hex_prefix() + hex_digits(
            addresses[i] as nat,
        ),
        forall|k: int|
            0 <= k < hex_digits(addresses[i] as nat).len() ==> is_lower_hex(
                #[trigger] hex_digits(addresses[i] as nat)[k],
            ),
        hex_digits(addresses[i] as nat).len() >= 1,
        addresses[i] > 0 ==> hex_digits(addresses[i] as nat)[0] != '0',
{
    lemma_hex_digits_lowercase(addresses[i] as nat);
    lemma_hex_digits_no_padding(addresses[i] as nat);
}

/// A module without a table is unknown as a whole: each of its addresses is
/// shown in hexadecimal, and it is known only if it has no address at all.
pub proof fn lemma_module_without_table(name: Seq<char>, addresses: Seq<u64>)
    ensures
        resolution(name, None, addresses).symbols.len() == addresses.len(),
        forall|i: int|
            0 <= i < addresses.len() ==> #[trigger] resolution(name, None, addresses).symbols[i]
                == hex_address(addresses[i] as nat),
        resolution(name, None, addresses).known <==> addresses.len() == 0,
{
    if addresses.len() > 0 {
        assert(lookup(None, addresses[0]) is None);
    }
}

/// A module is known exactly when its table names every address of its
/// bucket; each named address is shown by its name.
pub proof fn lemma_known_module(name: Seq<char>, table: Map<u64, Seq<char>>, addresses: Seq<u64>)
    ensures
        resolution(name, Some(table), addresses).known <==> (forall|i: int|
            0 <= i < addresses.len() ==> table.contains_key(#[trigger] addresses[i])),
        forall|i: int|
            0 <= i < addresses.len() && table.contains_key(addresses[i]) ==> #[trigger] resolution(
                name,
                Some(table),
                addresses,
            ).symbols[i] == table[addresses[i]],
{
    if resolution(name, Some(table), addresses).known {
        assert forall|i: int| 0 <= i < addresses.len() implies table.contains_key(
            #[trigger] addresses[i],
        ) by {
            assert(lookup(Some(table), addresses[i]) is Some);
        }
    }
}

/// Turns the outcome of one look-up into the text for that address, and says
/// whether a name was found.
pub fn symbolicate_address(found: Option<String>, address: u64) -> (entry: (String, bool))
    ensures
        entry.0@ == entry_text(found.deep_view(), address),
        entry.1 == found is Some,
{
    match found {
        Some(name) => (name, true),
        None => (format_address(address), false),
    }
}

/// Resolves every address of a bucket against a parsed table, in order.
/// Without a table every address falls back to hexadecimal.
pub fn resolve_addresses(table: Option<&SymbolFile>, addresses: &Vec<u64>) -> (resolved: (
    Vec<String>,
    bool,
))
    ensures
        resolved.0.deep_view() == resolved_symbols(table_names(table), addresses@),
        resolved.1 == all_known(table_names(table), addresses@),
{
    let ghost names = table_names(table);
    let mut symbols: Vec<String> = Vec::new();
    let mut known = true;
    let mut i: usize = 0;
    while i < addresses.len()
        invariant
            i <= addresses.len(),
            names == table_names(table),
            symbols.len() == i,
            forall|j: int|
                0 <= j < i ==> (#[trigger] symbols@[j])@ == entry_text(
                    lookup(names, addresses@[j]),
                    addresses@[j],
                ),
            known == (forall|j: int|
                0 <= j < i ==> (#[trigger] lookup(names, addresses@[j])) is Some),
        decreases addresses.len() - i,
    {
        let address = addresses[i];
        let found = match table {
            Some(t) => symbol_at(t, address),
            None => None,
        };
        assert(found.deep_view() == lookup(names, address));
        let (text, named) = symbolicate_address(found, address);
        symbols.push(text);
        if !named {
            known = false;
        }
        i += 1;
    }
    (symbols, known)
}

/// The work of one module's task once its symbol file has been fetched:
/// parses the bytes and resolves the module's bucket. A module whose fetch
/// failed (`None`) or whose bytes do not parse has all its addresses in
/// hexadecimal.
pub fn resolve_module(name: String, fetched: &Option<Vec<u8>>, addresses: &Vec<u64>) -> (result:
    ModuleResolution)
    ensures
        result@ == resolution(name@, fetched_names(*fetched), addresses@),
{
    let table = match fetched {
        Some(bytes) => parse_symbol_file(bytes.as_slice()),
        None => None,
    };
    let (symbols, known) = resolve_addresses(table.as_ref(), addresses);
    ModuleResolution { name, symbols, known }
}

} // verus!
