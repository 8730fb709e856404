//! The symbol table provider: Breakpad text symbol files, parsed and queried
//! by the `breakpad_symbols` crate.
//!
//! Nothing in this module is proved. Each item states what the rest of the
//! library takes for granted about the provider.

use breakpad_symbols::{SimpleFrame, SimpleModule, SymbolFile};
use vstd::prelude::*;

verus! {

/// A parsed symbol file, `breakpad_symbols::SymbolFile`. Its inside is not
/// visible to the verifier; see [`table_symbols`].
#[verifier::external_type_specification]
#[verifier::external_body]
pub struct ExSymbolFile(SymbolFile);

/// The function names that a parsed symbol file gives, by module-relative
/// address: `table_symbols(t)` holds `a` exactly when a look-up of `a` in `t`
/// finds a name, and then maps `a` to that name.
pub uninterp spec fn table_symbols(table: SymbolFile) -> Map<u64, Seq<char>>;

/// What `SymbolFile::from_bytes` makes of the raw bytes of a symbol file: the
/// names of the table it builds, or `None` where it rejects the bytes.
pub uninterp spec fn parsed_symbols(bytes: Seq<u8>) -> Option<Map<u64, Seq<char>>>;

/// Calls `SymbolFile::from_bytes`. Taken on trust: parsing depends on the
/// bytes alone, so the outcome is `parsed_symbols` of them; a parse error of
/// any kind is handed back as `None`.
#[verifier::external_body]
pub(crate) fn parse_symbol_file(bytes: &[u8]) -> (table: Option<SymbolFile>)
    ensures
        match table {
            Some(t) => parsed_symbols(bytes@) == Some(table_symbols(t)),
            None => parsed_symbols(bytes@) is None,
        },
{
    match SymbolFile::from_bytes(bytes) {
        Ok(table) => Some(table),
        Err(_) => None,
    }
}

/// Calls `SymbolFile::fill_symbol` on a frame at `address` in a module
/// loaded at address zero, and hands back the function name that it left in
/// the frame. Taken on trust: the name found is the one that `table_symbols`
/// holds for `address`, and none is found exactly when it holds none.
#[verifier::external_body]
pub(crate) fn symbol_at(table: &SymbolFile, address: u64) -> (name: Option<String>)
    ensures
        match name {
            Some(n) => table_symbols(*table).contains_key(address) && table_symbols(
                *table,
            )[address] == n@,
            None => !table_symbols(*table).contains_key(address),
        },
{
    let mut frame = SimpleFrame::with_instruction(address);
    table.fill_symbol(&SimpleModule::default(), &mut frame);
    frame.function
}

} // verus!
