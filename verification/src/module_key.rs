//! Module keys, and the names under which a module's symbol file is kept in
//! the cache and asked for from the remote store.

use vstd::prelude::*;

verus! {

/// What identifies one symbol file: the module's debug file name and its
/// debug identifier, both as the request gave them.
pub struct ModuleKey {
    pub name: String,
    pub id: String,
}

/// The extension of a debug file name.
pub open spec fn debug_extension() -> Seq<char> {
    seq!['.', 'p', 'd', 'b']
}

/// The extension of a symbol file name.
pub open spec fn symbol_extension() -> Seq<char> {
    seq!['.', 's', 'y', 'm']
}

/// Whether `name` ends in the debug extension.
pub open spec fn has_debug_extension(name: Seq<char>) -> bool {
    name.len() >= 4 && name.subrange(name.len() - 4, name.len() as int) == debug_extension()
}

/// The name of the symbol file of the module `name`: the module's name with
/// its trailing debug extension replaced by the symbol extension. A name
/// that does not end in the debug extension is kept whole.
pub open spec fn symbol_file_name(name: Seq<char>) -> Seq<char> {
    if has_debug_extension(name) {
        name.subrange(0, name.len() - 4) + symbol_extension()
    } else {
        name + symbol_extension()
    }
}

/// Where the symbol file of a module lies, below the root of the cache and
/// below the base of the remote store alike: module name, debug identifier
/// and symbol file name, with a slash between them.
pub open spec fn relative_path(name: Seq<char>, id: Seq<char>) -> Seq<char> {
    name + seq!['/'] + id + seq!['/'] + symbol_file_name(name)
}

/// The address of a module's symbol file in the remote store at `base`.
pub open spec fn remote_url(base: Seq<char>, name: Seq<char>, id: Seq<char>) -> Seq<char> {
    base + seq!['/'] + relative_path(name, id)
}

/// The symbol file name always ends in the symbol extension, and what
/// stands before it is a prefix of the module's name.
pub proof fn lemma_symbol_file_name_shape(name: Seq<char>)
    ensures
        symbol_file_name(name).len() >= 4,
        symbol_file_name(name).subrange(
            symbol_file_name(name).len() - 4,
            symbol_file_name(name).len() as int,
        ) == symbol_extension(),
        symbol_file_name(name).subrange(0, symbol_file_name(name).len() - 4).is_prefix_of(name),
{
}

/// Whether `name` ends in `.pdb`.
fn ends_with_debug_extension(name: &str) -> (ends: bool)
    ensures
        ends == has_debug_extension(name@),
{
    let len = name.unicode_len();
    if len < 4 {
        return false;
    }
    let ends = name.get_char(len - 4) == '.' && name.get_char(len - 3) == 'p' && name.get_char(
        len - 2,
    ) == 'd' && name.get_char(len - 1) == 'b';
    proof {
        let tail = name@.subrange(len - 4, len as int);
        if ends {
            assert(tail =~= debug_extension());
        }
    }
    ends
}

impl ModuleKey {
    /// The key of the module `name` with the debug identifier `id`.
    pub fn new(name: String, id: String) -> (key: ModuleKey)
        ensures
            key.name@ == name@,
            key.id@ == id@,
    {
        ModuleKey { name, id }
    }

    /// The name of the module's symbol file: the module's name with a
    /// trailing `.pdb` replaced by `.sym`.
    pub fn symbol_file_name(&self) -> (file: String)
        ensures
            file@ == symbol_file_name(self.name@),
    {
        proof {
            reveal_strlit(".sym");
        }
        let name = self.name.as_str();
        let stem = if ends_with_debug_extension(name) {
            let len = name.unicode_len();
            name.substring_char(0, len - 4)
        } else {
            name
        };
        let file = String::from_str(stem).concat(".sym");
        file
    }

    /// The path of the module's symbol file below the root of the cache.
    pub fn cache_path(&self) -> (path: String)
        ensures
            path@ == relative_path(self.name@, self.id@),
    {
        proof {
            reveal_strlit("/");
        }
        let file = self.symbol_file_name();
        let mut path = self.name.clone();
        path.append("/");
        path.append(self.id.as_str());
        path.append("/");
        path.append(file.as_str());
        path
    }

    /// The address of the module's symbol file in the remote store at
    /// `base_url`.
    pub fn remote_url(&self, base_url: &str) -> (url: String)
        ensures
            url@ == remote_url(base_url@, self.name@, self.id@),
    {
        proof {
            reveal_strlit("/");
        }
        let path = self.cache_path();
        let mut url = String::from_str(base_url);
        url.append("/");
        url.append(path.as_str());
        url
    }
}

} // verus!
