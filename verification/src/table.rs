//! The resolved sound file table: for each key, the path of the file that
//! holds its sound.
//!
//! Every key of a pack resolves to the pack's one waveform today. The table
//! stays a table, with a `"default"` entry that always exists, so that keys
//! with files of their own can be added without touching the lookup.
use crate::pack::{views_of, SoundPack};
use vstd::hash_map::StringHashMap;
use vstd::prelude::*;
use vstd::string::*;

verus! {

/// The key of the entry that every table has: `"default"`.
pub open spec fn default_key() -> Seq<char> {
    seq!['d', 'e', 'f', 'a', 'u', 'l', 't']
}

/// The path of `file` inside `folder`.
pub open spec fn join_path(folder: Seq<char>, file: Seq<char>) -> Seq<char> {
    folder + seq!['/'] + file
}

/// The table in which every key of `keys`, and `"default"`, has the path
/// `path`.
pub open spec fn table_of(keys: Set<Seq<char>>, path: Seq<char>) -> Map<Seq<char>, Seq<char>> {
    Map::new(|k: Seq<char>| keys.contains(k) || k == default_key(), |k: Seq<char>| path)
}

/// The path that `table` gives for `key`: the key's own entry where it has
/// one, the `"default"` entry where it has none.
pub open spec fn resolve_in(table: Map<Seq<char>, Seq<char>>, key: Seq<char>) -> Seq<char> {
    if table.contains_key(key) {
        table[key]
    } else {
        table[default_key()]
    }
}

/// The path of `file` inside `folder`, as a string.
pub fn sound_path(folder: &str, file: &str) -> (path: String)
    ensures
        path@ == join_path(folder@, file@),
{
    proof {
        reveal_strlit("/");
    }
    String::from_str(folder).concat("/").concat(file)
}

/// The name of the file that describes a sound pack: `"config.json"`.
pub open spec fn config_file_name() -> Seq<char> {
    seq!['c', 'o', 'n', 'f', 'i', 'g', '.', 'j', 's', 'o', 'n']
}

/// The path of the description of the sound pack that lies in `folder`.
pub fn config_path(folder: &str) -> (path: String)
    ensures
        path@ == join_path(folder@, config_file_name()),
{
    proof {
        reveal_strlit("config.json");
    }
    sound_path(folder, "config.json")
}

/// A table from key identifiers to file paths that always has an entry for
/// `"default"`.
pub struct SoundFileTable {
    paths: StringHashMap<String>,
}

impl View for SoundFileTable {
    type V = Map<Seq<char>, Seq<char>>;

    closed spec fn view(&self) -> Map<Seq<char>, Seq<char>> {
        self.paths@.map_values(|p: String| p@)
    }
}

impl SoundFileTable {
    /// Every table has its `"default"` entry.
    #[verifier::type_invariant]
    spec fn has_default(self) -> bool {
        self.paths@.contains_key(default_key())
    }

    /// The table with the one entry `"default"`, for `default_path`.
    pub fn new(default_path: String) -> (table: SoundFileTable)
        ensures
            table@ == Map::<Seq<char>, Seq<char>>::empty().insert(default_key(), default_path@),
    {
        proof {
            reveal_strlit("default");
            assert("default"@ =~= default_key());
        }
        let mut paths: StringHashMap<String> = StringHashMap::new();
        paths.insert(String::from_str("default"), default_path);
        let table = SoundFileTable { paths };
        assert(table@ =~= Map::<Seq<char>, Seq<char>>::empty().insert(
            default_key(),
            default_path@,
        ));
        table
    }

    /// The same table with `path` as the entry of `key`, in place of any it
    /// had.
    pub fn with_entry(self, key: String, path: String) -> (table: SoundFileTable)
        ensures
            table@ == self@.insert(key@, path@),
    {
        proof {
            use_type_invariant(&self);
        }
        let mut paths = self.paths;
        paths.insert(key, path);
        SoundFileTable { paths }
    }

    /// The table of `pack` when its files lie in `folder`: every defined key,
    /// and `"default"`, resolves to the pack's waveform there.
    pub fn build(pack: &SoundPack, folder: &str) -> (table: SoundFileTable)
        ensures
            table@ == table_of(pack@.defines.dom(), join_path(folder@, pack@.sound)),
            table@.contains_key(default_key()),
    {
        proof {
            reveal_strlit("default");
            assert("default"@ =~= default_key());
        }
        let path = sound_path(folder, pack.sound());
        let keys = pack.keys();
        let ghost names = views_of(keys@);
        let mut paths: StringHashMap<String> = StringHashMap::new();
        let mut i: usize = 0;
        while i < keys.len()
            invariant
                i <= keys.len(),
                names == views_of(keys@),
                forall|k: Seq<char>|
                    paths@.contains_key(k) <==> names.subrange(0, i as int).contains(k),
                forall|k: Seq<char>| paths@.contains_key(k) ==> (#[trigger] paths@[k])@ == path@,
            decreases keys.len() - i,
        {
            let ghost seen = names.subrange(0, i as int);
            paths.insert(keys[i].clone(), path.clone());
            proof {
                broadcast use vstd::seq_lib::lemma_seq_contains_after_push;

                assert(names.subrange(0, i + 1) =~= seen.push(names[i as int]));
            }
            i += 1;
        }
        if !paths.contains_key("default") {
            paths.insert(String::from_str("default"), path.clone());
        }
        let table = SoundFileTable { paths };
        proof {
            assert(names.subrange(0, keys.len() as int) =~= names);
            assert forall|k: Seq<char>| pack@.defines.dom().contains(k) <==> names.contains(k) by {
                assert(names.to_set().contains(k) <==> names.contains(k));
            }
        }
        table
    }

    /// The path that `key` has an entry of its own for, if it has one.
    pub fn get(&self, key: &str) -> (found: Option<&String>)
        ensures
            match found {
                Some(path) => self@.contains_key(key@) && path@ == self@[key@],
                None => !self@.contains_key(key@),
            },
    {
        self.paths.get(key)
    }

    /// The path of the `"default"` entry, which every table has.
    pub fn default_path(&self) -> (path: &String)
        ensures
            self@.contains_key(default_key()),
            path@ == self@[default_key()],
    {
        proof {
            use_type_invariant(self);
            reveal_strlit("default");
            assert("default"@ =~= default_key());
        }
        self.paths.get("default").unwrap()
    }

    /// The path of the file that holds the sound of `key`: the key's own
    /// entry, or the `"default"` entry where the key has none.
    pub fn resolve(&self, key: &str) -> (path: &String)
        ensures
            path@ == resolve_in(self@, key@),
    {
        match self.paths.get(key) {
            Some(path) => path,
            None => self.default_path(),
        }
    }
}

/// A table built for a pack has its `"default"` entry, whatever the pack
/// defines, and be it nothing.
pub proof fn lemma_built_table_has_default(keys: Set<Seq<char>>, path: Seq<char>)
    ensures
        table_of(keys, path).contains_key(default_key()),
        table_of(keys, path)[default_key()] == path,
        resolve_in(table_of(keys, path), default_key()) == path,
{
}

/// In a table built for a pack, every key resolves to the shared path: a
/// defined key through its own entry, any other through `"default"`.
pub proof fn lemma_built_table_resolves_to_shared_path(
    keys: Set<Seq<char>>,
    path: Seq<char>,
    key: Seq<char>,
)
    ensures
        resolve_in(table_of(keys, path), key) == path,
        keys.contains(key) ==> table_of(keys, path).contains_key(key),
{
}

} // verus!
