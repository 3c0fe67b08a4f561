//! The sound pack: one shared waveform and, for each key, the segment of it
//! that is that key's sound.
use vstd::hash_map::StringHashMap;
use vstd::prelude::*;
use vstd::string::*;

verus! {

/// A slice of the waveform, in milliseconds.
#[derive(Clone, Copy, Debug, PartialEq, Eq)]
pub struct Segment {
    /// Offset of the slice from the start of the waveform.
    pub start_ms: u32,
    /// Length of the slice.
    pub duration_ms: u32,
}

/// What a sound pack holds, as mathematical values.
pub ghost struct PackModel {
    pub id: Seq<char>,
    pub name: Seq<char>,
    pub key_define_type: Seq<char>,
    pub includes_numpad: bool,
    pub sound: Seq<char>,
    /// For each defined key, the numbers given for it, as they were given.
    pub defines: Map<Seq<char>, Seq<u32>>,
}

/// The segment that `defines` gives `key`: the key must be defined, and with
/// exactly two numbers, the start and the duration. A key defined with any
/// other count of numbers has no segment.
pub open spec fn segment_of(defines: Map<Seq<char>, Seq<u32>>, key: Seq<char>) -> Option<Segment> {
    if defines.contains_key(key) && defines[key].len() == 2 {
        Some(Segment { start_ms: defines[key][0], duration_ms: defines[key][1] })
    } else {
        None
    }
}

/// The views of a list of strings, in order.
pub open spec fn views_of(keys: Seq<String>) -> Seq<Seq<char>> {
    Seq::new(keys.len(), |i: int| keys[i]@)
}

/// A map from key identifiers to lists of numbers that also lists its keys.
struct Defines {
    /// The keys of `map`, each once.
    keys: Vec<String>,
    map: StringHashMap<Vec<u32>>,
}

impl Defines {
    /// The list holds the keys of the map, and none twice.
    spec fn wf(&self) -> bool {
        &&& views_of(self.keys@).no_duplicates()
        &&& forall|k: Seq<char>| self.map@.contains_key(k) <==> views_of(self.keys@).contains(k)
    }

    /// The map, by the views of its lists of numbers.
    spec fn model(&self) -> Map<Seq<char>, Seq<u32>> {
        self.map@.map_values(|v: Vec<u32>| v@)
    }

    /// The empty map.
    fn new() -> (d: Defines)
        ensures
            d.wf(),
            d.model() == Map::<Seq<char>, Seq<u32>>::empty(),
    {
        Defines { keys: Vec::new(), map: StringHashMap::new() }
    }

    /// Gives `key` the numbers `values`, in place of any it had.
    fn insert(&mut self, key: String, values: Vec<u32>)
        requires
            old(self).wf(),
        ensures
            final(self).wf(),
            final(self).model() == old(self).model().insert(key@, values@),
    {
        let ghost old_keys = views_of(self.keys@);
        if !self.map.contains_key(key.as_str()) {
            self.keys.push(key.clone());
            proof {
                broadcast use vstd::seq_lib::lemma_seq_contains_after_push;

                assert(views_of(self.keys@) =~= old_keys.push(key@));
            }
        }
        self.map.insert(key, values);
    }
}

/// A named bundle of a waveform file and a table from key identifiers to
/// segments of it.
pub struct SoundPack {
    id: String,
    name: String,
    key_define_type: String,
    includes_numpad: bool,
    sound: String,
    defines: Defines,
}

impl View for SoundPack {
    type V = PackModel;

    closed spec fn view(&self) -> PackModel {
        PackModel {
            id: self.id@,
            name: self.name@,
            key_define_type: self.key_define_type@,
            includes_numpad: self.includes_numpad,
            sound: self.sound@,
            defines: self.defines.model(),
        }
    }
}

impl SoundPack {
    /// Every pack lists its defined keys, each once.
    #[verifier::type_invariant]
    spec fn defines_wf(self) -> bool {
        self.defines.wf()
    }

    /// A pack with the given description and no key defined yet.
    pub fn new(
        id: String,
        name: String,
        key_define_type: String,
        includes_numpad: bool,
        sound: String,
    ) -> (pack: SoundPack)
        ensures
            pack@ == (PackModel {
                id: id@,
                name: name@,
                key_define_type: key_define_type@,
                includes_numpad,
                sound: sound@,
                defines: Map::empty(),
            }),
    {
        SoundPack { id, name, key_define_type, includes_numpad, sound, defines: Defines::new() }
    }

    /// Gives `key` the numbers `values`, in place of any it had.
    pub fn define(&mut self, key: String, values: Vec<u32>)
        ensures
            final(self)@ == (PackModel {
                defines: old(self)@.defines.insert(key@, values@),
                ..old(self)@
            }),
    {
        proof {
            use_type_invariant(&*self);
        }
        let mut defines = Defines::new();
        std::mem::swap(&mut defines, &mut self.defines);
        defines.insert(key, values);
        self.defines = defines;
    }

    /// The numbers given for `key`, if the pack defines it.
    pub fn values(&self, key: &str) -> (found: Option<&Vec<u32>>)
        ensures
            match found {
                Some(values) => self@.defines.contains_key(key@) && values@ == self@.defines[key@],
                None => !self@.defines.contains_key(key@),
            },
    {
        self.defines.map.get(key)
    }

    /// The segment of the waveform that is the sound of `key`.
    pub fn segment(&self, key: &str) -> (found: Option<Segment>)
        ensures
            found == segment_of(self@.defines, key@),
    {
        match self.defines.map.get(key) {
            Some(values) => {
                if values.len() == 2 {
                    Some(Segment { start_ms: values[0], duration_ms: values[1] })
                } else {
                    None
                }
            },
            None => None,
        }
    }

    /// The defined keys, each once. Their order is not told.
    pub fn keys(&self) -> (keys: &Vec<String>)
        ensures
            views_of(keys@).no_duplicates(),
            views_of(keys@).to_set() == self@.defines.dom(),
    {
        proof {
            use_type_invariant(self);
        }
        &self.defines.keys
    }

    /// How many keys the pack defines.
    pub fn len(&self) -> (n: usize)
        ensures
            n == self@.defines.len(),
    {
        assert(self@.defines.dom() =~= self.defines.map@.dom());
        self.defines.map.len()
    }

    /// The identifier of the pack.
    pub fn id(&self) -> (s: &str)
        ensures
            s@ == self@.id,
    {
        self.id.as_str()
    }

    /// The name that the pack is shown under.
    pub fn name(&self) -> (s: &str)
        ensures
            s@ == self@.name,
    {
        self.name.as_str()
    }

    /// The keyboard layout that the key definitions are written for. It is
    /// kept for the reader and decides nothing.
    pub fn key_define_type(&self) -> (s: &str)
        ensures
            s@ == self@.key_define_type,
    {
        self.key_define_type.as_str()
    }

    /// Whether the pack has sounds for the keys of the number pad.
    pub fn includes_numpad(&self) -> (b: bool)
        ensures
            b == self@.includes_numpad,
    {
        self.includes_numpad
    }

    /// The file name of the shared waveform.
    pub fn sound(&self) -> (s: &str)
        ensures
            s@ == self@.sound,
    {
        self.sound.as_str()
    }
}

} // verus!
