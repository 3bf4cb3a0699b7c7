use vstd::prelude::*;

use crate::search::{first_match, lemma_first_match, lemma_first_match_at, lemma_first_match_none};

verus! {

/// A row of the key table: key name, hardware scancode, extended-key flag.
pub type KeyEntry = (Seq<char>, u16, bool);

/// The predicate "this row names the key `name`".
pub open spec fn has_name(name: Seq<char>) -> spec_fn(KeyEntry) -> bool {
    |e: KeyEntry| e.0 == name
}

/// The predicate "this row carries scancode `scancode` with flag `extended`".
pub open spec fn has_code(scancode: u16, extended: bool) -> spec_fn(KeyEntry) -> bool {
    |e: KeyEntry| e.1 == scancode && e.2 == extended
}

/// The scancode and extended flag that the table `t` gives the key `name`:
/// those of the first row with that name.
pub open spec fn lookup_spec(t: Seq<KeyEntry>, name: Seq<char>) -> Option<(u16, bool)> {
    match first_match(t, has_name(name)) {
        Some(i) => Some((t[i].1, t[i].2)),
        None => None,
    }
}

/// The key name that the table `t` gives a hardware code: that of the first
/// row with that scancode and flag.
pub open spec fn reverse_lookup_spec(t: Seq<KeyEntry>, scancode: u16, extended: bool) -> Option<
    Seq<char>,
> {
    match first_match(t, has_code(scancode, extended)) {
        Some(i) => Some(t[i].0),
        None => None,
    }
}

/// A well-formed table lists its rows by strictly increasing scancode, so no
/// two rows share a hardware code.
pub open spec fn table_wf(t: Seq<KeyEntry>) -> bool {
    forall|i: int, j: int| 0 <= i < j < t.len() ==> #[trigger] t[i].1 < #[trigger] t[j].1
}

/// Every key name that configuration may use, with its scancode and whether it
/// is an extended key (the navigation cluster and two numpad keys).
pub open spec fn key_table() -> Seq<KeyEntry> {
    Seq::<KeyEntry>::empty()
        .push(("esc"@, 0x01, false))
        .push(("1"@, 0x02, false))
        .push(("2"@, 0x03, false))
        .push(("3"@, 0x04, false))
        .push(("4"@, 0x05, false))
        .push(("5"@, 0x06, false))
        .push(("6"@, 0x07, false))
        .push(("7"@, 0x08, false))
        .push(("8"@, 0x09, false))
        .push(("9"@, 0x0A, false))
        .push(("0"@, 0x0B, false))
        .push(("-"@, 0x0C, false))
        .push(("="@, 0x0D, false))
        .push(("backspace"@, 0x0E, false))
        .push(("tab"@, 0x0F, false))
        .push(("q"@, 0x10, false))
        .push(("w"@, 0x11, false))
        .push(("e"@, 0x12, false))
        .push(("r"@, 0x13, false))
        .push(("t"@, 0x14, false))
        .push(("y"@, 0x15, false))
        .push(("u"@, 0x16, false))
        .push(("i"@, 0x17, false))
        .push(("o"@, 0x18, false))
        .push(("p"@, 0x19, false))
        .push(("["@, 0x1A, false))
        .push(("]"@, 0x1B, false))
        .push(("enter"@, 0x1C, false))
        .push(("ctrl"@, 0x1D, false))
        .push(("a"@, 0x1E, false))
        .push(("s"@, 0x1F, false))
        .push(("d"@, 0x20, false))
        .push(("f"@, 0x21, false))
        .push(("g"@, 0x22, false))
        .push(("h"@, 0x23, false))
        .push(("j"@, 0x24, false))
        .push(("k"@, 0x25, false))
        .push(("l"@, 0x26, false))
        .push((";"@, 0x27, false))
        .push(("'"@, 0x28, false))
        .push(("`"@, 0x29, false))
        .push(("shift"@, 0x2A, false))
        .push(("\\"@, 0x2B, false))
        .push(("z"@, 0x2C, false))
        .push(("x"@, 0x2D, false))
        .push(("c"@, 0x2E, false))
        .push(("v"@, 0x2F, false))
        .push(("b"@, 0x30, false))
        .push(("n"@, 0x31, false))
        .push(("m"@, 0x32, false))
        .push((","@, 0x33, false))
        .push(("."@, 0x34, false))
        .push(("/"@, 0x35, false))
        .push(("num*"@, 0x37, false))
        .push(("alt"@, 0x38, false))
        .push(("space"@, 0x39, false))
        .push(("capslock"@, 0x3A, false))
        .push(("f1"@, 0x3B, false))
        .push(("f2"@, 0x3C, false))
        .push(("f3"@, 0x3D, false))
        .push(("f4"@, 0x3E, false))
        .push(("f5"@, 0x3F, false))
        .push(("f6"@, 0x40, false))
        .push(("f7"@, 0x41, false))
        .push(("f8"@, 0x42, false))
        .push(("f9"@, 0x43, false))
        .push(("f10"@, 0x44, false))
        .push(("numlock"@, 0x45, false))
        .push(("scrolllock"@, 0x46, false))
        .push(("num7"@, 0x47, false))
        .push(("num8"@, 0x48, false))
        .push(("num9"@, 0x49, false))
        .push(("num-"@, 0x4A, false))
        .push(("num4"@, 0x4B, false))
        .push(("num5"@, 0x4C, false))
        .push(("num6"@, 0x4D, false))
        .push(("num+"@, 0x4E, false))
        .push(("num1"@, 0x4F, false))
        .push(("num2"@, 0x50, false))
        .push(("num3"@, 0x51, false))
        .push(("num0"@, 0x52, false))
        .push(("num."@, 0x53, false))
        .push(("f11"@, 0x57, false))
        .push(("f12"@, 0x58, false))
        .push(("numenter"@, 0x9C, true))
        .push(("num/"@, 0xB5, true))
        .push(("home"@, 0xC7, true))
        .push(("up"@, 0xC8, true))
        .push(("pageup"@, 0xC9, true))
        .push(("left"@, 0xCB, true))
        .push(("right"@, 0xCD, true))
        .push(("end"@, 0xCF, true))
        .push(("down"@, 0xD0, true))
        .push(("pagedown"@, 0xD1, true))
        .push(("insert"@, 0xD2, true))
        .push(("delete"@, 0xD3, true))
}

/// One row of the key table.
pub struct ScancodeEntry {
    pub name: String,
    pub scancode: u16,
    pub extended: bool,
}

impl View for ScancodeEntry {
    type V = KeyEntry;

    open spec fn view(&self) -> KeyEntry {
        (self.name@, self.scancode, self.extended)
    }
}

/// The mapping between key names and (scancode, extended flag) pairs.
pub struct ScancodeMap {
    entries: Vec<ScancodeEntry>,
}

impl View for ScancodeMap {
    type V = Seq<KeyEntry>;

    closed spec fn view(&self) -> Seq<KeyEntry> {
        self.entries@.map_values(|e: ScancodeEntry| e@)
    }
}

impl ScancodeMap {
    /// The map is well formed: no two rows share a hardware code.
    pub open spec fn wf(&self) -> bool {
        table_wf(self@)
    }

    /// Builds the table of every supported key.
    pub fn new() -> (r: Self)
        ensures
            r@ == key_table(),
            r.wf(),
    {
        let mut map = ScancodeMap { entries: Vec::new() };
        assert(map@ =~= Seq::<KeyEntry>::empty());
        map.put("esc", 0x01, false);
        map.put("1", 0x02, false);
        map.put("2", 0x03, false);
        map.put("3", 0x04, false);
        map.put("4", 0x05, false);
        map.put("5", 0x06, false);
        map.put("6", 0x07, false);
        map.put("7", 0x08, false);
        map.put("8", 0x09, false);
        map.put("9", 0x0A, false);
        map.put("0", 0x0B, false);
        map.put("-", 0x0C, false);
        map.put("=", 0x0D, false);
        map.put("backspace", 0x0E, false);
        map.put("tab", 0x0F, false);
        map.put("q", 0x10, false);
        map.put("w", 0x11, false);
        map.put("e", 0x12, false);
        map.put("r", 0x13, false);
        map.put("t", 0x14, false);
        map.put("y", 0x15, false);
        map.put("u", 0x16, false);
        map.put("i", 0x17, false);
        map.put("o", 0x18, false);
        map.put("p", 0x19, false);
        map.put("[", 0x1A, false);
        map.put("]", 0x1B, false);
        map.put("enter", 0x1C, false);
        map.put("ctrl", 0x1D, false);
        map.put("a", 0x1E, false);
        map.put("s", 0x1F, false);
        map.put("d", 0x20, false);
        map.put("f", 0x21, false);
        map.put("g", 0x22, false);
        map.put("h", 0x23, false);
        map.put("j", 0x24, false);
        map.put("k", 0x25, false);
        map.put("l", 0x26, false);
        map.put(";", 0x27, false);
        map.put("'", 0x28, false);
        map.put("`", 0x29, false);
        map.put("shift", 0x2A, false);
        map.put("\\", 0x2B, false);
        map.put("z", 0x2C, false);
        map.put("x", 0x2D, false);
        map.put("c", 0x2E, false);
        map.put("v", 0x2F, false);
        map.put("b", 0x30, false);
        map.put("n", 0x31, false);
        map.put("m", 0x32, false);
        map.put(",", 0x33, false);
        map.put(".", 0x34, false);
        map.put("/", 0x35, false);
        map.put("num*", 0x37, false);
        map.put("alt", 0x38, false);
        map.put("space", 0x39, false);
        map.put("capslock", 0x3A, false);
        map.put("f1", 0x3B, false);
        map.put("f2", 0x3C, false);
        map.put("f3", 0x3D, false);
        map.put("f4", 0x3E, false);
        map.put("f5", 0x3F, false);
        map.put("f6", 0x40, false);
        map.put("f7", 0x41, false);
        map.put("f8", 0x42, false);
        map.put("f9", 0x43, false);
        map.put("f10", 0x44, false);
        map.put("numlock", 0x45, false);
        map.put("scrolllock", 0x46, false);
        map.put("num7", 0x47, false);
        map.put("num8", 0x48, false);
        map.put("num9", 0x49, false);
        map.put("num-", 0x4A, false);
        map.put("num4", 0x4B, false);
        map.put("num5", 0x4C, false);
        map.put("num6", 0x4D, false);
        map.put("num+", 0x4E, false);
        map.put("num1", 0x4F, false);
        map.put("num2", 0x50, false);
        map.put("num3", 0x51, false);
        map.put("num0", 0x52, false);
        map.put("num.", 0x53, false);
        map.put("f11", 0x57, false);
        map.put("f12", 0x58, false);
        map.put("numenter", 0x9C, true);
        map.put("num/", 0xB5, true);
        map.put("home", 0xC7, true);
        map.put("up", 0xC8, true);
        map.put("pageup", 0xC9, true);
        map.put("left", 0xCB, true);
        map.put("right", 0xCD, true);
        map.put("end", 0xCF, true);
        map.put("down", 0xD0, true);
        map.put("pagedown", 0xD1, true);
        map.put("insert", 0xD2, true);
        map.put("delete", 0xD3, true);
        map
    }

    /// Appends a row whose scancode exceeds every scancode already present.
    fn put(&mut self, name: &str, scancode: u16, extended: bool)
        requires
            old(self).wf(),
            old(self)@.len() > 0 ==> old(self)@.last().1 < scancode,
        ensures
            final(self)@ == old(self)@.push((name@, scancode, extended)),
            final(self).wf(),
    {
        let ghost before = self@;
        self.entries.push(ScancodeEntry { name: name.to_owned(), scancode, extended });
        assert(self@ =~= before.push((name@, scancode, extended)));
        assert forall|i: int, j: int| 0 <= i < j < self@.len() implies #[trigger] self@[i].1
            < #[trigger] self@[j].1 by {
            if j == before.len() && i < before.len() - 1 {
                assert(before[i].1 < before[before.len() - 1].1);
            }
        }
    }

    /// The scancode and extended flag of the key `key`, or `None` when the
    /// table has no such key.
    pub fn lookup(&self, key: &str) -> (r: Option<(u16, bool)>)
        ensures
            r == lookup_spec(self@, key@),
    {
        let name = key.to_owned();
        let mut i: usize = 0;
        while i < self.entries.len()
            invariant
                i <= self.entries.len(),
                name@ == key@,
                forall|j: int| 0 <= j < i ==> !(#[trigger] has_name(key@)(self@[j])),
            decreases self.entries.len() - i,
        {
            if self.entries[i].name == name {
                proof {
                    lemma_first_match_at(self@, has_name(key@), i as int);
                }
                return Some((self.entries[i].scancode, self.entries[i].extended));
            }
            i += 1;
        }
        proof {
            lemma_first_match_none(self@, has_name(key@));
        }
        None
    }

    /// The scancode of the key `key`, or `None` when the table has no such key.
    pub fn get(&self, key: &str) -> (r: Option<u16>)
        ensures
            r == (match lookup_spec(self@, key@) {
                Some(p) => Some(p.0),
                None => None,
            }),
    {
        match self.lookup(key) {
            Some((scancode, _)) => Some(scancode),
            None => None,
        }
    }

    /// Whether the key `key` is an extended key; `false` for a key the table lacks.
    pub fn is_extended(&self, key: &str) -> (r: bool)
        ensures
            r == (lookup_spec(self@, key@) matches Some(p) && p.1),
    {
        match self.lookup(key) {
            Some((_, extended)) => extended,
            None => false,
        }
    }

    /// The name of the key with this scancode and extended flag, or `None`
    /// for a hardware code that the table does not name.
    pub fn reverse_lookup(&self, scancode: u16, extended: bool) -> (r: Option<String>)
        ensures
            match r {
                Some(name) => reverse_lookup_spec(self@, scancode, extended) == Some(name@),
                None => reverse_lookup_spec(self@, scancode, extended) is None,
            },
    {
        let mut i: usize = 0;
        while i < self.entries.len()
            invariant
                i <= self.entries.len(),
                forall|j: int| 0 <= j < i ==> !(#[trigger] has_code(scancode, extended)(self@[j])),
            decreases self.entries.len() - i,
        {
            if self.entries[i].scancode == scancode && self.entries[i].extended == extended {
                proof {
                    lemma_first_match_at(self@, has_code(scancode, extended), i as int);
                }
                return Some(self.entries[i].name.clone());
            }
            i += 1;
        }
        proof {
            lemma_first_match_none(self@, has_code(scancode, extended));
        }
        None
    }
}

/// Decoding a key's own hardware code gives the key back: for every name the
/// table maps, the reverse lookup of its (scancode, extended) pair returns
/// that name.
pub proof fn lemma_round_trip(map: &ScancodeMap, name: Seq<char>)
    requires
        map.wf(),
    ensures
        lookup_spec(map@, name) matches Some(p) ==> reverse_lookup_spec(map@, p.0, p.1)
            == Some(name),
{
    let t = map@;
    lemma_first_match(t, has_name(name));
    if let Some(i) = first_match(t, has_name(name)) {
        assert forall|j: int| 0 <= j < i implies !(#[trigger] has_code(t[i].1, t[i].2)(t[j])) by {
            assert(t[j].1 < t[i].1);
        }
        lemma_first_match_at(t, has_code(t[i].1, t[i].2), i);
    }
}

} // verus!
