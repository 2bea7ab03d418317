//! A table of export records for one compilation unit: each export key
//! bound to the frozen text of the item exported under it. A key is taken
//! once; a second item under the same key is refused.

use vstd::prelude::*;
use vstd::string::*;
use crate::error::MacroError;
use crate::export::{export_item_name, export_name_of};
use crate::names::{export_key, export_tokens_macro_ident};
use crate::syntax::{parse_whole_path, path_of, texts};
use crate::tokens::{lex, lexed, str_eq};

verus! {

/// Why an item was not registered.
#[derive(Clone, Copy, PartialEq, Eq, Structural, Debug)]
pub enum RegistryError {
    /// The item cannot be exported.
    Refused(MacroError),
    /// Another item is already exported under the same key.
    Duplicate,
}

/// An export record: a key and the frozen text of an item.
pub struct ExportRecord {
    pub key: String,
    pub item: String,
}

/// The export records of one compilation unit.
pub struct ExportRegistry {
    records: Vec<ExportRecord>,
}

/// The item recorded under `key` among `rs`, if any.
pub open spec fn find(rs: Seq<ExportRecord>, key: Seq<char>) -> Option<Seq<char>>
    decreases rs.len(),
{
    if rs.len() == 0 {
        None
    } else if rs.last().key@ == key {
        Some(rs.last().item@)
    } else {
        find(rs.drop_last(), key)
    }
}

/// What importing the path `path` retrieves from the records `m`: the item
/// recorded under the export key of the path's last segment.
pub open spec fn lookup_of(m: Map<Seq<char>, Seq<char>>, path: Seq<char>) -> Option<Seq<char>> {
    match lexed(path) {
        Some(ts) => match path_of(ts) {
            Some(segs) => if m.contains_key(export_key(segs.last())) {
                Some(m[export_key(segs.last())])
            } else {
                None
            },
            None => None,
        },
        None => None,
    }
}

/// What registering `item` with the argument `attr` in the records `m`
/// gives: the key and the new records, or why it was refused.
pub open spec fn register_of(m: Map<Seq<char>, Seq<char>>, attr: Seq<char>, item: Seq<char>) -> Result<
    (Seq<char>, Map<Seq<char>, Seq<char>>),
    RegistryError,
> {
    match export_name_of(attr, item) {
        Err(e) => Err(RegistryError::Refused(e)),
        Ok(n) => if m.contains_key(export_key(n)) {
            Err(RegistryError::Duplicate)
        } else {
            Ok((export_key(n), m.insert(export_key(n), item)))
        },
    }
}

impl ExportRegistry {
    /// The records as a map from key to item text.
    pub closed spec fn view(&self) -> Map<Seq<char>, Seq<char>> {
        Map::new(|k: Seq<char>| find(self.records@, k) is Some, |k: Seq<char>| find(self.records@, k)->0)
    }

    /// An empty registry.
    pub fn new() -> (r: ExportRegistry)
        ensures
            r@ == Map::<Seq<char>, Seq<char>>::empty(),
    {
        let r = ExportRegistry { records: Vec::new() };
        assert(r@ =~= Map::<Seq<char>, Seq<char>>::empty());
        r
    }

    /// The item recorded under `key`.
    pub fn get(&self, key: &str) -> (r: Option<String>)
        ensures
            match r {
                Some(i) => self@.contains_key(key@) && self@[key@] == i@,
                None => !self@.contains_key(key@),
            },
    {
        let mut i = self.records.len();
        assert(self.records@.subrange(0, i as int) =~= self.records@);
        while i > 0
            invariant
                i <= self.records@.len(),
                find(self.records@, key@) == find(self.records@.subrange(0, i as int), key@),
            decreases i,
        {
            let ghost pre = self.records@.subrange(0, i as int);
            assert(pre.drop_last() =~= self.records@.subrange(0, i - 1));
            if str_eq(self.records[i - 1].key.as_str(), key) {
                return Some(self.records[i - 1].item.clone());
            }
            i = i - 1;
        }
        None
    }

    /// Registers `item` under the export key of its name (or of `attr`):
    /// refused where the item cannot be exported or the key is taken, and
    /// then nothing changes.
    pub fn register(&mut self, attr: &str, item: &str) -> (r: Result<String, RegistryError>)
        ensures
            match r {
                Ok(k) => register_of(old(self)@, attr@, item@) == Ok::<
                    (Seq<char>, Map<Seq<char>, Seq<char>>),
                    RegistryError,
                >((k@, final(self)@)),
                Err(e) => register_of(old(self)@, attr@, item@) == Err::<
                    (Seq<char>, Map<Seq<char>, Seq<char>>),
                    RegistryError,
                >(e) && final(self)@ == old(self)@,
            },
    {
        let name = match export_item_name(attr, item) {
            Ok(n) => n,
            Err(e) => return Err(RegistryError::Refused(e)),
        };
        let key = export_tokens_macro_ident(name.as_str());
        match self.get(key.as_str()) {
            Some(_) => return Err(RegistryError::Duplicate),
            None => {},
        }
        let ghost before = self@;
        self.records.push(ExportRecord { key: key.clone(), item: String::from_str(item) });
        assert(self@ =~= before.insert(key@, item@)) by {
            assert forall|k: Seq<char>| #[trigger] find(self.records@, k) == if k == key@ {
                Some(item@)
            } else {
                find(old(self).records@, k)
            } by {
                assert(self.records@.drop_last() =~= old(self).records@);
            }
        }
        Ok(key)
    }

    /// The item that importing `path` retrieves: the one recorded under the
    /// export key of the path's last segment.
    pub fn lookup(&self, path: &str) -> (r: Option<String>)
        ensures
            match r {
                Some(i) => lookup_of(self@, path@) == Some(i@),
                None => lookup_of(self@, path@) is None,
            },
    {
        let ts = match lex(path) {
            Some(ts) => ts,
            None => return None,
        };
        let segs = match parse_whole_path(&ts) {
            Some(s) => s,
            None => return None,
        };
        proof {
            assert(texts(segs@).len() > 0);
        }
        let last = segs.len() - 1;
        let key = export_tokens_macro_ident(segs[last].as_str());
        self.get(key.as_str())
    }
}

} // verus!
