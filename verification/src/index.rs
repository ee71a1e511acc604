//! Hash indexes from names and from call sites to positions in a list.
//! They are FNV hash maps, whose hashing is fixed and fast on short keys.

use vstd::prelude::*;
use fnv::FnvHashMap;

verus! {

/// The hasher of the `fnv` crate. Nothing is said of what is inside it.
#[verifier::external_type_specification]
#[verifier::external_body]
pub struct ExFnvHasher(fnv::FnvHasher);

/// The builder of default hashers of the standard library, with which the
/// maps of the `fnv` crate make their hashers. Nothing is said of what is
/// inside it.
#[verifier::external_type_specification]
#[verifier::external_body]
#[verifier::reject_recursive_types(H)]
pub struct ExBuildHasherDefault<H>(std::hash::BuildHasherDefault<H>);

/// What a map from names holds: the position that each kind and name is
/// mapped to.
pub uninterp spec fn name_entries(m: &FnvHashMap<(u8, String), usize>) -> Map<(u8, Seq<char>), usize>;

/// What a map from call sites holds: the position that each site is mapped
/// to.
pub uninterp spec fn site_entries(m: &FnvHashMap<(u32, u32, u32), usize>) -> Map<(u32, u32, u32), usize>;

/// The map from names that holds nothing.
pub open spec fn no_names() -> Map<(u8, Seq<char>), usize> {
    Map::empty()
}

/// The map from call sites that holds nothing.
pub open spec fn no_sites() -> Map<(u32, u32, u32), usize> {
    Map::empty()
}

/// The value that a map holds at a key, if it holds one.
pub open spec fn entry_at<K, V>(m: Map<K, V>, key: K) -> Option<V> {
    if m.contains_key(key) {
        Some(m[key])
    } else {
        None
    }
}

/// `FnvHashMap::default`: a new map holds nothing.
#[verifier::external_body]
fn names_new() -> (m: FnvHashMap<(u8, String), usize>)
    ensures
        name_entries(&m) == no_names(),
{
    FnvHashMap::default()
}

/// `HashMap::get`: the value stored at the key, if there is one.
#[verifier::external_body]
fn names_get(m: &FnvHashMap<(u8, String), usize>, kind: u8, name: &str) -> (r: Option<usize>)
    ensures
        r == entry_at(name_entries(m), (kind, name@)),
{
    m.get(&(kind, name.to_string())).copied()
}

/// `HashMap::insert`: afterwards the map holds the value at the key, and
/// is otherwise as before; the value that the key had is returned.
#[verifier::external_body]
fn names_insert(m: &mut FnvHashMap<(u8, String), usize>, kind: u8, name: &str, value: usize) -> (r: Option<
    usize,
>)
    ensures
        name_entries(final(m)) == name_entries(old(m)).insert((kind, name@), value),
        r == entry_at(name_entries(old(m)), (kind, name@)),
{
    m.insert((kind, name.to_string()), value)
}

/// `FnvHashMap::default`: a new map holds nothing.
#[verifier::external_body]
fn sites_new() -> (m: FnvHashMap<(u32, u32, u32), usize>)
    ensures
        site_entries(&m) == no_sites(),
{
    FnvHashMap::default()
}

/// `HashMap::get`: the value stored at the key, if there is one.
#[verifier::external_body]
fn sites_get(m: &FnvHashMap<(u32, u32, u32), usize>, site: (u32, u32, u32)) -> (r: Option<usize>)
    ensures
        r == entry_at(site_entries(m), site),
{
    m.get(&site).copied()
}

/// `HashMap::insert`: afterwards the map holds the value at the key, and
/// is otherwise as before; the value that the key had is returned.
#[verifier::external_body]
fn sites_insert(m: &mut FnvHashMap<(u32, u32, u32), usize>, site: (u32, u32, u32), value: usize) -> (r: Option<
    usize,
>)
    ensures
        site_entries(final(m)) == site_entries(old(m)).insert(site, value),
        r == entry_at(site_entries(old(m)), site),
{
    m.insert(site, value)
}

/// An index from a kind and a name to a position.
pub struct NameIndex {
    map: FnvHashMap<(u8, String), usize>,
}

impl View for NameIndex {
    type V = Map<(u8, Seq<char>), usize>;

    closed spec fn view(&self) -> Map<(u8, Seq<char>), usize> {
        name_entries(&self.map)
    }
}

impl NameIndex {
    /// An index that maps nothing.
    pub fn new() -> (r: NameIndex)
        ensures
            r@ == no_names(),
    {
        NameIndex { map: names_new() }
    }

    /// The position that the kind and name are mapped to.
    pub fn get(&self, kind: u8, name: &str) -> (r: Option<usize>)
        ensures
            r == entry_at(self@, (kind, name@)),
    {
        names_get(&self.map, kind, name)
    }

    /// Maps the kind and name to `value`, and returns what they were mapped
    /// to before.
    pub fn insert(&mut self, kind: u8, name: &str, value: usize) -> (r: Option<usize>)
        ensures
            final(self)@ == old(self)@.insert((kind, name@), value),
            r == entry_at(old(self)@, (kind, name@)),
    {
        names_insert(&mut self.map, kind, name, value)
    }
}

/// An index from a call site, as file, line and column, to a position.
pub struct SiteIndex {
    map: FnvHashMap<(u32, u32, u32), usize>,
}

impl View for SiteIndex {
    type V = Map<(u32, u32, u32), usize>;

    closed spec fn view(&self) -> Map<(u32, u32, u32), usize> {
        site_entries(&self.map)
    }
}

impl SiteIndex {
    /// An index that maps nothing.
    pub fn new() -> (r: SiteIndex)
        ensures
            r@ == no_sites(),
    {
        SiteIndex { map: sites_new() }
    }

    /// The position that the site is mapped to.
    pub fn get(&self, site: (u32, u32, u32)) -> (r: Option<usize>)
        ensures
            r == entry_at(self@, site),
    {
        sites_get(&self.map, site)
    }

    /// Maps the site to `value`, and returns what it was mapped to before.
    pub fn insert(&mut self, site: (u32, u32, u32), value: usize) -> (r: Option<usize>)
        ensures
            final(self)@ == old(self)@.insert(site, value),
            r == entry_at(old(self)@, site),
    {
        sites_insert(&mut self.map, site, value)
    }
}

} // verus!
