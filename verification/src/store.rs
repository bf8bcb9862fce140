//! The committed asset store: a map from `(category, filename)` to
//! the asset's bytes. The store only ever changes through `put`,
//! which refuses to replace an existing asset unless overwriting was
//! asked for — the commit-time half of the collision rule.

use vstd::prelude::*;

verus! {

/// One committed asset: the category and filename that address it,
/// and its bytes.
pub struct Asset {
    pub category: String,
    pub file_name: String,
    pub data: Vec<u8>,
}

impl Asset {
    /// The `(category, filename)` pair that addresses this asset.
    pub open spec fn key(self) -> (Seq<char>, Seq<char>) {
        (self.category@, self.file_name@)
    }
}

/// The assets as a mathematical map from `(category, filename)` to
/// bytes; a later entry for the same key shadows an earlier one.
pub open spec fn assets_as_map(entries: Seq<Asset>) -> Map<(Seq<char>, Seq<char>), Seq<u8>>
    decreases entries.len(),
{
    if entries.len() == 0 {
        Map::empty()
    } else {
        assets_as_map(entries.drop_last()).insert(entries.last().key(), entries.last().data@)
    }
}

proof fn lemma_assets_no_match(entries: Seq<Asset>, key: (Seq<char>, Seq<char>))
    requires
        forall|j: int| 0 <= j < entries.len() ==> entries[j].key() != key,
    ensures
        !assets_as_map(entries).contains_key(key),
    decreases entries.len(),
{
    if entries.len() > 0 {
        lemma_assets_no_match(entries.drop_last(), key);
    }
}

proof fn lemma_assets_last_match(entries: Seq<Asset>, key: (Seq<char>, Seq<char>), i: int)
    requires
        0 <= i < entries.len(),
        entries[i].key() == key,
        forall|j: int| i < j < entries.len() ==> entries[j].key() != key,
    ensures
        assets_as_map(entries).contains_key(key),
        assets_as_map(entries)[key] == entries[i].data@,
    decreases entries.len(),
{
    if i < entries.len() - 1 {
        lemma_assets_last_match(entries.drop_last(), key, i);
    }
}

/// The store of committed assets, addressed by category and filename.
pub struct AssetStore {
    assets: Vec<Asset>,
}

impl View for AssetStore {
    type V = Map<(Seq<char>, Seq<char>), Seq<u8>>;

    closed spec fn view(&self) -> Map<(Seq<char>, Seq<char>), Seq<u8>> {
        assets_as_map(self.assets@)
    }
}

impl AssetStore {
    /// An empty store.
    pub fn new() -> (r: Self)
        ensures
            r@ == Map::<(Seq<char>, Seq<char>), Seq<u8>>::empty(),
    {
        AssetStore { assets: Vec::new() }
    }

    /// The index of the newest entry for the key, scanning backwards.
    fn find(&self, category: &String, file_name: &String) -> (r: Option<usize>)
        ensures
            r matches Some(i) ==> i < self.assets@.len() && self.assets@[i as int].key() == (
                category@,
                file_name@,
            ) && self@.contains_key((category@, file_name@)) && self@[(category@, file_name@)]
                == self.assets@[i as int].data@,
            r is None ==> !self@.contains_key((category@, file_name@)),
    {
        let mut i: usize = self.assets.len();
        while i > 0
            invariant
                i <= self.assets.len(),
                forall|j: int|
                    i <= j < self.assets@.len() ==> self.assets@[j].key() != (
                        category@,
                        file_name@,
                    ),
            decreases i,
        {
            i -= 1;
            if self.assets[i].category == *category && self.assets[i].file_name == *file_name {
                proof {
                    lemma_assets_last_match(self.assets@, (category@, file_name@), i as int);
                }
                return Some(i);
            }
        }
        proof {
            lemma_assets_no_match(self.assets@, (category@, file_name@));
        }
        None
    }

    /// Whether an asset is committed under `(category, filename)`.
    pub fn contains(&self, category: &String, file_name: &String) -> (r: bool)
        ensures
            r == self@.contains_key((category@, file_name@)),
    {
        self.find(category, file_name).is_some()
    }

    /// The bytes committed under `(category, filename)`, if any.
    pub fn get(&self, category: &String, file_name: &String) -> (r: Option<&Vec<u8>>)
        ensures
            r matches Some(data) ==> self@.contains_key((category@, file_name@)) && data@
                == self@[(category@, file_name@)],
            r is None ==> !self@.contains_key((category@, file_name@)),
    {
        match self.find(category, file_name) {
            Some(i) => Some(&self.assets[i].data),
            None => None,
        }
    }

    /// Commits an asset. Fails cleanly, changing nothing, when the
    /// key is already present and `overwrite` is false.
    pub fn put(&mut self, category: String, file_name: String, data: Vec<u8>, overwrite: bool) -> (r:
        Result<(), ()>)
        ensures
            r is Ok <==> overwrite || !old(self)@.contains_key((category@, file_name@)),
            r is Ok ==> final(self)@ == old(self)@.insert((category@, file_name@), data@),
            r is Err ==> final(self)@ == old(self)@,
    {
        if !overwrite && self.contains(&category, &file_name) {
            return Err(());
        }
        let ghost pre = self.assets@;
        self.assets.push(Asset { category, file_name, data });
        proof {
            assert(self.assets@.drop_last() =~= pre);
        }
        Ok(())
    }
}

/// A copy of a byte vector, equal to it element for element.
pub(crate) fn clone_bytes(v: &Vec<u8>) -> (r: Vec<u8>)
    ensures
        r@ == v@,
{
    let mut r: Vec<u8> = Vec::new();
    let mut i: usize = 0;
    while i < v.len()
        invariant
            i <= v@.len(),
            r@ == v@.subrange(0, i as int),
        decreases v@.len() - i,
    {
        r.push(v[i]);
        i += 1;
        proof {
            assert(v@.subrange(0, i as int) =~= v@.subrange(0, i - 1).push(v@[i - 1]));
        }
    }
    proof {
        assert(v@.subrange(0, v@.len() as int) =~= v@);
    }
    r
}

} // verus!
