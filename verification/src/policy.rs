//! The category policy table: category name to content policy, fixed
//! at startup and read-only afterwards. Every upload and retrieval
//! must name a category present here.

use vstd::prelude::*;

verus! {

/// One category: its name and whether it accepts parts whose declared
/// content type does not indicate an image.
pub struct CategoryPolicy {
    pub name: String,
    pub allow_non_image_content: bool,
}

/// The table as a mathematical map from category name to its
/// `allow_non_image_content` flag; a later entry for the same name
/// shadows an earlier one.
pub open spec fn policies_as_map(entries: Seq<CategoryPolicy>) -> Map<Seq<char>, bool>
    decreases entries.len(),
{
    if entries.len() == 0 {
        Map::empty()
    } else {
        policies_as_map(entries.drop_last()).insert(
            entries.last().name@,
            entries.last().allow_non_image_content,
        )
    }
}

proof fn lemma_policies_no_match(entries: Seq<CategoryPolicy>, name: Seq<char>)
    requires
        forall|j: int| 0 <= j < entries.len() ==> entries[j].name@ != name,
    ensures
        !policies_as_map(entries).contains_key(name),
    decreases entries.len(),
{
    if entries.len() > 0 {
        lemma_policies_no_match(entries.drop_last(), name);
    }
}

proof fn lemma_policies_last_match(entries: Seq<CategoryPolicy>, name: Seq<char>, i: int)
    requires
        0 <= i < entries.len(),
        entries[i].name@ == name,
        forall|j: int| i < j < entries.len() ==> entries[j].name@ != name,
    ensures
        policies_as_map(entries).contains_key(name),
        policies_as_map(entries)[name] == entries[i].allow_non_image_content,
    decreases entries.len(),
{
    if i < entries.len() - 1 {
        lemma_policies_last_match(entries.drop_last(), name, i);
    }
}

/// The category policy table of one server process.
pub struct PolicyTable {
    entries: Vec<CategoryPolicy>,
}

impl View for PolicyTable {
    type V = Map<Seq<char>, bool>;

    closed spec fn view(&self) -> Map<Seq<char>, bool> {
        policies_as_map(self.entries@)
    }
}

impl PolicyTable {
    /// A table with no categories.
    pub fn new() -> (r: Self)
        ensures
            r@ == Map::<Seq<char>, bool>::empty(),
    {
        PolicyTable { entries: Vec::new() }
    }

    /// Enters a category, replacing the policy of an earlier entry
    /// with the same name.
    pub fn insert(&mut self, name: String, allow_non_image_content: bool)
        ensures
            final(self)@ == old(self)@.insert(name@, allow_non_image_content),
    {
        let ghost pre = self.entries@;
        self.entries.push(CategoryPolicy { name, allow_non_image_content });
        proof {
            assert(self.entries@.drop_last() =~= pre);
        }
    }

    /// The `allow_non_image_content` flag of the named category, or
    /// `None` when the category is absent.
    pub fn lookup(&self, name: &String) -> (r: Option<bool>)
        ensures
            r matches Some(allow) ==> self@.contains_key(name@) && self@[name@] == allow,
            r is None ==> !self@.contains_key(name@),
    {
        let mut i: usize = self.entries.len();
        while i > 0
            invariant
                i <= self.entries.len(),
                forall|j: int| i <= j < self.entries@.len() ==> self.entries@[j].name@ != name@,
            decreases i,
        {
            i -= 1;
            if self.entries[i].name == *name {
                proof {
                    lemma_policies_last_match(self.entries@, name@, i as int);
                }
                return Some(self.entries[i].allow_non_image_content);
            }
        }
        proof {
            lemma_policies_no_match(self.entries@, name@);
        }
        None
    }

    /// Whether the named category is present.
    pub fn contains(&self, name: &String) -> (r: bool)
        ensures
            r == self@.contains_key(name@),
    {
        self.lookup(name).is_some()
    }
}

} // verus!
