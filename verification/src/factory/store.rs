//! The products that a factory can produce, by driver reference.
use crate::json::{json_clone, json_is_object, json_null};
use crate::text::text_equals;
use serde_json::Value;
use vstd::prelude::*;

verus! {

/// Description of a driver that a factory can produce.
#[derive(Debug)]
pub struct Product {
    /// What the driver does
    pub description: String,
    /// Properties of the settings of the driver
    pub props: Value,
}

impl Clone for Product {
    fn clone(&self) -> (r: Self)
        ensures
            r == *self,
    {
        Product { description: self.description.clone(), props: json_clone(&self.props) }
    }
}

impl Default for Product {
    fn default() -> (r: Self)
        ensures
            r.description@ == Seq::<char>::empty(),
            !json_is_object(r.props),
    {
        Product { description: String::new(), props: json_null() }
    }
}

/// Keys of the entries are distinct.
pub open spec fn unique_keys(s: Seq<(String, Product)>) -> bool {
    forall|i: int, j: int| 0 <= i < j < s.len() ==> (#[trigger] s[i]).0@ != (#[trigger] s[j]).0@
}

/// The map that a list of entries with distinct keys stands for.
pub open spec fn entries_map(s: Seq<(String, Product)>) -> Map<Seq<char>, Product>
    decreases s.len(),
{
    if s.len() == 0 {
        Map::empty()
    } else {
        entries_map(s.drop_last()).insert(s.last().0@, s.last().1)
    }
}

/// # Store
///
/// Information about the drivers that a factory can produce, by driver
/// reference ("dref"):
///
/// {
///     "dref" {
///         "description": "....",
///         "props": {}
///     }
/// }
#[derive(Debug)]
pub struct Store {
    products: Vec<(String, Product)>,
}

impl View for Store {
    type V = Map<Seq<char>, Product>;

    closed spec fn view(&self) -> Map<Seq<char>, Product> {
        entries_map(self.products@)
    }
}

/// An entry's key is in the map, and maps to the entry's product.
proof fn lemma_entries_map_has(s: Seq<(String, Product)>, i: int)
    requires
        unique_keys(s),
        0 <= i < s.len(),
    ensures
        entries_map(s).contains_key(s[i].0@),
        entries_map(s)[s[i].0@] == s[i].1,
    decreases s.len(),
{
    if i < s.len() - 1 {
        let t = s.drop_last();
        assert(t[i] == s[i]);
        assert(s[i].0@ != s[s.len() - 1].0@);
        lemma_entries_map_has(t, i);
    }
}

/// The keys of the map are those of the entries.
proof fn lemma_entries_map_keys(s: Seq<(String, Product)>, k: Seq<char>)
    ensures
        entries_map(s).contains_key(k) <==> exists|i: int| 0 <= i < s.len() && (#[trigger] s[i]).0@ == k,
    decreases s.len(),
{
    if s.len() > 0 {
        let t = s.drop_last();
        lemma_entries_map_keys(t, k);
        if entries_map(t).contains_key(k) {
            let i = choose|i: int| 0 <= i < t.len() && (#[trigger] t[i]).0@ == k;
            assert(s[i] == t[i]);
        }
        if exists|i: int| 0 <= i < s.len() && (#[trigger] s[i]).0@ == k {
            let i = choose|i: int| 0 <= i < s.len() && (#[trigger] s[i]).0@ == k;
            if i < s.len() - 1 {
                assert(t[i] == s[i]);
            }
        }
    }
}

/// Replacing the product of an entry replaces it in the map.
proof fn lemma_entries_map_update(s: Seq<(String, Product)>, i: int, p: Product)
    requires
        0 <= i < s.len(),
        unique_keys(s),
    ensures
        entries_map(s.update(i, (s[i].0, p))) == entries_map(s).insert(s[i].0@, p),
    decreases s.len(),
{
    let u = s.update(i, (s[i].0, p));
    if i == s.len() - 1 {
        assert(u.drop_last() =~= s.drop_last());
        assert(entries_map(u) =~= entries_map(s).insert(s[i].0@, p));
    } else {
        let t = s.drop_last();
        assert(u.drop_last() =~= t.update(i, (t[i].0, p)));
        assert(s[i].0@ != s[s.len() - 1].0@);
        lemma_entries_map_update(t, i, p);
        assert(entries_map(u) =~= entries_map(s).insert(s[i].0@, p));
    }
}

impl Store {
    #[verifier::type_invariant]
    spec fn wf(self) -> bool {
        unique_keys(self.products@)
    }

    /// An empty store.
    pub fn new() -> (r: Self)
        ensures
            r@ == Map::<Seq<char>, Product>::empty(),
    {
        Store { products: Vec::new() }
    }

    /// Index of the entry with the given reference, if any.
    fn position(&self, dref: &str) -> (r: Option<usize>)
        ensures
            match r {
                Some(i) => i < self.products@.len() && self.products@[i as int].0@ == dref@,
                None => forall|i: int|
                    0 <= i < self.products@.len() ==> (#[trigger] self.products@[i]).0@ != dref@,
            },
    {
        let mut i: usize = 0;
        while i < self.products.len()
            invariant
                i <= self.products@.len(),
                forall|j: int| 0 <= j < i ==> (#[trigger] self.products@[j]).0@ != dref@,
            decreases self.products@.len() - i,
        {
            if text_equals(self.products[i].0.as_str(), dref) {
                return Some(i);
            }
            i = i + 1;
        }
        None
    }

    /// Check if the store contains the given product ref.
    pub fn contains(&self, dref: &String) -> (r: bool)
        ensures
            r == self@.contains_key(dref@),
    {
        proof {
            use_type_invariant(self);
            lemma_entries_map_keys(self.products@, dref@);
        }
        self.position(dref.as_str()).is_some()
    }

    /// Registers a product under a reference, in place of the one it had.
    pub fn insert(&mut self, dref: String, product: Product)
        ensures
            final(self)@ == old(self)@.insert(dref@, product),
    {
        proof {
            use_type_invariant(&*self);
        }
        let found = self.position(dref.as_str());
        let ghost before = self.products@;
        let mut entries: Vec<(String, Product)> = Vec::new();
        std::mem::swap(&mut entries, &mut self.products);
        match found {
            Some(i) => {
                proof {
                    lemma_entries_map_update(before, i as int, product);
                }
                let key = entries[i].0.clone();
                entries.set(i, (key, product));
                assert(entries@ =~= before.update(i as int, (before[i as int].0, product)));
            },
            None => {
                entries.push((dref, product));
                assert(entries@.drop_last() =~= before);
            },
        }
        self.products = entries;
    }

    /// Extend the current store by copying an other: the products of the
    /// other store replace those with the same reference.
    pub fn extend_by_copy(&mut self, other: &Store)
        ensures
            final(self)@ == old(self)@.union_prefer_right(other@),
    {
        proof {
            use_type_invariant(other);
        }
        let ghost start = self@;
        let n = other.products.len();
        let mut i: usize = 0;
        while i < n
            invariant
                n == other.products@.len(),
                i <= n,
                self@ == start.union_prefer_right(entries_map(other.products@.take(i as int))),
            decreases n - i,
        {
            let ghost m = entries_map(other.products@.take(i as int));
            let key = other.products[i].0.clone();
            let product = other.products[i].1.clone();
            self.insert(key, product);
            proof {
                assert(other.products@.take(i + 1).drop_last() =~= other.products@.take(i as int));
                assert(entries_map(other.products@.take(i + 1)) == m.insert(
                    other.products@[i as int].0@,
                    other.products@[i as int].1,
                ));
                assert(self@ =~= start.union_prefer_right(entries_map(other.products@.take(i + 1))));
            }
            i = i + 1;
        }
        assert(other.products@.take(n as int) =~= other.products@);
    }

    /// The entries of the store, one for each reference.
    pub fn entries(&self) -> (r: Vec<(String, Product)>)
        ensures
            unique_keys(r@),
            entries_map(r@) == self@,
    {
        proof {
            use_type_invariant(self);
        }
        let mut v: Vec<(String, Product)> = Vec::new();
        let n = self.products.len();
        let mut i: usize = 0;
        while i < n
            invariant
                n == self.products@.len(),
                i <= n,
                v@ =~= self.products@.take(i as int),
            decreases n - i,
        {
            let key = self.products[i].0.clone();
            let product = self.products[i].1.clone();
            v.push((key, product));
            i = i + 1;
        }
        assert(self.products@.take(n as int) =~= self.products@);
        v
    }
}

/// After `extend_by_copy`, a store holds the products of both stores: the
/// other store's product where both have one under a reference, its own
/// product elsewhere.
pub proof fn lemma_extend_by_copy_contents(before: Store, other: Store, dref: Seq<char>)
    ensures
        before@.union_prefer_right(other@).contains_key(dref) <==> (before@.contains_key(dref)
            || other@.contains_key(dref)),
        other@.contains_key(dref) ==> before@.union_prefer_right(other@)[dref] == other@[dref],
        !other@.contains_key(dref) && before@.contains_key(dref) ==> before@.union_prefer_right(
            other@,
        )[dref] == before@[dref],
{
}

impl Default for Store {
    fn default() -> (r: Self)
        ensures
            r@ == Map::<Seq<char>, Product>::empty(),
    {
        Store::new()
    }
}

} // verus!
