use vstd::prelude::*;

verus! {

/// The value of one property of an element, as far as the guard tells values apart.
/// Floating-point numbers, lists, nested objects and date-times are all `Other`.
#[derive(Debug, Clone)]
pub enum ElementValue {
    Null,
    Bool(bool),
    Integer(i64),
    String(String),
    Other,
}

/// The value stored for `key` by the first entry that holds `key`, searching from `i`.
pub open spec fn lookup_from(entries: Seq<(String, ElementValue)>, key: Seq<char>, i: int) -> Option<
    ElementValue,
>
    decreases entries.len() - i,
{
    if i < 0 || i >= entries.len() {
        None
    } else if entries[i].0@ == key {
        Some(entries[i].1)
    } else {
        lookup_from(entries, key, i + 1)
    }
}

/// The properties of an element: a map from property names to values.
#[derive(Debug, Clone)]
pub struct ElementPropertyMap {
    entries: Vec<(String, ElementValue)>,
}

impl View for ElementPropertyMap {
    type V = Map<Seq<char>, ElementValue>;

    closed spec fn view(&self) -> Map<Seq<char>, ElementValue> {
        Map::new(
            |k: Seq<char>| lookup_from(self.entries@, k, 0) is Some,
            |k: Seq<char>| lookup_from(self.entries@, k, 0)->0,
        )
    }
}

/// Past index `i` the two entry lists are the same, so lookups from there agree.
proof fn lemma_lookup_same_suffix(
    a: Seq<(String, ElementValue)>,
    b: Seq<(String, ElementValue)>,
    key: Seq<char>,
    i: int,
)
    requires
        0 <= i,
        a.len() == b.len(),
        forall|m: int| i <= m < a.len() ==> a[m] == b[m],
    ensures
        lookup_from(a, key, i) == lookup_from(b, key, i),
    decreases a.len() - i,
{
    if i < a.len() {
        lemma_lookup_same_suffix(a, b, key, i + 1);
    }
}

/// Replacing the value of the first entry for `key` changes the lookup of `key` only.
proof fn lemma_lookup_replace(
    old: Seq<(String, ElementValue)>,
    new: Seq<(String, ElementValue)>,
    key: Seq<char>,
    at: int,
    value: ElementValue,
    k: Seq<char>,
    j: int,
)
    requires
        0 <= j <= at < old.len(),
        new.len() == old.len(),
        new[at].0@ == key,
        old[at].0@ == key,
        new[at].1 == value,
        forall|m: int| 0 <= m < old.len() && m != at ==> new[m] == old[m],
        forall|m: int| 0 <= m < at ==> old[m].0@ != key,
    ensures
        lookup_from(new, k, j) == (if k == key {
            Some(value)
        } else {
            lookup_from(old, k, j)
        }),
    decreases at - j,
{
    if j < at {
        lemma_lookup_replace(old, new, key, at, value, k, j + 1);
    } else {
        lemma_lookup_same_suffix(old, new, k, at + 1);
    }
}

/// Appending an entry for a key that no entry holds adds exactly that key.
proof fn lemma_lookup_push(
    old: Seq<(String, ElementValue)>,
    entry: (String, ElementValue),
    k: Seq<char>,
    j: int,
)
    requires
        0 <= j <= old.len(),
        forall|m: int| 0 <= m < old.len() ==> old[m].0@ != entry.0@,
    ensures
        lookup_from(old.push(entry), k, j) == (if k == entry.0@ {
            Some(entry.1)
        } else {
            lookup_from(old, k, j)
        }),
    decreases old.len() - j,
{
    let new = old.push(entry);
    if j < old.len() {
        assert(new[j] == old[j]);
        lemma_lookup_push(old, entry, k, j + 1);
    } else {
        assert(new[j] == entry);
        assert(lookup_from(new, k, j + 1) == None::<ElementValue>);
    }
}

impl ElementPropertyMap {
    /// An empty property map.
    pub fn new() -> (m: Self)
        ensures
            m@ == Map::<Seq<char>, ElementValue>::empty(),
    {
        let m = ElementPropertyMap { entries: Vec::new() };
        assert(m@ =~= Map::<Seq<char>, ElementValue>::empty());
        m
    }

    /// The value of property `key`, if the map holds one.
    pub fn get(&self, key: &str) -> (res: Option<&ElementValue>)
        ensures
            match res {
                Some(v) => self@.contains_key(key@) && *v == self@[key@],
                None => !self@.contains_key(key@),
            },
    {
        let wanted = String::from_str(key);
        let n = self.entries.len();
        let mut i: usize = 0;
        while i < n
            invariant
                n == self.entries@.len(),
                i <= n,
                wanted@ == key@,
                lookup_from(self.entries@, key@, 0) == lookup_from(self.entries@, key@, i as int),
            decreases n - i,
        {
            if self.entries[i].0 == wanted {
                return Some(&self.entries[i].1);
            }
            i = i + 1;
        }
        None
    }

    /// Sets property `key` to `value`, replacing any value it had.
    pub fn insert(&mut self, key: &str, value: ElementValue)
        ensures
            final(self)@ == old(self)@.insert(key@, value),
    {
        let wanted = String::from_str(key);
        let n = self.entries.len();
        let mut i: usize = 0;
        while i < n
            invariant
                n == self.entries@.len(),
                i <= n,
                wanted@ == key@,
                self.entries@ == old(self).entries@,
                forall|m: int| 0 <= m < i ==> self.entries@[m].0@ != key@,
            decreases n - i,
        {
            if self.entries[i].0 == wanted {
                let ghost before = self.entries@;
                self.entries.set(i, (wanted, value));
                proof {
                    let after = self.entries@;
                    assert forall|k: Seq<char>|
                        lookup_from(after, k, 0) == (if k == key@ {
                            Some(value)
                        } else {
                            lookup_from(before, k, 0)
                        }) by {
                        lemma_lookup_replace(before, after, key@, i as int, value, k, 0);
                    }
                    assert(self@ =~= old(self)@.insert(key@, value));
                }
                return;
            }
            i = i + 1;
        }
        let ghost before = self.entries@;
        let entry = (wanted, value);
        self.entries.push(entry);
        proof {
            assert forall|k: Seq<char>|
                lookup_from(self.entries@, k, 0) == (if k == key@ {
                    Some(value)
                } else {
                    lookup_from(before, k, 0)
                }) by {
                lemma_lookup_push(before, entry, k, 0);
            }
            assert(self@ =~= old(self)@.insert(key@, value));
        }
    }
}

/// Identifies an element: the source it comes from and its id within that source.
#[derive(Debug, Clone)]
pub struct ElementReference {
    pub source_id: String,
    pub element_id: String,
}

impl ElementReference {
    pub fn new(source_id: &str, element_id: &str) -> (r: Self)
        ensures
            r.source_id@ == source_id@,
            r.element_id@ == element_id@,
    {
        ElementReference {
            source_id: String::from_str(source_id),
            element_id: String::from_str(element_id),
        }
    }
}

/// What every element and every deletion carries.
#[derive(Debug, Clone)]
pub struct ElementMetadata {
    pub reference: ElementReference,
    pub labels: Vec<String>,
    /// The time from which this version of the element is valid, in milliseconds since the
    /// UNIX epoch.
    pub effective_from: u64,
}

/// A node or a relation of the source graph.
#[derive(Debug, Clone)]
pub enum Element {
    Node { metadata: ElementMetadata, properties: ElementPropertyMap },
    Relation {
        metadata: ElementMetadata,
        in_node: ElementReference,
        out_node: ElementReference,
        properties: ElementPropertyMap,
    },
}

impl Element {
    #[verifier::allow_in_spec]
    pub fn get_metadata(&self) -> &ElementMetadata
        returns
            match self {
                Element::Node { metadata, .. } => metadata,
                Element::Relation { metadata, .. } => metadata,
            },
    {
        match self {
            Element::Node { metadata, .. } => metadata,
            Element::Relation { metadata, .. } => metadata,
        }
    }

    #[verifier::allow_in_spec]
    pub fn get_reference(&self) -> &ElementReference
        returns
            &self.get_metadata().reference,
    {
        &self.get_metadata().reference
    }

    #[verifier::allow_in_spec]
    pub fn get_effective_from(&self) -> u64
        returns
            self.get_metadata().effective_from,
    {
        self.get_metadata().effective_from
    }

    #[verifier::allow_in_spec]
    pub fn get_properties(&self) -> &ElementPropertyMap
        returns
            match self {
                Element::Node { properties, .. } => properties,
                Element::Relation { properties, .. } => properties,
            },
    {
        match self {
            Element::Node { properties, .. } => properties,
            Element::Relation { properties, .. } => properties,
        }
    }
}

/// A change that is due to be re-evaluated at a later time.
#[derive(Debug, Clone)]
pub struct FutureElementRef {
    pub element_ref: ElementReference,
    pub original_time: u64,
    pub due_time: u64,
    pub group_signature: u64,
}

/// A change that a source reports about one element.
#[derive(Debug, Clone)]
pub enum SourceChange {
    Insert { element: Element },
    Update { element: Element },
    Delete { metadata: ElementMetadata },
    Future { future_ref: FutureElementRef },
}

} // verus!
