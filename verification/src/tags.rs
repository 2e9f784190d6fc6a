use crate::render::{Color, Vec2};
use vstd::prelude::*;

verus! {

/// A value that a tag can hold. The two floating-point kinds keep the bit
/// pattern of the number, so a value goes in and comes out unchanged.
#[derive(Debug)]
pub enum TagValue {
    String(String),
    Int(i32),
    /// A single-precision number, as its 32 bits.
    Float(u32),
    /// A double-precision number, as its 64 bits.
    Double(u64),
    Color(Color),
    Vec2(Vec2),
}

/// What a `TagValue` holds, with text as a sequence of characters.
pub enum TagValueView {
    String(Seq<char>),
    Int(i32),
    Float(u32),
    Double(u64),
    Color(Color),
    Vec2(Vec2),
}

impl View for TagValue {
    type V = TagValueView;

    open spec fn view(&self) -> TagValueView {
        match self {
            TagValue::String(text) => TagValueView::String(text@),
            TagValue::Int(number) => TagValueView::Int(*number),
            TagValue::Float(bits) => TagValueView::Float(*bits),
            TagValue::Double(bits) => TagValueView::Double(*bits),
            TagValue::Color(color) => TagValueView::Color(*color),
            TagValue::Vec2(vector) => TagValueView::Vec2(*vector),
        }
    }
}

impl Clone for TagValue {
    fn clone(&self) -> (copy: Self)
        ensures
            copy == *self,
    {
        match self {
            TagValue::String(text) => TagValue::String(text.clone()),
            TagValue::Int(number) => TagValue::Int(*number),
            TagValue::Float(bits) => TagValue::Float(*bits),
            TagValue::Double(bits) => TagValue::Double(*bits),
            TagValue::Color(color) => TagValue::Color(*color),
            TagValue::Vec2(vector) => TagValue::Vec2(*vector),
        }
    }
}

impl TagValue {
    /// The text, if this value is text; a value of another kind gives nothing.
    pub fn extract_string(&self) -> (text: Option<String>)
        ensures
            match self@ {
                TagValueView::String(stored) => text is Some && text->0@ == stored,
                _ => text is None,
            },
    {
        match self {
            TagValue::String(x) => Some(x.clone()),
            _ => None,
        }
    }

    /// The bits of the single-precision number, if this value is one.
    pub fn extract_float(&self) -> (bits: Option<u32>)
        ensures
            match self@ {
                TagValueView::Float(stored) => bits == Some(stored),
                _ => bits is None,
            },
    {
        match self {
            TagValue::Float(x) => Some(*x),
            _ => None,
        }
    }

    pub fn extract_int(&self) -> (number: Option<i32>)
        ensures
            match self@ {
                TagValueView::Int(stored) => number == Some(stored),
                _ => number is None,
            },
    {
        match self {
            TagValue::Int(x) => Some(*x),
            _ => None,
        }
    }

    /// The bits of the double-precision number, if this value is one.
    pub fn extract_double(&self) -> (bits: Option<u64>)
        ensures
            match self@ {
                TagValueView::Double(stored) => bits == Some(stored),
                _ => bits is None,
            },
    {
        match self {
            TagValue::Double(x) => Some(*x),
            _ => None,
        }
    }

    pub fn extract_color(&self) -> (color: Option<Color>)
        ensures
            match self@ {
                TagValueView::Color(stored) => color == Some(stored),
                _ => color is None,
            },
    {
        match self {
            TagValue::Color(x) => Some(*x),
            _ => None,
        }
    }

    pub fn extract_vec2(&self) -> (vector: Option<Vec2>)
        ensures
            match self@ {
                TagValueView::Vec2(stored) => vector == Some(stored),
                _ => vector is None,
            },
    {
        match self {
            TagValue::Vec2(x) => Some(*x),
            _ => None,
        }
    }

    /// Reserved for derived values: for now the value stays as it is and the
    /// formula is never called.
    pub fn apply<F: Fn() -> Self>(&mut self, formula: F)
        ensures
            *final(self) == *old(self),
    {
    }
}

/// One entry of a tag store.
#[derive(Debug)]
pub struct Tag {
    pub name: String,
    pub value: TagValue,
}

impl Clone for Tag {
    fn clone(&self) -> (copy: Self)
        ensures
            copy == *self,
    {
        Tag { name: self.name.clone(), value: self.value.clone() }
    }
}

/// The attributes of one entity: at most one value under each name.
#[derive(Debug)]
pub struct TagStore {
    entries: Vec<Tag>,
}

/// Whether some entry among `entries` carries `name`.
spec fn names(entries: Seq<Tag>, name: Seq<char>) -> bool {
    exists|i: int| 0 <= i < entries.len() && #[trigger] entries[i].name@ == name
}

/// An entry among `entries` that carries `name`, where there is one.
spec fn slot(entries: Seq<Tag>, name: Seq<char>) -> int {
    choose|i: int| 0 <= i < entries.len() && #[trigger] entries[i].name@ == name
}

/// No two entries carry the same name.
spec fn distinct(entries: Seq<Tag>) -> bool {
    forall|i: int, j: int|
        0 <= i < j < entries.len() ==> #[trigger] entries[i].name@ != #[trigger] entries[j].name@
}

/// The mapping from names to values that `entries` stands for.
spec fn mapping(entries: Seq<Tag>) -> Map<Seq<char>, TagValueView> {
    Map::new(
        |name: Seq<char>| names(entries, name),
        |name: Seq<char>| entries[slot(entries, name)].value@,
    )
}

/// With distinct names, the mapping sends each entry's name to that entry's value.
proof fn lemma_mapping_at(entries: Seq<Tag>, i: int)
    requires
        distinct(entries),
        0 <= i < entries.len(),
    ensures
        mapping(entries).contains_key(entries[i].name@),
        mapping(entries)[entries[i].name@] == entries[i].value@,
{
    let name = entries[i].name@;
    assert(names(entries, name));
    let j = slot(entries, name);
    assert(0 <= j < entries.len() && entries[j].name@ == name);
    assert(j == i);
}

/// Whether `after` has the same names as `before`, and `name` besides.
spec fn names_with(before: Seq<Tag>, after: Seq<Tag>, name: Seq<char>) -> bool {
    forall|key: Seq<char>| names(after, key) <==> names(before, key) || key == name
}

/// Giving an entry a new value keeps the names distinct and changes the
/// mapping at that entry's name only.
proof fn lemma_replace(entries: Seq<Tag>, i: int, value: TagValue)
    requires
        distinct(entries),
        0 <= i < entries.len(),
    ensures
        distinct(entries.update(i, Tag { name: entries[i].name, value })),
        mapping(entries.update(i, Tag { name: entries[i].name, value })) == mapping(
            entries,
        ).insert(entries[i].name@, value@),
{
    let name = entries[i].name@;
    let after = entries.update(i, Tag { name: entries[i].name, value });
    assert(forall|j: int| 0 <= j < after.len() ==> after[j].name@ == entries[j].name@);
    assert(distinct(after));
    assert(names_with(entries, after, name)) by {
        assert forall|key: Seq<char>| names(after, key) <==> names(entries, key) || key
            == name by {
            if names(after, key) {
                assert(entries[slot(after, key)].name@ == key);
            }
            if names(entries, key) {
                assert(after[slot(entries, key)].name@ == key);
            }
            if key == name {
                assert(after[i].name@ == key);
            }
        }
    }
    assert forall|key: Seq<char>| names(after, key) implies mapping(after)[key] == mapping(
        entries,
    ).insert(name, value@)[key] by {
        let j = slot(after, key);
        lemma_mapping_at(after, j);
        lemma_mapping_at(entries, j);
    }
    assert(mapping(after) =~= mapping(entries).insert(name, value@));
}

/// Adding an entry under a name that no entry carries keeps the names
/// distinct and extends the mapping by that entry.
proof fn lemma_append(entries: Seq<Tag>, tag: Tag)
    requires
        distinct(entries),
        !names(entries, tag.name@),
    ensures
        distinct(entries.push(tag)),
        mapping(entries.push(tag)) == mapping(entries).insert(tag.name@, tag.value@),
{
    let name = tag.name@;
    let after = entries.push(tag);
    let last = entries.len() as int;
    assert(forall|j: int| 0 <= j < last ==> after[j] == entries[j]);
    assert(distinct(after)) by {
        assert forall|a: int, b: int| 0 <= a < b < after.len() implies after[a].name@
            != after[b].name@ by {
            if b == last {
                assert(entries[a].name@ != name);
            }
        }
    }
    assert(names_with(entries, after, name)) by {
        assert forall|key: Seq<char>| names(after, key) <==> names(entries, key) || key
            == name by {
            if names(after, key) && slot(after, key) < last {
                assert(entries[slot(after, key)].name@ == key);
            }
            if names(entries, key) {
                assert(after[slot(entries, key)].name@ == key);
            }
            if key == name {
                assert(after[last].name@ == key);
            }
        }
    }
    assert forall|key: Seq<char>| names(after, key) implies mapping(after)[key] == mapping(
        entries,
    ).insert(name, tag.value@)[key] by {
        let j = slot(after, key);
        lemma_mapping_at(after, j);
        if j < last {
            lemma_mapping_at(entries, j);
        }
    }
    assert(mapping(after) =~= mapping(entries).insert(name, tag.value@));
}

impl View for TagStore {
    type V = Map<Seq<char>, TagValueView>;

    closed spec fn view(&self) -> Map<Seq<char>, TagValueView> {
        mapping(self.entries@)
    }
}

impl TagStore {
    #[verifier::type_invariant]
    spec fn well_formed(self) -> bool {
        distinct(self.entries@)
    }

    pub fn new() -> (store: Self)
        ensures
            store@ == Map::<Seq<char>, TagValueView>::empty(),
    {
        let store = TagStore { entries: Vec::new() };
        assert(store@ =~= Map::<Seq<char>, TagValueView>::empty());
        store
    }

    /// Where the entry called `name` sits, if there is one.
    fn find(&self, name: &str) -> (found: Option<usize>)
        ensures
            match found {
                Some(i) => i < self.entries.len() && self.entries[i as int].name@ == name@,
                None => !names(self.entries@, name@),
            },
    {
        let key = name.to_owned();
        let mut i: usize = 0;
        while i < self.entries.len()
            invariant
                i <= self.entries.len(),
                key@ == name@,
                forall|j: int| 0 <= j < i ==> self.entries[j].name@ != name@,
            decreases self.entries.len() - i,
        {
            if self.entries[i].name == key {
                return Some(i);
            }
            i += 1;
        }
        None
    }

    /// Stores `value` under `name`; a value already there is replaced, and no
    /// other name is affected.
    pub fn set(&mut self, name: &str, value: TagValue)
        ensures
            final(self)@ == old(self)@.insert(name@, value@),
    {
        proof {
            use_type_invariant(&*self);
        }
        let ghost before = self.entries@;
        let found = self.find(name);
        let mut entries: Vec<Tag> = Vec::new();
        core::mem::swap(&mut self.entries, &mut entries);
        match found {
            Some(i) => {
                proof {
                    lemma_replace(before, i as int, value);
                }
                entries[i].value = value;
            },
            None => {
                let tag = Tag { name: name.to_owned(), value };
                proof {
                    lemma_append(before, tag);
                }
                entries.push(tag);
            },
        }
        self.entries = entries;
    }

    /// A copy of the value stored under `name`. A name that was never set gives
    /// nothing; that is an ordinary outcome and no failure.
    pub fn get(&self, name: &str) -> (value: Option<TagValue>)
        ensures
            match value {
                Some(found) => self@.contains_key(name@) && found@ == self@[name@],
                None => !self@.contains_key(name@),
            },
    {
        proof {
            use_type_invariant(self);
        }
        match self.find(name) {
            Some(i) => {
                proof {
                    lemma_mapping_at(self.entries@, i as int);
                }
                Some(self.entries[i].value.clone())
            },
            None => None,
        }
    }

    /// Every entry, each name once, in no order that callers may rely on.
    pub fn entries(&self) -> (entries: &Vec<Tag>)
        ensures
            forall|i: int|
                0 <= i < entries.len() ==> self@.contains_key(#[trigger] entries[i].name@)
                    && self@[entries[i].name@] == entries[i].value@,
            forall|name: Seq<char>|
                self@.contains_key(name) ==> exists|i: int|
                    0 <= i < entries.len() && #[trigger] entries[i].name@ == name,
            forall|i: int, j: int|
                0 <= i < j < entries.len() ==> #[trigger] entries[i].name@
                    != #[trigger] entries[j].name@,
    {
        proof {
            use_type_invariant(self);
            assert forall|i: int| 0 <= i < self.entries.len() implies self@.contains_key(
                #[trigger] self.entries[i].name@,
            ) && self@[self.entries[i].name@] == self.entries[i].value@ by {
                lemma_mapping_at(self.entries@, i);
            }
        }
        &self.entries
    }
}

impl Clone for TagStore {
    fn clone(&self) -> (copy: Self)
        ensures
            copy@ == self@,
    {
        proof {
            use_type_invariant(self);
        }
        let mut entries: Vec<Tag> = Vec::new();
        let mut i: usize = 0;
        while i < self.entries.len()
            invariant
                i <= self.entries.len(),
                entries@ == self.entries@.take(i as int),
            decreases self.entries.len() - i,
        {
            entries.push(self.entries[i].clone());
            assert(entries@ =~= self.entries@.take(i + 1));
            i += 1;
        }
        assert(entries@ =~= self.entries@);
        TagStore { entries }
    }
}

} // verus!
