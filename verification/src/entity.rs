use crate::tags::{TagStore, TagValue, TagValueView};
use vstd::prelude::*;

verus! {

/// A unit of simulation state: its tags, and the hooks that the scheduler runs
/// for it. `H` is whatever the application uses to name a behaviour; the
/// scheduler never looks inside a hook, it only hands it to the runner it was
/// given.
pub struct Entity<H> {
    pub update_function: Option<H>,
    pub start_function: Option<H>,
    pub tags: TagStore,
}

/// What an `Entity` holds, with its tags as a mapping.
pub struct EntityView<H> {
    pub update_function: Option<H>,
    pub start_function: Option<H>,
    pub tags: Map<Seq<char>, TagValueView>,
}

impl<H> View for Entity<H> {
    type V = EntityView<H>;

    open spec fn view(&self) -> EntityView<H> {
        EntityView {
            update_function: self.update_function,
            start_function: self.start_function,
            tags: self.tags@,
        }
    }
}

/// The key of the tag that carries an entity's name.
pub open spec fn name_key() -> Seq<char> {
    "name"@
}

/// What `get_name` answers for an entity without a usable name tag.
pub open spec fn unnamed() -> Seq<char> {
    "'Unnamed'"@
}

impl<H> EntityView<H> {
    /// The value stored under `tag_name`, if any.
    pub open spec fn tag(self, tag_name: Seq<char>) -> Option<TagValueView> {
        if self.tags.contains_key(tag_name) {
            Some(self.tags[tag_name])
        } else {
            None
        }
    }

    /// Whether the entity carries the name `name`: its name tag is text and
    /// reads `name`. An entity without such a tag is anonymous and is named
    /// by nothing.
    pub open spec fn is_named(self, name: Seq<char>) -> bool {
        self.tag(name_key()) == Some(TagValueView::String(name))
    }

    /// The entity's name, or the placeholder for an anonymous entity.
    pub open spec fn name(self) -> Seq<char> {
        match self.tag(name_key()) {
            Some(TagValueView::String(text)) => text,
            _ => unnamed(),
        }
    }
}

impl<H> Entity<H> {
    /// An entity with no tags and no hooks.
    pub fn new() -> (entity: Self)
        ensures
            entity@ == (EntityView::<H> {
                update_function: None,
                start_function: None,
                tags: Map::empty(),
            }),
    {
        Entity { update_function: None, start_function: None, tags: TagStore::new() }
    }

    pub fn with_update_fn(self, update_fn: H) -> (entity: Self)
        ensures
            entity@ == (EntityView { update_function: Some(update_fn), ..self@ }),
    {
        let mut x = self;
        x.update_function = Some(update_fn);
        x
    }

    pub fn with_start_fn(self, start_fn: H) -> (entity: Self)
        ensures
            entity@ == (EntityView { start_function: Some(start_fn), ..self@ }),
    {
        let mut x = self;
        x.start_function = Some(start_fn);
        x
    }

    pub fn with_tag(self, tag_name: &str, tag_value: TagValue) -> (entity: Self)
        ensures
            entity@ == (EntityView { tags: self@.tags.insert(tag_name@, tag_value@), ..self@ }),
    {
        let mut x = self;
        x.tags.set(tag_name, tag_value);
        x
    }

    /// Gives the entity its name, replacing whatever the name tag held.
    pub fn with_name_tag(self, name: &str) -> (entity: Self)
        ensures
            entity@ == (EntityView {
                tags: self@.tags.insert(name_key(), TagValueView::String(name@)),
                ..self@
            }),
            entity@.is_named(name@),
    {
        let mut x = self;
        x.tags.set("name", TagValue::String(name.to_owned()));
        x
    }

    /// A copy of the value under `tag_name`, or nothing where the entity has no
    /// such tag. The entity is left as it was, so asking again gives the same.
    pub fn get_tag(&self, tag_name: &str) -> (value: Option<TagValue>)
        ensures
            tag_view(value) == self@.tag(tag_name@),
    {
        self.tags.get(tag_name)
    }

    pub fn set_tag(&mut self, tag_name: &str, tag_value: TagValue)
        ensures
            final(self)@ == (EntityView {
                tags: old(self)@.tags.insert(tag_name@, tag_value@),
                ..old(self)@
            }),
    {
        self.tags.set(tag_name, tag_value);
    }

    /// The entity's name: the text of its name tag, or `'Unnamed'` where that
    /// tag is missing or is not text.
    pub fn get_name(&self) -> (name: String)
        ensures
            name@ == self@.name(),
    {
        match self.tags.get("name") {
            Some(TagValue::String(a)) => a,
            _ => "'Unnamed'".to_owned(),
        }
    }

    /// Whether the entity's name tag is text that reads `name`.
    pub fn has_name(&self, name: &str) -> (named: bool)
        ensures
            named == self@.is_named(name@),
    {
        match self.tags.get("name") {
            Some(TagValue::String(a)) => a == name.to_owned(),
            _ => false,
        }
    }
}

/// The view of an optional tag value.
pub open spec fn tag_view(value: Option<TagValue>) -> Option<TagValueView> {
    match value {
        Some(found) => Some(found@),
        None => None,
    }
}

/// Asking an entity twice for the same tag, with nothing changed in between,
/// gives equal answers: whatever `get_tag` may hand back for an entity and a
/// name, any two of its answers agree.
pub proof fn lemma_get_tag_repeats<H>(
    entity: Entity<H>,
    tag_name: &str,
    first: Option<TagValue>,
    second: Option<TagValue>,
)
    requires
        call_ensures(Entity::<H>::get_tag, (&entity, tag_name), first),
        call_ensures(Entity::<H>::get_tag, (&entity, tag_name), second),
    ensures
        tag_view(first) == tag_view(second),
{
}

impl<H: Copy> Clone for Entity<H> {
    fn clone(&self) -> (copy: Self)
        ensures
            copy@ == self@,
    {
        Entity {
            update_function: self.update_function,
            start_function: self.start_function,
            tags: self.tags.clone(),
        }
    }
}

} // verus!
