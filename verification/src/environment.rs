use crate::entity::Entity;
use vstd::prelude::*;

verus! {

/// A behaviour that works on the whole session. Two are built in; every other
/// one is the application's, named by a value of `S` that the scheduler hands
/// to the runner it was given.
#[derive(Debug, PartialEq, Eq)]
pub enum Script<S> {
    /// Ends the session once a quit was requested.
    CloseWindow,
    /// Flushes the frame to the display.
    UpdateDisplay,
    User(S),
}

impl<S: Copy> Clone for Script<S> {
    fn clone(&self) -> (copy: Self)
        ensures
            copy == *self,
    {
        *self
    }
}

impl<S: Copy> Copy for Script<S> {

}

/// A registered script with the label under which it is listed.
#[derive(Debug)]
pub struct NamedScript<S> {
    pub label: String,
    pub script: Script<S>,
}

impl<S: Copy> Clone for NamedScript<S> {
    fn clone(&self) -> (copy: Self)
        ensures
            copy == *self,
    {
        NamedScript { label: self.label.clone(), script: self.script }
    }
}

/// What a `NamedScript` holds, with its label as a sequence of characters.
pub struct ScriptEntry<S> {
    pub label: Seq<char>,
    pub script: Script<S>,
}

impl<S> View for NamedScript<S> {
    type V = ScriptEntry<S>;

    open spec fn view(&self) -> ScriptEntry<S> {
        ScriptEntry { label: self.label@, script: self.script }
    }
}

/// The entry of each registered script, in registration order.
pub open spec fn script_entries<S>(scripts: Seq<NamedScript<S>>) -> Seq<ScriptEntry<S>> {
    scripts.map_values(|named: NamedScript<S>| named@)
}

/// The update scripts that every full environment starts with.
pub open spec fn builtin_update_scripts<S>() -> Seq<ScriptEntry<S>> {
    seq![
        ScriptEntry { label: "Close Window Function - BUILT-IN"@, script: Script::CloseWindow },
        ScriptEntry { label: "Update Display Function - BUILT-IN"@, script: Script::UpdateDisplay },
    ]
}

/// The built-in update scripts under their labels: first the one that closes
/// the window, then the one that updates the display.
pub fn get_builtin_update_functions<S>() -> (scripts: Vec<NamedScript<S>>)
    ensures
        script_entries(scripts@) == builtin_update_scripts::<S>(),
{
    let mut scripts: Vec<NamedScript<S>> = Vec::new();
    scripts.push(
        NamedScript {
            label: "Close Window Function - BUILT-IN".to_owned(),
            script: Script::CloseWindow,
        },
    );
    scripts.push(
        NamedScript {
            label: "Update Display Function - BUILT-IN".to_owned(),
            script: Script::UpdateDisplay,
        },
    );
    assert(script_entries(scripts@) =~= builtin_update_scripts::<S>());
    scripts
}

/// Whether `index` is where the first entity called `name` stands.
pub open spec fn is_first_named<H>(entities: Seq<Entity<H>>, name: Seq<char>, index: int) -> bool {
    &&& 0 <= index < entities.len()
    &&& entities[index]@.is_named(name)
    &&& forall|j: int| 0 <= j < index ==> !(#[trigger] entities[j])@.is_named(name)
}

/// Whether no entity at all is called `name`.
pub open spec fn none_named<H>(entities: Seq<Entity<H>>, name: Seq<char>) -> bool {
    forall|j: int| 0 <= j < entities.len() ==> !(#[trigger] entities[j])@.is_named(name)
}

/// Where the first entity called `name` stands, if any entity is called so.
pub open spec fn first_named<H>(entities: Seq<Entity<H>>, name: Seq<char>) -> Option<int> {
    if exists|i: int| is_first_named(entities, name, i) {
        Some(choose|i: int| is_first_named(entities, name, i))
    } else {
        None
    }
}

/// A name has one first bearer at most, and has none exactly if nobody bears it.
pub proof fn lemma_first_named<H>(entities: Seq<Entity<H>>, name: Seq<char>)
    ensures
        forall|i: int|
            is_first_named(entities, name, i) ==> first_named(entities, name) == Some(i),
        none_named(entities, name) <==> first_named(entities, name) is None,
{
    assert forall|i: int| is_first_named(entities, name, i) implies first_named(entities, name)
        == Some(i) by {
        let chosen = choose|k: int| is_first_named(entities, name, k);
        assert(is_first_named(entities, name, chosen));
        if chosen < i {
            assert(!entities[chosen]@.is_named(name));
        }
        if i < chosen {
            assert(!entities[i]@.is_named(name));
        }
    }
    if !none_named(entities, name) {
        lemma_some_first(entities, name, entities.len() as int);
    }
    if first_named(entities, name) is Some {
        let chosen = choose|k: int| is_first_named(entities, name, k);
        assert(is_first_named(entities, name, chosen));
        assert(entities[chosen]@.is_named(name));
    }
}

/// Where some entity before `bound` is called `name`, one of them is the first.
proof fn lemma_some_first<H>(entities: Seq<Entity<H>>, name: Seq<char>, bound: int)
    requires
        0 <= bound <= entities.len(),
        exists|j: int| 0 <= j < bound && (#[trigger] entities[j])@.is_named(name),
    ensures
        exists|i: int| is_first_named(entities, name, i),
    decreases bound,
{
    if exists|j: int| 0 <= j < bound - 1 && (#[trigger] entities[j])@.is_named(name) {
        lemma_some_first(entities, name, bound - 1);
    } else {
        assert(is_first_named(entities, name, bound - 1));
    }
}

/// The entity list after `added` were registered one after another, first to
/// last, in an environment that held `before`.
pub open spec fn after_adding<H>(before: Seq<Entity<H>>, added: Seq<Entity<H>>) -> Seq<Entity<H>>
    decreases added.len(),
{
    if added.len() == 0 {
        before
    } else {
        after_adding(before, added.drop_last()).push(added.last())
    }
}

/// Registration order is kept: entities registered one after another stand
/// in the environment in that order, behind those that were there before, and
/// none of those has moved.
pub proof fn lemma_registration_order<H>(before: Seq<Entity<H>>, added: Seq<Entity<H>>)
    ensures
        after_adding(before, added) == before + added,
        forall|i: int| 0 <= i < before.len() ==> after_adding(before, added)[i] == before[i],
        forall|i: int|
            0 <= i < added.len() ==> after_adding(before, added)[before.len() + i] == added[i],
    decreases added.len(),
{
    if added.len() > 0 {
        lemma_registration_order(before, added.drop_last());
        assert(added == added.drop_last().push(added.last()));
    }
    assert(after_adding(before, added) =~= before + added);
}

/// The lines that list the scripts of an environment: the start scripts
/// under their heading, an empty line, then the update scripts under theirs,
/// each label indented by four spaces.
pub open spec fn script_report<S>(start: Seq<ScriptEntry<S>>, update: Seq<ScriptEntry<S>>) -> Seq<
    Seq<char>,
> {
    seq!["Start Scripts -"@] + start.map_values(|entry: ScriptEntry<S>| "    "@ + entry.label)
        + seq![""@, "Update Scripts -"@] + update.map_values(
        |entry: ScriptEntry<S>| "    "@ + entry.label,
    )
}

/// The text of each line.
pub open spec fn line_texts(lines: Seq<String>) -> Seq<Seq<char>> {
    lines.map_values(|line: String| line@)
}

/// Appends to `lines` one line for each of `scripts`: its label behind four spaces.
fn push_labels<S>(lines: &mut Vec<String>, scripts: &Vec<NamedScript<S>>)
    ensures
        line_texts(final(lines)@) == line_texts(old(lines)@) + script_entries(scripts@).map_values(
            |entry: ScriptEntry<S>| "    "@ + entry.label,
        ),
{
    let ghost indent = |entry: ScriptEntry<S>| "    "@ + entry.label;
    let ghost text = |line: String| line@;
    let ghost entry_of = |named: NamedScript<S>| named@;
    let mut i: usize = 0;
    assert(scripts@.take(0).map_values(entry_of).map_values(indent) =~= Seq::<Seq<char>>::empty());
    while i < scripts.len()
        invariant
            i <= scripts.len(),
            indent == (|entry: ScriptEntry<S>| "    "@ + entry.label),
            text == (|line: String| line@),
            entry_of == (|named: NamedScript<S>| named@),
            lines@.map_values(text) == old(lines)@.map_values(text) + scripts@.take(
                i as int,
            ).map_values(entry_of).map_values(indent),
        decreases scripts.len() - i,
    {
        let mut line = "    ".to_owned();
        line.append(scripts[i].label.as_str());
        proof {
            let seen = scripts@.take(i as int);
            assert(scripts@.take(i + 1) =~= seen.push(scripts@[i as int]));
            seen.lemma_push_map_commute(entry_of, scripts@[i as int]);
            seen.map_values(entry_of).lemma_push_map_commute(indent, scripts@[i as int]@);
            lines@.lemma_push_map_commute(text, line);
        }
        lines.push(line);
        i += 1;
    }
    assert(scripts@.take(i as int) =~= scripts@);
}

/// Why an entity could not be replaced: nobody bore the name that was asked for.
#[derive(Debug)]
pub struct NoSuchEntity {
    pub name: String,
}

impl NoSuchEntity {
    /// The report of the failure, for whoever logs it.
    pub fn message(&self) -> (message: String)
        ensures
            message@ == "Cannot replace - No entity found with the name : "@ + self.name@,
    {
        let mut message = "Cannot replace - No entity found with the name : ".to_owned();
        message.append(self.name.as_str());
        message
    }
}

/// The entities of a session, in the order in which they were registered, and
/// the scripts that run at the start and on every frame, each in registration
/// order too.
pub struct Environment<H, S> {
    entities: Vec<Entity<H>>,
    update_scripts: Vec<NamedScript<S>>,
    start_scripts: Vec<NamedScript<S>>,
}

impl<H, S> Environment<H, S> {
    /// The entities, in registration order.
    pub closed spec fn entities(&self) -> Seq<Entity<H>> {
        self.entities@
    }

    /// The update scripts, in registration order.
    pub closed spec fn update_scripts(&self) -> Seq<ScriptEntry<S>> {
        script_entries(self.update_scripts@)
    }

    /// The start scripts, in registration order.
    pub closed spec fn start_scripts(&self) -> Seq<ScriptEntry<S>> {
        script_entries(self.start_scripts@)
    }

    /// An environment without entities whose update scripts are the built-in ones.
    pub fn new() -> (environment: Self)
        ensures
            environment.entities() == Seq::<Entity<H>>::empty(),
            environment.update_scripts() == builtin_update_scripts::<S>(),
            environment.start_scripts() == Seq::<ScriptEntry<S>>::empty(),
    {
        let environment = Environment {
            entities: Vec::new(),
            update_scripts: get_builtin_update_functions(),
            start_scripts: Vec::new(),
        };
        assert(environment.start_scripts() =~= Seq::<ScriptEntry<S>>::empty());
        environment
    }

    /// An environment without entities and without any script, built-in or not.
    pub fn new_skeleton() -> (environment: Self)
        ensures
            environment.entities() == Seq::<Entity<H>>::empty(),
            environment.update_scripts() == Seq::<ScriptEntry<S>>::empty(),
            environment.start_scripts() == Seq::<ScriptEntry<S>>::empty(),
    {
        let environment = Environment {
            entities: Vec::new(),
            update_scripts: Vec::new(),
            start_scripts: Vec::new(),
        };
        assert(environment.update_scripts() =~= Seq::<ScriptEntry<S>>::empty());
        assert(environment.start_scripts() =~= Seq::<ScriptEntry<S>>::empty());
        environment
    }

    /// Registers `script` under `name`, to run on every frame after the update
    /// scripts registered before it.
    pub fn add_update_script(&mut self, name: &str, script: S)
        ensures
            final(self).update_scripts() == old(self).update_scripts().push(
                ScriptEntry { label: name@, script: Script::User(script) },
            ),
            final(self).start_scripts() == old(self).start_scripts(),
            final(self).entities() == old(self).entities(),
    {
        let named = NamedScript { label: name.to_owned(), script: Script::User(script) };
        proof {
            self.update_scripts@.lemma_push_map_commute(|n: NamedScript<S>| n@, named);
        }
        self.update_scripts.push(named);
    }

    /// Registers `script` under `name`, to run once at the start after the start
    /// scripts registered before it.
    pub fn add_start_script(&mut self, name: &str, script: S)
        ensures
            final(self).start_scripts() == old(self).start_scripts().push(
                ScriptEntry { label: name@, script: Script::User(script) },
            ),
            final(self).update_scripts() == old(self).update_scripts(),
            final(self).entities() == old(self).entities(),
    {
        let named = NamedScript { label: name.to_owned(), script: Script::User(script) };
        proof {
            self.start_scripts@.lemma_push_map_commute(|n: NamedScript<S>| n@, named);
        }
        self.start_scripts.push(named);
    }

    /// Registers `entity` behind every entity registered before it. Names are
    /// not compared: two entities may bear the same one.
    pub fn add_entity(&mut self, entity: Entity<H>)
        ensures
            final(self).entities() == old(self).entities().push(entity),
            final(self).update_scripts() == old(self).update_scripts(),
            final(self).start_scripts() == old(self).start_scripts(),
    {
        self.entities.push(entity);
    }

    /// The entity list itself. Whatever the caller leaves in it is the
    /// environment's entity list from then on.
    pub fn mut_entities(&mut self) -> (entities: &mut Vec<Entity<H>>)
        ensures
            entities@ == old(self).entities(),
            final(self).entities() == final(entities)@,
            final(self).update_scripts() == old(self).update_scripts(),
            final(self).start_scripts() == old(self).start_scripts(),
    {
        &mut self.entities
    }

    pub fn list_entities(&self) -> (entities: &Vec<Entity<H>>)
        ensures
            entities@ == self.entities(),
    {
        &self.entities
    }

    pub fn list_update_scripts(&self) -> (scripts: &Vec<NamedScript<S>>)
        ensures
            script_entries(scripts@) == self.update_scripts(),
    {
        &self.update_scripts
    }

    pub fn list_start_scripts(&self) -> (scripts: &Vec<NamedScript<S>>)
        ensures
            script_entries(scripts@) == self.start_scripts(),
    {
        &self.start_scripts
    }

    /// The listing of the scripts, line by line, in registration order.
    pub fn script_lines(&self) -> (lines: Vec<String>)
        ensures
            line_texts(lines@) == script_report(self.start_scripts(), self.update_scripts()),
    {
        let ghost text = |line: String| line@;
        let mut lines: Vec<String> = Vec::new();
        let heading = "Start Scripts -".to_owned();
        lines.push(heading);
        assert(line_texts(lines@) =~= seq!["Start Scripts -"@]);
        push_labels(&mut lines, &self.start_scripts);
        let gap = "".to_owned();
        proof {
            lines@.lemma_push_map_commute(text, gap);
        }
        lines.push(gap);
        let heading = "Update Scripts -".to_owned();
        proof {
            lines@.lemma_push_map_commute(text, heading);
        }
        lines.push(heading);
        push_labels(&mut lines, &self.update_scripts);
        assert(line_texts(lines@) =~= script_report(self.start_scripts(), self.update_scripts()));
        lines
    }

    /// Where the first entity called `name` stands. The scan is linear.
    pub fn find_entity(&self, name: &str) -> (found: Option<usize>)
        ensures
            found == match first_named(self.entities(), name@) {
                Some(i) => Some(i as usize),
                None => None,
            },
            found is Some ==> is_first_named(self.entities(), name@, found->0 as int),
            found is None ==> none_named(self.entities(), name@),
    {
        proof {
            lemma_first_named(self.entities@, name@);
        }
        let mut i: usize = 0;
        while i < self.entities.len()
            invariant
                i <= self.entities.len(),
                forall|j: int| 0 <= j < i ==> !(#[trigger] self.entities[j])@.is_named(name@),
            decreases self.entities.len() - i,
        {
            if self.entities[i].has_name(name) {
                assert(is_first_named(self.entities@, name@, i as int));
                return Some(i);
            }
            i += 1;
        }
        assert(none_named(self.entities@, name@));
        None
    }
}

impl<H, S> Environment<H, S> {
    /// The first entity called `name`, to be changed in place, or nothing where
    /// no entity is called so. What the caller leaves in it is what the
    /// environment holds at that position afterwards.
    pub fn get_mut_entity(&mut self, name: &str) -> (found: Option<&mut Entity<H>>)
        ensures
            final(self).update_scripts() == old(self).update_scripts(),
            final(self).start_scripts() == old(self).start_scripts(),
            match first_named(old(self).entities(), name@) {
                Some(i) => {
                    &&& found is Some
                    &&& *found->0 == old(self).entities()[i]
                    &&& final(self).entities() == old(self).entities().update(i, *final(found->0))
                },
                None => found is None && final(self).entities() == old(self).entities(),
            },
    {
        match self.find_entity(name) {
            Some(i) => Some(&mut self.entities[i]),
            None => None,
        }
    }
}

/// A copy of `scripts`, entry for entry.
fn clone_scripts<S: Copy>(scripts: &Vec<NamedScript<S>>) -> (copy: Vec<NamedScript<S>>)
    ensures
        copy@ == scripts@,
{
    let mut copy: Vec<NamedScript<S>> = Vec::new();
    let mut i: usize = 0;
    while i < scripts.len()
        invariant
            i <= scripts.len(),
            copy@ == scripts@.take(i as int),
        decreases scripts.len() - i,
    {
        copy.push(scripts[i].clone());
        assert(copy@ =~= scripts@.take(i + 1));
        i += 1;
    }
    assert(copy@ =~= scripts@);
    copy
}

impl<H: Copy, S: Copy> Clone for Environment<H, S> {
    /// The copy holds a copy of every entity, at the same place, and the same scripts.
    fn clone(&self) -> (copy: Self)
        ensures
            copy.update_scripts() == self.update_scripts(),
            copy.start_scripts() == self.start_scripts(),
            copy.entities().len() == self.entities().len(),
            forall|i: int|
                0 <= i < self.entities().len() ==> (#[trigger] copy.entities()[i])@
                    == self.entities()[i]@,
    {
        let mut entities: Vec<Entity<H>> = Vec::new();
        let mut i: usize = 0;
        while i < self.entities.len()
            invariant
                i <= self.entities.len(),
                entities@.len() == i,
                forall|j: int| 0 <= j < i ==> (#[trigger] entities@[j])@ == self.entities@[j]@,
            decreases self.entities.len() - i,
        {
            entities.push(self.entities[i].clone());
            i += 1;
        }
        Environment {
            entities,
            update_scripts: clone_scripts(&self.update_scripts),
            start_scripts: clone_scripts(&self.start_scripts),
        }
    }
}

impl<H: Copy, S> Environment<H, S> {
    /// A copy of the first entity called `name`, or nothing where no entity is
    /// called so.
    pub fn get_entity(&self, name: &str) -> (found: Option<Entity<H>>)
        ensures
            match first_named(self.entities(), name@) {
                Some(i) => found is Some && found->0@ == self.entities()[i]@,
                None => found is None,
            },
    {
        match self.find_entity(name) {
            Some(i) => Some(self.entities[i].clone()),
            None => None,
        }
    }

    /// Puts a copy of `entity_to_change`, tags and hooks, in the place of the
    /// first entity called `name`. Where no entity is called so, nothing
    /// changes and the failure is handed back.
    pub fn overwrite(&mut self, name: &str, entity_to_change: &mut Entity<H>) -> (outcome: Result<
        (),
        NoSuchEntity,
    >)
        ensures
            *final(entity_to_change) == *old(entity_to_change),
            final(self).update_scripts() == old(self).update_scripts(),
            final(self).start_scripts() == old(self).start_scripts(),
            final(self).entities().len() == old(self).entities().len(),
            match first_named(old(self).entities(), name@) {
                Some(i) => {
                    &&& outcome is Ok
                    &&& final(self).entities()[i]@ == old(entity_to_change)@
                    &&& forall|j: int|
                        0 <= j < old(self).entities().len() && j != i ==> final(self).entities()[j]
                            == old(self).entities()[j]
                },
                None => {
                    &&& outcome is Err
                    &&& outcome->Err_0.name@ == name@
                    &&& final(self).entities() == old(self).entities()
                },
            },
    {
        match self.find_entity(name) {
            Some(i) => {
                self.entities[i] = entity_to_change.clone();
                Ok(())
            },
            None => Err(NoSuchEntity { name: name.to_owned() }),
        }
    }
}

} // verus!
