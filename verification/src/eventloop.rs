use crate::entity::Entity;
use crate::environment::{Environment, Script, ScriptEntry};
use crate::instance::{EngineSettings2D, Instance2D};
use crate::keys::InputEvent;
use crate::render::{Color, Vec2, VisualRect};
use crate::sdl2_renderer::{fill_command, DrawCommand};
use vstd::prelude::*;

verus! {

/// The two occasions on which behaviours run: once when the session starts,
/// and on every frame.
#[derive(Debug, Clone, Copy, PartialEq, Eq, Structural)]
pub enum Phase {
    Start,
    Update,
}

/// The hook that `entity` has for `phase`, if it has one.
pub open spec fn hook_of<H>(phase: Phase, entity: Entity<H>) -> Option<H> {
    match phase {
        Phase::Start => entity.start_function,
        Phase::Update => entity.update_function,
    }
}

/// What serving one entity may do. With a hook, the runner is called on the
/// hook, the entity and the shared settings, and what it hands back takes
/// their place. Without one, nothing changes.
pub open spec fn hook_step<H, FH>(
    run: FH,
    hook: Option<H>,
    entity: Entity<H>,
    session: EngineSettings2D,
    entity_after: Entity<H>,
    session_after: EngineSettings2D,
) -> bool where FH: Fn(&H, Entity<H>, EngineSettings2D) -> (Entity<H>, EngineSettings2D) {
    match hook {
        Some(h) => call_ensures(run, (&h, entity, session), (entity_after, session_after)),
        None => entity_after == entity && session_after == session,
    }
}

/// A pass over the entities in registration order: entity `i` is served
/// with the settings that entity `i - 1` left, and `sessions` holds the
/// settings before the pass, between any two entities, and after it.
pub open spec fn entity_pass<H, FH>(
    run: FH,
    phase: Phase,
    before: Seq<Entity<H>>,
    after: Seq<Entity<H>>,
    sessions: Seq<EngineSettings2D>,
) -> bool where FH: Fn(&H, Entity<H>, EngineSettings2D) -> (Entity<H>, EngineSettings2D) {
    &&& after.len() == before.len()
    &&& sessions.len() == before.len() + 1
    &&& forall|i: int|
        0 <= i < before.len() ==> hook_step(
            run,
            hook_of(phase, #[trigger] before[i]),
            before[i],
            sessions[i],
            after[i],
            sessions[i + 1],
        )
}

/// `after` is what a pass over the entities of `before` leaves: the same
/// screen and scripts, each entity served in turn.
pub open spec fn entities_ran<H, S, FH>(
    run: FH,
    phase: Phase,
    before: Instance2D<H, S>,
    after: Instance2D<H, S>,
) -> bool where FH: Fn(&H, Entity<H>, EngineSettings2D) -> (Entity<H>, EngineSettings2D) {
    &&& after.screen == before.screen
    &&& after.environment.update_scripts() == before.environment.update_scripts()
    &&& after.environment.start_scripts() == before.environment.start_scripts()
    &&& exists|sessions: Seq<EngineSettings2D>|
        {
            &&& #[trigger] entity_pass(
                run,
                phase,
                before.environment.entities(),
                after.environment.entities(),
                sessions,
            )
            &&& sessions.first() == before.engine_settings
            &&& sessions.last() == after.engine_settings
        }
}

/// A pass leaves an entity without a hook for it exactly as it was, keeps
/// every entity at its place, and, where no entity has a hook for it, leaves
/// the shared settings as they were too.
pub proof fn lemma_pass_spares_the_hookless<H, S, FH>(
    run: FH,
    phase: Phase,
    before: Instance2D<H, S>,
    after: Instance2D<H, S>,
) where FH: Fn(&H, Entity<H>, EngineSettings2D) -> (Entity<H>, EngineSettings2D)
    requires
        entities_ran(run, phase, before, after),
    ensures
        after.environment.entities().len() == before.environment.entities().len(),
        forall|i: int|
            0 <= i < before.environment.entities().len() && hook_of(
                phase,
                #[trigger] before.environment.entities()[i],
            ) is None ==> after.environment.entities()[i] == before.environment.entities()[i],
        (forall|i: int|
            0 <= i < before.environment.entities().len() ==> hook_of(
                phase,
                #[trigger] before.environment.entities()[i],
            ) is None) ==> after.engine_settings == before.engine_settings,
{
    let entities = before.environment.entities();
    let sessions = choose|sessions: Seq<EngineSettings2D>|
        {
            &&& #[trigger] entity_pass(
                run,
                phase,
                entities,
                after.environment.entities(),
                sessions,
            )
            &&& sessions.first() == before.engine_settings
            &&& sessions.last() == after.engine_settings
        };
    if forall|i: int| 0 <= i < entities.len() ==> hook_of(phase, #[trigger] entities[i]) is None {
        lemma_idle_sessions(run, phase, entities, after.environment.entities(), sessions, entities.len() as int);
    }
}

/// Through a stretch of entities without hooks the shared settings stay the same.
proof fn lemma_idle_sessions<H, FH>(
    run: FH,
    phase: Phase,
    before: Seq<Entity<H>>,
    after: Seq<Entity<H>>,
    sessions: Seq<EngineSettings2D>,
    upto: int,
) where FH: Fn(&H, Entity<H>, EngineSettings2D) -> (Entity<H>, EngineSettings2D)
    requires
        entity_pass(run, phase, before, after, sessions),
        0 <= upto <= before.len(),
        forall|i: int| 0 <= i < upto ==> hook_of(phase, #[trigger] before[i]) is None,
    ensures
        sessions[upto] == sessions[0],
    decreases upto,
{
    if upto > 0 {
        lemma_idle_sessions(run, phase, before, after, sessions, upto - 1);
        assert(hook_of(phase, before[upto - 1]) is None);
    }
}

/// Serves every entity once, in registration order, with its hook for `phase`.
fn run_entities<H: Copy, S, FH>(phase: Phase, instance: Instance2D<H, S>, run: &FH) -> (after:
    Instance2D<H, S>) where FH: Fn(&H, Entity<H>, EngineSettings2D) -> (Entity<H>, EngineSettings2D)
    requires
        forall|hook: &H, entity: Entity<H>, session: EngineSettings2D|
            call_requires(*run, (hook, entity, session)),
    ensures
        entities_ran(*run, phase, instance, after),
        forall|i: int|
            0 <= i < instance.environment.entities().len() && hook_of(
                phase,
                #[trigger] instance.environment.entities()[i],
            ) is None ==> after.environment.entities()[i] == instance.environment.entities()[i],
{
    let Instance2D { screen, engine_settings, environment } = instance;
    let mut environment = environment;
    let mut session = engine_settings;
    let mut working: Vec<Entity<H>> = Vec::new();
    core::mem::swap(environment.mut_entities(), &mut working);
    let ghost before = working@;
    let ghost mut sessions: Seq<EngineSettings2D> = seq![session];
    let mut served: Vec<Entity<H>> = Vec::new();
    for entity in it: working
        invariant
            it.seq() == before,
            served@.len() == it.index(),
            sessions.len() == it.index() + 1,
            sessions.first() == instance.engine_settings,
            sessions.last() == session,
            forall|hook: &H, entity: Entity<H>, session: EngineSettings2D|
                call_requires(*run, (hook, entity, session)),
            forall|i: int|
                0 <= i < it.index() ==> hook_step(
                    *run,
                    hook_of(phase, #[trigger] before[i]),
                    before[i],
                    sessions[i],
                    served@[i],
                    sessions[i + 1],
                ),
    {
        let hook = match phase {
            Phase::Start => entity.start_function,
            Phase::Update => entity.update_function,
        };
        match hook {
            Some(h) => {
                let (entity_after, session_after) = run(&h, entity, session);
                served.push(entity_after);
                session = session_after;
            },
            None => {
                served.push(entity);
            },
        }
        proof {
            sessions = sessions.push(session);
        }
    }
    core::mem::swap(environment.mut_entities(), &mut served);
    let after = Instance2D { screen, engine_settings: session, environment };
    assert(entity_pass(
        *run,
        phase,
        instance.environment.entities(),
        after.environment.entities(),
        sessions,
    ));
    after
}

/// Runs every entity's start hook once, in registration order. An entity
/// without a start hook stays exactly as it is.
pub fn start_entities<H: Copy, S, FH>(instance: Instance2D<H, S>, run: &FH) -> (after: Instance2D<
    H,
    S,
>) where FH: Fn(&H, Entity<H>, EngineSettings2D) -> (Entity<H>, EngineSettings2D)
    requires
        forall|hook: &H, entity: Entity<H>, session: EngineSettings2D|
            call_requires(*run, (hook, entity, session)),
    ensures
        entities_ran(*run, Phase::Start, instance, after),
        forall|i: int|
            0 <= i < instance.environment.entities().len()
                && (#[trigger] instance.environment.entities()[i]).start_function is None
                ==> after.environment.entities()[i] == instance.environment.entities()[i],
{
    run_entities(Phase::Start, instance, run)
}

/// Runs every entity's update hook, in registration order, on a working list
/// that replaces the environment's list when the pass is over. An entity
/// without an update hook stays exactly as it is.
pub fn update_entities<H: Copy, S, FH>(instance: Instance2D<H, S>, run: &FH) -> (after: Instance2D<
    H,
    S,
>) where FH: Fn(&H, Entity<H>, EngineSettings2D) -> (Entity<H>, EngineSettings2D)
    requires
        forall|hook: &H, entity: Entity<H>, session: EngineSettings2D|
            call_requires(*run, (hook, entity, session)),
    ensures
        entities_ran(*run, Phase::Update, instance, after),
        forall|i: int|
            0 <= i < instance.environment.entities().len()
                && (#[trigger] instance.environment.entities()[i]).update_function is None
                ==> after.environment.entities()[i] == instance.environment.entities()[i],
{
    run_entities(Phase::Update, instance, run)
}

/// The scripts that `environment` has registered for `phase`, in registration order.
pub open spec fn scripts_of<H, S>(phase: Phase, environment: Environment<H, S>) -> Seq<
    ScriptEntry<S>,
> {
    match phase {
        Phase::Start => environment.start_scripts(),
        Phase::Update => environment.update_scripts(),
    }
}

/// What the built-in script that closes the window does: it clears the running
/// flag if a quit was requested, and touches nothing else.
pub open spec fn closes_window<H, S>(before: Instance2D<H, S>, after: Instance2D<H, S>) -> bool {
    after == (Instance2D {
        engine_settings: EngineSettings2D {
            is_running: before.engine_settings.is_running && !before.engine_settings.keys.QUIT,
            ..before.engine_settings
        },
        ..before
    })
}

/// What the built-in script that updates the display does: it queues the
/// flushing of the frame, and touches nothing else.
pub open spec fn flushes_display<H, S>(before: Instance2D<H, S>, after: Instance2D<H, S>) -> bool {
    &&& after.screen == before.screen
    &&& after.environment == before.environment
    &&& after.engine_settings@ == before.engine_settings@.with_command(DrawCommand::Present)
}

/// What running one script may do to the session. A script of the
/// application is handed to the runner together with the whole session, and
/// what the runner hands back is the session from then on.
pub open spec fn script_step<H, S, FS>(
    run: FS,
    script: Script<S>,
    before: Instance2D<H, S>,
    after: Instance2D<H, S>,
) -> bool where FS: Fn(&S, Instance2D<H, S>) -> Instance2D<H, S> {
    match script {
        Script::CloseWindow => closes_window(before, after),
        Script::UpdateDisplay => flushes_display(before, after),
        Script::User(s) => call_ensures(run, (&s, before), after),
    }
}

/// A pass over `scripts` in order: script `i` works on the session that
/// script `i - 1` left, and `states` holds the session before the pass,
/// between any two scripts, and after it.
pub open spec fn script_pass<H, S, FS>(
    run: FS,
    scripts: Seq<ScriptEntry<S>>,
    states: Seq<Instance2D<H, S>>,
) -> bool where FS: Fn(&S, Instance2D<H, S>) -> Instance2D<H, S> {
    &&& states.len() == scripts.len() + 1
    &&& forall|i: int|
        0 <= i < scripts.len() ==> script_step(
            run,
            (#[trigger] scripts[i]).script,
            states[i],
            states[i + 1],
        )
}

/// `after` is what running the scripts that `before` has registered for
/// `phase` leaves. The list is read once, before the first script runs: a
/// script that registers another one does not make it run in the same pass.
pub open spec fn scripts_ran<H, S, FS>(
    run: FS,
    phase: Phase,
    before: Instance2D<H, S>,
    after: Instance2D<H, S>,
) -> bool where FS: Fn(&S, Instance2D<H, S>) -> Instance2D<H, S> {
    exists|states: Seq<Instance2D<H, S>>|
        {
            &&& #[trigger] script_pass(run, scripts_of(phase, before.environment), states)
            &&& states.first() == before
            &&& states.last() == after
        }
}

/// A copy of the scripts registered for `phase`, without their labels.
fn snapshot<H, S: Copy>(phase: Phase, environment: &Environment<H, S>) -> (scripts: Vec<Script<S>>)
    ensures
        scripts@.len() == scripts_of(phase, *environment).len(),
        forall|i: int|
            0 <= i < scripts@.len() ==> #[trigger] scripts@[i] == scripts_of(
                phase,
                *environment,
            )[i].script,
{
    let registered = match phase {
        Phase::Start => environment.list_start_scripts(),
        Phase::Update => environment.list_update_scripts(),
    };
    let mut scripts: Vec<Script<S>> = Vec::new();
    let mut i: usize = 0;
    while i < registered.len()
        invariant
            i <= registered.len(),
            scripts@.len() == i,
            forall|j: int| 0 <= j < i ==> #[trigger] scripts@[j] == registered@[j].script,
        decreases registered.len() - i,
    {
        scripts.push(registered[i].script);
        i += 1;
    }
    scripts
}

/// Runs every script registered for `phase`, in registration order.
fn run_scripts<H, S: Copy, FS>(phase: Phase, instance: Instance2D<H, S>, run: &FS) -> (after:
    Instance2D<H, S>) where FS: Fn(&S, Instance2D<H, S>) -> Instance2D<H, S>
    requires
        forall|script: &S, session: Instance2D<H, S>| call_requires(*run, (script, session)),
    ensures
        scripts_ran(*run, phase, instance, after),
{
    let scripts = snapshot(phase, &instance.environment);
    let ghost registered = scripts_of(phase, instance.environment);
    let ghost mut states: Seq<Instance2D<H, S>> = seq![instance];
    let mut current = instance;
    let mut i: usize = 0;
    while i < scripts.len()
        invariant
            i <= scripts.len(),
            scripts@.len() == registered.len(),
            forall|j: int| 0 <= j < scripts@.len() ==> #[trigger] scripts@[j] == registered[j].script,
            forall|script: &S, session: Instance2D<H, S>| call_requires(*run, (script, session)),
            states.len() == i + 1,
            states.first() == instance,
            states.last() == current,
            forall|j: int|
                0 <= j < i ==> script_step(
                    *run,
                    (#[trigger] registered[j]).script,
                    states[j],
                    states[j + 1],
                ),
        decreases scripts.len() - i,
    {
        match scripts[i] {
            Script::CloseWindow => {
                if current.get_pressed().QUIT {
                    current.quit();
                }
            },
            Script::UpdateDisplay => {
                current.engine_settings.update_display();
            },
            Script::User(s) => {
                current = run(&s, current);
            },
        }
        proof {
            states = states.push(current);
        }
        i += 1;
    }
    assert(script_pass(*run, registered, states));
    current
}

/// Runs every start script once, in registration order.
pub fn start_scripts<H, S: Copy, FS>(instance: Instance2D<H, S>, run: &FS) -> (after: Instance2D<
    H,
    S,
>) where FS: Fn(&S, Instance2D<H, S>) -> Instance2D<H, S>
    requires
        forall|script: &S, session: Instance2D<H, S>| call_requires(*run, (script, session)),
    ensures
        scripts_ran(*run, Phase::Start, instance, after),
{
    run_scripts(Phase::Start, instance, run)
}

/// Runs every update script, in registration order. A later script sees
/// what an earlier one wrote in the same frame.
pub fn update_scripts<H, S: Copy, FS>(instance: Instance2D<H, S>, run: &FS) -> (after: Instance2D<
    H,
    S,
>) where FS: Fn(&S, Instance2D<H, S>) -> Instance2D<H, S>
    requires
        forall|script: &S, session: Instance2D<H, S>| call_requires(*run, (script, session)),
    ensures
        scripts_ran(*run, Phase::Update, instance, after),
{
    run_scripts(Phase::Update, instance, run)
}

/// The session after the input adapter's events of one frame were folded into
/// the live snapshot: nothing but the snapshot differs.
pub open spec fn after_input<H, S>(before: Instance2D<H, S>, events: Seq<InputEvent>) -> Instance2D<
    H,
    S,
> {
    Instance2D {
        engine_settings: EngineSettings2D {
            keys: before.engine_settings.keys.after_all(events),
            ..before.engine_settings
        },
        ..before
    }
}

/// Refreshes the live input snapshot from the events that the input adapter
/// reported for this frame, first to last.
pub fn update_keystrokes<H, S>(instance: &mut Instance2D<H, S>, events: &Vec<InputEvent>)
    ensures
        *final(instance) == after_input(*old(instance), events@),
{
    instance.engine_settings.keys.apply_all(events);
}

/// The rectangle that is drawn once when a session has started.
pub open spec fn opening_rect() -> VisualRect {
    VisualRect {
        location: Vec2 { x: 0, y: 0 },
        size: Vec2 { x: 100, y: 100 },
        color: Color { r: 255, g: 255, b: 255 },
    }
}

/// `after` is `before` with the opening rectangle queued on the display.
pub open spec fn opening_drawn<H, S>(before: Instance2D<H, S>, after: Instance2D<H, S>) -> bool {
    &&& after.screen == before.screen
    &&& after.environment == before.environment
    &&& after.engine_settings@ == before.engine_settings@.with_command(
        fill_command(opening_rect()),
    )
}

/// `after` is what starting the session `before` leaves: every entity's
/// start hook has run, then every start script, then the opening rectangle
/// was queued.
pub open spec fn started<H, S, FH, FS>(
    run_hook: FH,
    run_script: FS,
    before: Instance2D<H, S>,
    after: Instance2D<H, S>,
) -> bool where
    FH: Fn(&H, Entity<H>, EngineSettings2D) -> (Entity<H>, EngineSettings2D),
    FS: Fn(&S, Instance2D<H, S>) -> Instance2D<H, S>,
 {
    exists|hooked: Instance2D<H, S>, scripted: Instance2D<H, S>|
        {
            &&& entities_ran(run_hook, Phase::Start, before, hooked)
            &&& #[trigger] scripts_ran(run_script, Phase::Start, hooked, scripted)
            &&& opening_drawn(scripted, after)
        }
}

/// `after` is what one frame's work leaves of `before`: the input snapshot
/// is refreshed from `events`, then every update script runs, then every
/// entity's update hook. Nothing in a frame looks at the running flag: a
/// behaviour that clears it does not cut the frame short.
pub open spec fn frame_ran<H, S, FH, FS>(
    run_hook: FH,
    run_script: FS,
    events: Seq<InputEvent>,
    before: Instance2D<H, S>,
    after: Instance2D<H, S>,
) -> bool where
    FH: Fn(&H, Entity<H>, EngineSettings2D) -> (Entity<H>, EngineSettings2D),
    FS: Fn(&S, Instance2D<H, S>) -> Instance2D<H, S>,
 {
    exists|scripted: Instance2D<H, S>|
        {
            &&& #[trigger] scripts_ran(
                run_script,
                Phase::Update,
                after_input(before, events),
                scripted,
            )
            &&& entities_ran(run_hook, Phase::Update, scripted, after)
        }
}

/// Where the scheduler stands.
#[derive(Debug, Clone, Copy, PartialEq, Eq, Structural)]
pub enum LoopState {
    /// Nothing has run yet.
    Starting,
    /// The start hooks have run; a frame comes next unless the running flag
    /// is found cleared.
    Running,
    /// The running flag was found cleared. Nothing runs any more.
    Stopped,
}

/// What the caller of the scheduler has to do after a step, before the next one.
#[derive(Debug, Clone, Copy, PartialEq, Eq, Structural)]
pub enum LoopAction {
    /// The session has started: carry out the queued display commands, take
    /// the time, and enter the frame loop.
    Enter,
    /// A frame's work is done: carry out the queued display commands, then
    /// pace to the frame duration.
    Pace,
    /// The session is over: return to whoever started it.
    Leave,
}

/// The outcome of one step of the scheduler.
pub struct Transition<H, S> {
    pub state: LoopState,
    pub action: LoopAction,
    pub instance: Instance2D<H, S>,
}

/// The steps that the scheduler can take. From `Starting` it runs the start
/// phase and goes on to `Running`. In `Running` it looks at the running flag
/// before anything else: if the flag is cleared it stops and leaves the
/// session untouched, else it does one frame's work and stays in `Running`.
/// From `Stopped` it goes nowhere.
pub open spec fn steps<H, S, FH, FS>(
    run_hook: FH,
    run_script: FS,
    state: LoopState,
    events: Seq<InputEvent>,
    before: Instance2D<H, S>,
    next: Transition<H, S>,
) -> bool where
    FH: Fn(&H, Entity<H>, EngineSettings2D) -> (Entity<H>, EngineSettings2D),
    FS: Fn(&S, Instance2D<H, S>) -> Instance2D<H, S>,
 {
    match state {
        LoopState::Starting => {
            &&& next.state == LoopState::Running
            &&& next.action == LoopAction::Enter
            &&& started(run_hook, run_script, before, next.instance)
        },
        LoopState::Running => if before.engine_settings.is_running {
            &&& next.state == LoopState::Running
            &&& next.action == LoopAction::Pace
            &&& frame_ran(run_hook, run_script, events, before, next.instance)
        } else {
            &&& next.state == LoopState::Stopped
            &&& next.action == LoopAction::Leave
            &&& next.instance == before
        },
        LoopState::Stopped => {
            &&& next.state == LoopState::Stopped
            &&& next.action == LoopAction::Leave
            &&& next.instance == before
        },
    }
}

/// Whether the next step will consume input: only a frame does, so the input
/// adapter is to be polled exactly when this says so.
pub fn awaits_input<H, S>(state: LoopState, instance: &Instance2D<H, S>) -> (awaited: bool)
    ensures
        awaited == (state == LoopState::Running && instance.engine_settings.is_running),
{
    match state {
        LoopState::Running => instance.engine_settings.is_running,
        _ => false,
    }
}

/// Takes one step of the scheduler. `events` is what the input adapter
/// reported since the last step; a step that does no frame ignores it.
pub fn eventloop<H: Copy, S: Copy, FH, FS>(
    state: LoopState,
    instance: Instance2D<H, S>,
    events: &Vec<InputEvent>,
    run_hook: &FH,
    run_script: &FS,
) -> (next: Transition<H, S>) where
    FH: Fn(&H, Entity<H>, EngineSettings2D) -> (Entity<H>, EngineSettings2D),
    FS: Fn(&S, Instance2D<H, S>) -> Instance2D<H, S>,

    requires
        forall|hook: &H, entity: Entity<H>, session: EngineSettings2D|
            call_requires(*run_hook, (hook, entity, session)),
        forall|script: &S, session: Instance2D<H, S>| call_requires(*run_script, (script, session)),
    ensures
        steps(*run_hook, *run_script, state, events@, instance, next),
{
    match state {
        LoopState::Starting => {
            let hooked = start_entities(instance, run_hook);
            let scripted = start_scripts(hooked, run_script);
            let mut started = scripted;
            started.engine_settings.draw_rect(
                VisualRect::new(Vec2::new(0, 0), Vec2::new(100, 100), Color::white()),
            );
            assert(opening_drawn(scripted, started));
            Transition { state: LoopState::Running, action: LoopAction::Enter, instance: started }
        },
        LoopState::Running => {
            if !instance.engine_settings.is_running {
                return Transition {
                    state: LoopState::Stopped,
                    action: LoopAction::Leave,
                    instance,
                };
            }
            let mut polled = instance;
            update_keystrokes(&mut polled, events);
            let scripted = update_scripts(polled, run_script);
            let updated = update_entities(scripted, run_hook);
            Transition { state: LoopState::Running, action: LoopAction::Pace, instance: updated }
        },
        LoopState::Stopped => Transition {
            state: LoopState::Stopped,
            action: LoopAction::Leave,
            instance,
        },
    }
}

/// How a replayed session ended.
pub struct Replay<H, S> {
    /// The number of frames that ran.
    pub frames: usize,
    /// `Stopped` if a frame was about to begin with the running flag cleared,
    /// `Running` if the recorded input ran out first.
    pub state: LoopState,
    pub instance: Instance2D<H, S>,
}

/// `states` is the course of a session that started from `before` and ran
/// `frames` frames on recorded input: `states[0]` is the session as the
/// start phase left it, and frame `k` found the running flag set, consumed
/// `recorded[k]`, and turned `states[k]` into `states[k + 1]`.
pub open spec fn replayed<H, S, FH, FS>(
    run_hook: FH,
    run_script: FS,
    recorded: Seq<Vec<InputEvent>>,
    before: Instance2D<H, S>,
    frames: int,
    states: Seq<Instance2D<H, S>>,
) -> bool where
    FH: Fn(&H, Entity<H>, EngineSettings2D) -> (Entity<H>, EngineSettings2D),
    FS: Fn(&S, Instance2D<H, S>) -> Instance2D<H, S>,
 {
    &&& 0 <= frames <= recorded.len()
    &&& states.len() == frames + 1
    &&& started(run_hook, run_script, before, states[0])
    &&& forall|k: int|
        0 <= k < frames ==> (#[trigger] states[k]).engine_settings.is_running && frame_ran(
            run_hook,
            run_script,
            recorded[k]@,
            states[k],
            states[k + 1],
        )
}

/// Runs a whole session on recorded input, one batch of events for each
/// frame, with no window, no clock and no pause. The session is started, and
/// then frame follows frame, each complete before the next begins, until a
/// frame is about to begin with the running flag cleared or the record is
/// used up. A flag cleared in the middle of a frame ends the session only
/// after that frame.
pub fn replay<H: Copy, S: Copy, FH, FS>(
    instance: Instance2D<H, S>,
    recorded: &Vec<Vec<InputEvent>>,
    run_hook: &FH,
    run_script: &FS,
) -> (outcome: Replay<H, S>) where
    FH: Fn(&H, Entity<H>, EngineSettings2D) -> (Entity<H>, EngineSettings2D),
    FS: Fn(&S, Instance2D<H, S>) -> Instance2D<H, S>,

    requires
        forall|hook: &H, entity: Entity<H>, session: EngineSettings2D|
            call_requires(*run_hook, (hook, entity, session)),
        forall|script: &S, session: Instance2D<H, S>| call_requires(*run_script, (script, session)),
    ensures
        exists|states: Seq<Instance2D<H, S>>|
            {
                &&& #[trigger] replayed(
                    *run_hook,
                    *run_script,
                    recorded@,
                    instance,
                    outcome.frames as int,
                    states,
                )
                &&& states.last() == outcome.instance
            },
        outcome.state == LoopState::Stopped <==> !outcome.instance.engine_settings.is_running,
        outcome.state == LoopState::Running <==> outcome.instance.engine_settings.is_running,
        outcome.state == LoopState::Running ==> outcome.frames == recorded.len(),
{
    let first = instance.start(run_hook, run_script);
    let mut current = first.instance;
    let ghost mut states: Seq<Instance2D<H, S>> = seq![current];
    let mut frames: usize = 0;
    while frames < recorded.len() && awaits_input(LoopState::Running, &current)
        invariant
            forall|hook: &H, entity: Entity<H>, session: EngineSettings2D|
                call_requires(*run_hook, (hook, entity, session)),
            forall|script: &S, session: Instance2D<H, S>|
                call_requires(*run_script, (script, session)),
            replayed(*run_hook, *run_script, recorded@, instance, frames as int, states),
            states.last() == current,
        decreases recorded.len() - frames,
    {
        let next = eventloop(LoopState::Running, current, &recorded[frames], run_hook, run_script);
        current = next.instance;
        proof {
            states = states.push(current);
        }
        frames += 1;
    }
    let state = if current.engine_settings.is_running {
        LoopState::Running
    } else {
        LoopState::Stopped
    };
    let outcome = Replay { frames, state, instance: current };
    assert(replayed(*run_hook, *run_script, recorded@, instance, outcome.frames as int, states));
    outcome
}

/// The nanoseconds in a second.
pub const NANOS_PER_SECOND: u128 = 1_000_000_000;

/// The length of a frame at `framerate_cap` frames a second, in whole
/// nanoseconds. A cap of zero asks for no frame at all and has no frame length.
pub fn frame_duration(framerate_cap: u32) -> (nanos: Option<u128>)
    ensures
        framerate_cap == 0 ==> nanos is None,
        framerate_cap > 0 ==> nanos == Some((NANOS_PER_SECOND / framerate_cap as u128) as u128),
{
    if framerate_cap == 0 {
        None
    } else {
        Some(NANOS_PER_SECOND / framerate_cap as u128)
    }
}

/// How long to pause once a frame's work is done, so that the frame lasts
/// `frame_duration` at least: whatever `frame_time` left of it. A frame that
/// already took that long gets no pause.
pub fn maintain_framerate(frame_duration: u128, frame_time: u128) -> (pause: Option<u128>)
    ensures
        pause == if frame_time < frame_duration {
            Some((frame_duration - frame_time) as u128)
        } else {
            None
        },
        frame_time + pause_length(pause) >= frame_duration,
{
    if frame_time < frame_duration {
        Some(frame_duration - frame_time)
    } else {
        None
    }
}

/// A paced frame is long enough: where the work of a frame took
/// `frame_time` and the pause that `maintain_framerate` asked for lasted at
/// least as long as asked, work and pause together took the frame duration
/// at least.
pub proof fn lemma_paced_frame_is_long_enough(
    frame_duration: u128,
    frame_time: u128,
    pause: Option<u128>,
    slept: int,
)
    requires
        call_ensures(maintain_framerate, (frame_duration, frame_time), pause),
        slept >= pause_length(pause),
    ensures
        frame_time + slept >= frame_duration,
{
}

/// How long a pause lasts; no pause lasts no time.
pub open spec fn pause_length(pause: Option<u128>) -> int {
    match pause {
        Some(nanos) => nanos as int,
        None => 0,
    }
}

/// How long to pause once more at the end of a frame. `total_frame_time` is
/// the time since the previous frame ended, which by then is `frame_duration`
/// at least. Where it ran over by less than a frame, the pause is a frame less
/// the overrun.
pub fn settle_framerate(frame_duration: u128, total_frame_time: u128) -> (pause: Option<u128>)
    requires
        total_frame_time >= frame_duration,
    ensures
        pause == if total_frame_time - frame_duration < frame_duration {
            Some((frame_duration - (total_frame_time - frame_duration)) as u128)
        } else {
            None
        },
{
    let elapsed = total_frame_time - frame_duration;
    if elapsed < frame_duration {
        Some(frame_duration - elapsed)
    } else {
        None
    }
}

impl<H: Copy, S: Copy> Instance2D<H, S> {
    /// Starts the session: runs the start phase and hands the session back,
    /// ready for its first frame.
    pub fn start<FH, FS>(self, run_hook: &FH, run_script: &FS) -> (next: Transition<H, S>) where
        FH: Fn(&H, Entity<H>, EngineSettings2D) -> (Entity<H>, EngineSettings2D),
        FS: Fn(&S, Instance2D<H, S>) -> Instance2D<H, S>,

        requires
            forall|hook: &H, entity: Entity<H>, session: EngineSettings2D|
                call_requires(*run_hook, (hook, entity, session)),
            forall|script: &S, session: Instance2D<H, S>|
                call_requires(*run_script, (script, session)),
        ensures
            next.state == LoopState::Running,
            next.action == LoopAction::Enter,
            started(*run_hook, *run_script, self, next.instance),
    {
        let events: Vec<InputEvent> = Vec::new();
        eventloop(LoopState::Starting, self, &events, run_hook, run_script)
    }
}

} // verus!
