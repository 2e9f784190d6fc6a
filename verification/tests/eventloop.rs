use zenith::eventloop::{
    awaits_input, eventloop, frame_duration, maintain_framerate, replay, settle_framerate,
    start_entities, start_scripts, update_entities, update_keystrokes, update_scripts, LoopAction,
    LoopState, Transition,
};
use zenith::keys::{InputEvent, Key};
use zenith::render::{Color, Vec2, VisualRect};
use zenith::sdl2_renderer::DrawCommand;
use zenith::tags::TagValue;
use zenith::{EngineSettings2D, Entity, Instance2D};

#[derive(Clone, Copy)]
struct Hook(fn(&mut Entity<Hook>, &mut EngineSettings2D));

#[derive(Clone, Copy)]
struct Global(fn(&mut Session));

type Session = Instance2D<Hook, Global>;

fn run_hook(
    hook: &Hook,
    entity: Entity<Hook>,
    settings: EngineSettings2D,
) -> (Entity<Hook>, EngineSettings2D) {
    let mut entity = entity;
    let mut settings = settings;
    (hook.0)(&mut entity, &mut settings);
    (entity, settings)
}

fn run_script(script: &Global, session: Session) -> Session {
    let mut session = session;
    (script.0)(&mut session);
    session
}

fn int_of(entity: &Entity<Hook>, name: &str) -> Option<i32> {
    entity.get_tag(name).and_then(|value| value.extract_int())
}

fn count_up(entity: &mut Entity<Hook>, _settings: &mut EngineSettings2D) {
    let next = int_of(entity, "count").unwrap_or(0) + 1;
    entity.set_tag("count", TagValue::Int(next));
}

fn mark_started(entity: &mut Entity<Hook>, _settings: &mut EngineSettings2D) {
    entity.set_tag("started", TagValue::Int(1));
}

fn quit_on_q(_entity: &mut Entity<Hook>, settings: &mut EngineSettings2D) {
    if settings.keys.Q {
        settings.is_running = false;
    }
}

fn stamp_order(entity: &mut Entity<Hook>, settings: &mut EngineSettings2D) {
    let seen = settings.engine_env_commands();
    entity.set_tag("order", TagValue::Int(seen));
    settings.update_display();
}

trait CommandCount {
    fn engine_env_commands(&self) -> i32;
}

impl CommandCount for EngineSettings2D {
    fn engine_env_commands(&self) -> i32 {
        match &self.engine_env {
            zenith::RenderingEnvironment::Sdl2(env) => env.commands.len() as i32,
        }
    }
}

fn write_seen(session: &mut Session) {
    for entity in session.environment.mut_entities().iter_mut() {
        entity.set_tag("seen", TagValue::Int(1));
    }
}

fn check_seen(session: &mut Session) {
    for entity in session.environment.list_entities() {
        assert!(entity.get_tag("seen").is_some());
    }
    session.environment.mut_entities().push(Entity::new().with_name_tag("checked"));
}

fn register_late(session: &mut Session) {
    session.environment.add_update_script("late", Global(write_seen));
}

fn quit_now(session: &mut Session) {
    session.quit();
}

fn names(session: &Session) -> Vec<String> {
    session.environment.list_entities().iter().map(|e| e.get_name()).collect()
}

fn one_frame(session: Session, events: Vec<InputEvent>) -> Transition<Hook, Global> {
    eventloop(LoopState::Running, session, &events, &run_hook, &run_script)
}

#[test]
fn entity_without_update_hook_is_untouched_by_update_pass() {
    let mut session = Session::new_skeleton();
    session.environment.add_entity(
        Entity::new().with_name_tag("still").with_tag("hp", TagValue::Int(5)).with_start_fn(Hook(count_up)),
    );
    session.environment.add_entity(Entity::new().with_name_tag("busy").with_update_fn(Hook(count_up)));
    session.environment.add_entity(Entity::new());
    let before: Vec<String> = session
        .environment
        .list_entities()
        .iter()
        .map(|e| format!("{:?}", e.tags))
        .collect();
    let after = update_entities(session, &run_hook);
    let entities = after.environment.list_entities();
    assert_eq!(entities.len(), 3);
    assert_eq!(format!("{:?}", entities[0].tags), before[0]);
    assert_eq!(format!("{:?}", entities[2].tags), before[2]);
    assert!(entities[0].start_function.is_some());
    assert!(entities[0].update_function.is_none());
    assert_eq!(int_of(&entities[0], "count"), None);
    assert_eq!(int_of(&entities[1], "count"), Some(1));
    assert_eq!(names(&after), vec!["still", "busy", "'Unnamed'"]);
}

#[test]
fn update_pass_runs_update_hooks_only() {
    let mut session = Session::new_skeleton();
    session.environment.add_entity(
        Entity::new().with_start_fn(Hook(mark_started)).with_update_fn(Hook(count_up)),
    );
    let after = update_entities(session, &run_hook);
    let after = update_entities(after, &run_hook);
    let entity = &after.environment.list_entities()[0];
    assert_eq!(int_of(entity, "count"), Some(2));
    assert_eq!(int_of(entity, "started"), None);
}

#[test]
fn start_pass_runs_start_hooks_only_and_keeps_every_entity() {
    let mut session = Session::new_skeleton();
    session.environment.add_entity(Entity::new().with_name_tag("a").with_start_fn(Hook(mark_started)));
    session.environment.add_entity(Entity::new().with_name_tag("b").with_update_fn(Hook(count_up)));
    session.environment.add_entity(Entity::new().with_name_tag("c"));
    let after = start_entities(session, &run_hook);
    assert_eq!(names(&after), vec!["a", "b", "c"]);
    let entities = after.environment.list_entities();
    assert_eq!(int_of(&entities[0], "started"), Some(1));
    assert_eq!(int_of(&entities[1], "started"), None);
    assert_eq!(int_of(&entities[1], "count"), None);
    assert_eq!(entities[2].tags.entries().len(), 1);
}

#[test]
fn entities_are_served_in_registration_order() {
    let mut session = Session::new_skeleton();
    for name in ["first", "second", "third"] {
        session.environment.add_entity(Entity::new().with_name_tag(name).with_update_fn(Hook(stamp_order)));
    }
    let after = update_entities(session, &run_hook);
    let entities = after.environment.list_entities();
    assert_eq!(int_of(&entities[0], "order"), Some(0));
    assert_eq!(int_of(&entities[1], "order"), Some(1));
    assert_eq!(int_of(&entities[2], "order"), Some(2));
    assert_eq!(names(&after), vec!["first", "second", "third"]);
}

#[test]
fn empty_environment_passes_change_nothing() {
    let session = Session::new_skeleton();
    let session = start_entities(session, &run_hook);
    let session = start_scripts(session, &run_script);
    let session = update_scripts(session, &run_script);
    let session = update_entities(session, &run_hook);
    assert!(session.environment.list_entities().is_empty());
    assert!(session.engine_settings.is_running);
    assert_eq!(session.engine_settings.engine_env_commands(), 0);
}

#[test]
fn later_script_sees_what_earlier_script_wrote() {
    let mut session = Session::new_skeleton();
    session.environment.add_entity(Entity::new().with_name_tag("one"));
    session.environment.add_entity(Entity::new().with_name_tag("two"));
    session.environment.add_update_script("A", Global(write_seen));
    session.environment.add_update_script("B", Global(check_seen));
    let next = one_frame(session, Vec::new());
    assert_eq!(next.state, LoopState::Running);
    assert_eq!(names(&next.instance), vec!["one", "two", "checked"]);
    for entity in &next.instance.environment.list_entities()[..2] {
        assert_eq!(int_of(entity, "seen"), Some(1));
    }
}

#[test]
fn scripts_run_before_entities_within_a_frame() {
    let mut session = Session::new_skeleton();
    session.environment.add_entity(Entity::new().with_name_tag("e").with_update_fn(Hook(stamp_order)));
    session.environment.add_update_script("flush", Global(|s: &mut Session| s.engine_settings.update_display()));
    let next = one_frame(session, Vec::new());
    let entity = &next.instance.environment.list_entities()[0];
    assert_eq!(int_of(entity, "order"), Some(1));
}

#[test]
fn script_registered_during_a_pass_waits_for_the_next() {
    let mut session = Session::new_skeleton();
    session.environment.add_entity(Entity::new());
    session.environment.add_update_script("register", Global(register_late));
    let after = update_scripts(session, &run_script);
    assert_eq!(after.environment.list_update_scripts().len(), 2);
    assert_eq!(int_of(&after.environment.list_entities()[0], "seen"), None);
    let after = update_scripts(after, &run_script);
    assert_eq!(after.environment.list_update_scripts().len(), 3);
    assert_eq!(int_of(&after.environment.list_entities()[0], "seen"), Some(1));
}

#[test]
fn builtin_close_script_quits_only_on_quit_signal() {
    let session = Session::new();
    let next = one_frame(session, vec![InputEvent::KeyDown(Key::Escape)]);
    assert!(next.instance.engine_settings.is_running);
    assert!(next.instance.engine_settings.keys.ESCAPE);
    let next = one_frame(next.instance, vec![InputEvent::Quit]);
    assert!(!next.instance.engine_settings.is_running);
    assert!(next.instance.engine_settings.keys.QUIT);
    assert_eq!(next.state, LoopState::Running);
    assert_eq!(next.action, LoopAction::Pace);
    let last = one_frame(next.instance, Vec::new());
    assert_eq!(last.state, LoopState::Stopped);
    assert_eq!(last.action, LoopAction::Leave);
}

#[test]
fn builtin_display_script_queues_one_present_a_frame() {
    let session = Session::new();
    let mut next = one_frame(session, Vec::new());
    assert_eq!(next.instance.engine_settings.take_commands(), vec![DrawCommand::Present]);
    let mut next = one_frame(next.instance, Vec::new());
    assert_eq!(next.instance.engine_settings.take_commands(), vec![DrawCommand::Present]);
    assert!(next.instance.engine_settings.take_commands().is_empty());
}

#[test]
fn skeleton_session_ignores_quit_signal() {
    let session = Session::new_skeleton();
    let next = one_frame(session, vec![InputEvent::Quit]);
    assert!(next.instance.engine_settings.keys.QUIT);
    assert!(next.instance.engine_settings.is_running);
}

#[test]
fn update_keystrokes_touches_the_snapshot_only() {
    let mut session = Session::new();
    session.environment.add_entity(Entity::new().with_name_tag("e"));
    update_keystrokes(
        &mut session,
        &vec![InputEvent::KeyDown(Key::A), InputEvent::KeyDown(Key::B), InputEvent::KeyUp(Key::A)],
    );
    assert_eq!(session.engine_settings.keys.all_pressed_str(), vec!["b"]);
    assert!(session.engine_settings.is_running);
    assert!(session.engine_settings.use_delta_time);
    assert_eq!(names(&session), vec!["e"]);
    assert_eq!(session.environment.list_update_scripts().len(), 2);
    assert_eq!(session.engine_settings.engine_env_commands(), 0);
}

#[test]
fn start_step_runs_hooks_then_scripts_then_draws() {
    let mut session = Session::new_skeleton();
    session.environment.add_entity(Entity::new().with_name_tag("e").with_start_fn(Hook(mark_started)));
    session.environment.add_start_script("check", Global(|s: &mut Session| {
        let started = s.environment.list_entities()[0].get_tag("started").is_some();
        assert!(started);
        s.environment.mut_entities().push(Entity::new().with_name_tag("from script"));
    }));
    session.environment.add_update_script("never at start", Global(quit_now));
    let mut next = session.start(&run_hook, &run_script);
    assert_eq!(next.state, LoopState::Running);
    assert_eq!(next.action, LoopAction::Enter);
    assert!(next.instance.engine_settings.is_running);
    assert_eq!(names(&next.instance), vec!["e", "from script"]);
    assert_eq!(
        next.instance.engine_settings.take_commands(),
        vec![DrawCommand::FillRect { x: 0, y: 0, width: 100, height: 100, color: Color::white() }]
    );
}

#[test]
fn start_step_ignores_input() {
    let session = Session::new();
    let next = eventloop(
        LoopState::Starting,
        session,
        &vec![InputEvent::Quit, InputEvent::KeyDown(Key::A)],
        &run_hook,
        &run_script,
    );
    assert_eq!(next.state, LoopState::Running);
    assert!(!next.instance.engine_settings.keys.QUIT);
    assert!(!next.instance.engine_settings.keys.A);
}

#[test]
fn cleared_flag_stops_before_any_work() {
    let mut session = Session::new();
    session.environment.add_entity(Entity::new().with_update_fn(Hook(count_up)));
    session.quit();
    assert!(!awaits_input(LoopState::Running, &session));
    let mut next = one_frame(session, vec![InputEvent::KeyDown(Key::A)]);
    assert_eq!(next.state, LoopState::Stopped);
    assert_eq!(next.action, LoopAction::Leave);
    assert!(!next.instance.engine_settings.keys.A);
    assert_eq!(int_of(&next.instance.environment.list_entities()[0], "count"), None);
    assert!(next.instance.engine_settings.take_commands().is_empty());
}

#[test]
fn stopped_stays_stopped() {
    let mut session = Session::new();
    session.environment.add_entity(Entity::new().with_update_fn(Hook(count_up)));
    let next = eventloop(LoopState::Stopped, session, &vec![InputEvent::Quit], &run_hook, &run_script);
    assert_eq!(next.state, LoopState::Stopped);
    assert_eq!(next.action, LoopAction::Leave);
    assert!(next.instance.engine_settings.is_running);
    assert!(!next.instance.engine_settings.keys.QUIT);
    assert_eq!(int_of(&next.instance.environment.list_entities()[0], "count"), None);
}

#[test]
fn input_is_awaited_only_by_a_frame() {
    let mut session = Session::new();
    assert!(!awaits_input(LoopState::Starting, &session));
    assert!(awaits_input(LoopState::Running, &session));
    assert!(!awaits_input(LoopState::Stopped, &session));
    session.quit();
    assert!(!awaits_input(LoopState::Starting, &session));
    assert!(!awaits_input(LoopState::Running, &session));
    assert!(!awaits_input(LoopState::Stopped, &session));
}

#[test]
fn quitting_mid_frame_does_not_cut_the_frame_short() {
    let mut session = Session::new_skeleton();
    session.environment.add_update_script("quit", Global(quit_now));
    session.environment.add_update_script("A", Global(write_seen));
    session.environment.add_entity(Entity::new().with_update_fn(Hook(count_up)));
    let next = one_frame(session, Vec::new());
    assert_eq!(next.state, LoopState::Running);
    assert!(!next.instance.engine_settings.is_running);
    let entity = &next.instance.environment.list_entities()[0];
    assert_eq!(int_of(entity, "seen"), Some(1));
    assert_eq!(int_of(entity, "count"), Some(1));
}

#[test]
fn loop_runs_three_frames_when_key_comes_on_the_third() {
    let mut session = Session::new_skeleton();
    session.environment.add_entity(
        Entity::new().with_name_tag("watcher").with_update_fn(Hook(quit_on_q)),
    );
    let mut step = session.start(&run_hook, &run_script);
    let mut polls = 0;
    let mut frames = 0;
    let mut steps = 0;
    while step.action != LoopAction::Leave {
        let events = if awaits_input(step.state, &step.instance) {
            polls += 1;
            if polls == 3 {
                vec![InputEvent::KeyDown(Key::Q)]
            } else {
                Vec::new()
            }
        } else {
            Vec::new()
        };
        step = eventloop(step.state, step.instance, &events, &run_hook, &run_script);
        if step.action == LoopAction::Pace {
            frames += 1;
        }
        steps += 1;
        assert!(steps < 100);
    }
    assert_eq!(frames, 3);
    assert_eq!(polls, 3);
    assert_eq!(steps, 4);
    assert_eq!(step.state, LoopState::Stopped);
    assert!(!step.instance.engine_settings.is_running);
}

#[test]
fn replay_stops_after_the_frame_that_cleared_the_flag() {
    let mut session = Session::new_skeleton();
    session.environment.add_entity(
        Entity::new().with_name_tag("watcher").with_update_fn(Hook(quit_on_q)),
    );
    session.environment.add_entity(Entity::new().with_name_tag("counter").with_update_fn(Hook(count_up)));
    let recorded = vec![
        Vec::new(),
        vec![InputEvent::KeyDown(Key::A)],
        vec![InputEvent::KeyUp(Key::A), InputEvent::KeyDown(Key::Q)],
        vec![InputEvent::KeyUp(Key::Q)],
        Vec::new(),
    ];
    let outcome = replay(session, &recorded, &run_hook, &run_script);
    assert_eq!(outcome.frames, 3);
    assert_eq!(outcome.state, LoopState::Stopped);
    assert!(outcome.instance.engine_settings.keys.Q);
    assert!(!outcome.instance.engine_settings.keys.A);
    assert_eq!(int_of(&outcome.instance.environment.list_entities()[1], "count"), Some(3));
}

#[test]
fn replay_runs_out_of_input_while_running() {
    let mut session = Session::new();
    session.environment.add_entity(Entity::new().with_update_fn(Hook(count_up)));
    let recorded = vec![Vec::new(), Vec::new()];
    let mut outcome = replay(session, &recorded, &run_hook, &run_script);
    assert_eq!(outcome.frames, 2);
    assert_eq!(outcome.state, LoopState::Running);
    assert!(outcome.instance.engine_settings.is_running);
    assert_eq!(int_of(&outcome.instance.environment.list_entities()[0], "count"), Some(2));
    assert_eq!(
        outcome.instance.engine_settings.take_commands(),
        vec![
            DrawCommand::FillRect { x: 0, y: 0, width: 100, height: 100, color: Color::white() },
            DrawCommand::Present,
            DrawCommand::Present,
        ]
    );
}

#[test]
fn replay_without_input_only_starts() {
    let mut session = Session::new_skeleton();
    session.environment.add_entity(
        Entity::new().with_start_fn(Hook(mark_started)).with_update_fn(Hook(count_up)),
    );
    let outcome = replay(session, &Vec::new(), &run_hook, &run_script);
    assert_eq!(outcome.frames, 0);
    assert_eq!(outcome.state, LoopState::Running);
    let entity = &outcome.instance.environment.list_entities()[0];
    assert_eq!(int_of(entity, "started"), Some(1));
    assert_eq!(int_of(entity, "count"), None);
}

#[test]
fn replay_of_a_session_that_quits_at_start_runs_no_frame() {
    let mut session = Session::new_skeleton();
    session.environment.add_start_script("quit", Global(quit_now));
    session.environment.add_entity(Entity::new().with_update_fn(Hook(count_up)));
    let outcome = replay(session, &vec![Vec::new(), Vec::new()], &run_hook, &run_script);
    assert_eq!(outcome.frames, 0);
    assert_eq!(outcome.state, LoopState::Stopped);
    assert_eq!(int_of(&outcome.instance.environment.list_entities()[0], "count"), None);
}

#[test]
fn draw_from_a_hook_reaches_the_queue() {
    let mut session = Session::new_skeleton();
    session.environment.add_entity(Entity::new().with_update_fn(Hook(|_e, settings| {
        let report = settings.draw_rect(VisualRect::new(Vec2::new(1, 2), Vec2::new(-3, 4), Color::black()));
        assert!(report.width_was_negative);
        assert!(!report.length_was_negative);
    })));
    let mut next = one_frame(session, Vec::new());
    assert_eq!(
        next.instance.engine_settings.take_commands(),
        vec![DrawCommand::FillRect { x: 1, y: 2, width: 0, height: 4, color: Color::black() }]
    );
}

#[test]
fn frame_duration_is_a_second_divided_by_the_cap() {
    assert_eq!(frame_duration(60), Some(16_666_666));
    assert_eq!(frame_duration(1), Some(1_000_000_000));
    assert_eq!(frame_duration(30), Some(33_333_333));
    assert_eq!(frame_duration(144), Some(6_944_444));
    assert_eq!(frame_duration(1_000_000_000), Some(1));
    assert_eq!(frame_duration(u32::MAX), Some(0));
    assert_eq!(frame_duration(0), None);
}

#[test]
fn pause_fills_the_frame() {
    let frame = frame_duration(60).unwrap();
    assert_eq!(maintain_framerate(frame, 1_000_000), Some(15_666_666));
    assert_eq!(maintain_framerate(frame, 0), Some(frame));
    assert_eq!(maintain_framerate(frame, frame - 1), Some(1));
    assert_eq!(maintain_framerate(frame, frame), None);
    assert_eq!(maintain_framerate(frame, frame + 1), None);
    assert_eq!(maintain_framerate(0, 0), None);
    assert_eq!(maintain_framerate(u128::MAX, 0), Some(u128::MAX));
    for work in [0u128, 1, 999_999, 16_666_665, 16_666_666, 20_000_000] {
        let pause = maintain_framerate(frame, work).unwrap_or(0);
        assert!(work + pause >= frame);
    }
}

#[test]
fn second_pause_is_a_frame_less_the_overrun() {
    let frame = 16_666_666u128;
    assert_eq!(settle_framerate(frame, frame), Some(frame));
    assert_eq!(settle_framerate(frame, frame + 100), Some(frame - 100));
    assert_eq!(settle_framerate(frame, 2 * frame - 1), Some(1));
    assert_eq!(settle_framerate(frame, 2 * frame), None);
    assert_eq!(settle_framerate(frame, 5 * frame), None);
    assert_eq!(settle_framerate(0, 0), None);
}
