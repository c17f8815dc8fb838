use gloof::gl::api_1_0::{Command, Single};
use gloof::gl::{Context, TlsState};
use gloof::glx::{Runtime, State, Surface};

fn single(value: f32) -> Single {
    Single { bits: value.to_bits() }
}

fn translate(x: f32, y: f32, z: f32) -> Command {
    Command::glTranslatef(single(x), single(y), single(z))
}

fn window(drawable: u64) -> Surface {
    Surface { drawable }
}

fn is_inactive(runtime: &Runtime, h: usize) -> bool {
    matches!(runtime.contexts[h], Some(gloof::glx::Context { state: State::Inactive(_), .. }))
}

fn is_current(runtime: &Runtime, h: usize) -> bool {
    matches!(runtime.contexts[h], Some(gloof::glx::Context { state: State::Current { .. }, .. }))
}

#[test]
fn a_context_enters_an_empty_slot_and_leaves_it_again() {
    let mut slot = TlsState::Empty;
    assert!(slot.is_empty());
    assert!(Context::leave(&mut slot).is_none());
    let mut gl = Box::new(Context::new());
    gl.first_unused_list = 42;
    gl.enter(&mut slot);
    assert!(slot.is_present());
    assert!(!slot.is_empty());
    assert_eq!(slot.in_use_by(), None);
    let left = Context::leave(&mut slot).expect("a context was installed");
    assert_eq!(left.first_unused_list, 42);
    assert!(slot.is_empty());
}

#[test]
fn a_call_has_the_context_to_itself_until_it_hands_it_back() {
    let mut slot = TlsState::Empty;
    Box::new(Context::new()).enter(&mut slot);
    let mut gl = slot.begin_use("glClear");
    assert_eq!(slot.in_use_by(), Some("glClear"));
    assert!(!slot.is_present());
    assert!(!slot.is_empty());
    Command::glClear(1).submit(&mut gl);
    slot.end_use(gl);
    assert!(slot.is_present());
    assert_eq!(slot.in_use_by(), None);
    let left = Context::leave(&mut slot).expect("a context was installed");
    assert_eq!(left.pending_cmds, vec![Command::glClear(1)]);
}

#[test]
fn with_runs_the_call_and_installs_what_it_hands_back() {
    let mut slot = TlsState::Empty;
    Box::new(Context::new()).enter(&mut slot);
    let queued = Context::with(&mut slot, "glTranslatef", |mut gl| {
        translate(1.0, 0.0, 0.0).submit(&mut gl);
        let queued = gl.pending_cmds.len();
        (gl, queued)
    });
    assert_eq!(queued, 1);
    assert!(slot.is_present());
    let first = Context::with(&mut slot, "glGenLists", |mut gl| {
        let first = gloof::gl::api_1_0::glGenLists(&mut gl, 2);
        (gl, first)
    });
    assert_eq!(first, 1);
    let left = Context::leave(&mut slot).expect("a context was installed");
    assert_eq!(left.pending_cmds, vec![translate(1.0, 0.0, 0.0)]);
    assert_eq!(left.first_unused_list, 3);
}

#[test]
fn a_new_runtime_knows_nothing() {
    let runtime = Runtime::new();
    assert!(runtime.contexts.is_empty());
    assert!(runtime.threads.is_empty());
    assert!(!runtime.can_remove_current(0));
    assert!(!runtime.can_make_current(0, 0));
    assert!(!runtime.can_begin_use(0));
    assert!(!runtime.can_end_use(0));
    assert!(!runtime.can_destroy(0));
}

#[test]
fn threads_and_contexts_are_numbered_from_zero() {
    let mut runtime = Runtime::new();
    assert_eq!(runtime.add_thread(), 0);
    assert_eq!(runtime.create_context(), 0);
    assert_eq!(runtime.add_thread(), 1);
    assert_eq!(runtime.create_context(), 1);
    assert_eq!(runtime.get_current(0), None);
    assert_eq!(runtime.get_current(1), None);
    assert!(is_inactive(&runtime, 0));
    assert!(is_inactive(&runtime, 1));
    assert!(runtime.threads[0].slot.is_empty());
    assert_eq!(runtime.surfaces(0), None);
}

#[test]
fn making_current_installs_the_graphics_context_on_the_thread() {
    let mut runtime = Runtime::new();
    let t = runtime.add_thread();
    let h = runtime.create_context();
    assert!(runtime.can_make_current(t, h));
    runtime.make_current(t, h, window(7), window(8));
    assert_eq!(runtime.get_current(t), Some(h));
    assert!(is_current(&runtime, h));
    assert!(runtime.threads[t].slot.is_present());
    assert_eq!(runtime.surfaces(t), Some((window(7), window(8))));
    assert!(runtime.can_begin_use(t));
}

#[test]
fn removing_nothing_does_nothing() {
    let mut runtime = Runtime::new();
    let t = runtime.add_thread();
    let h = runtime.create_context();
    assert!(runtime.can_remove_current(t));
    assert_eq!(runtime.remove_current(t), None);
    assert!(is_inactive(&runtime, h));
    assert!(runtime.threads[t].slot.is_empty());
    assert!(!runtime.can_remove_current(t + 1));
}

#[test]
fn a_context_current_on_one_thread_cannot_be_made_current_on_another() {
    let mut runtime = Runtime::new();
    let first = runtime.add_thread();
    let second = runtime.add_thread();
    let h = runtime.create_context();
    runtime.make_current(first, h, window(1), window(1));
    assert!(!runtime.can_make_current(second, h));
    assert!(runtime.can_make_current(first, h));
    assert_eq!(runtime.get_current(second), None);
    assert!(runtime.threads[second].slot.is_empty());
    assert_eq!(runtime.remove_current(first), Some(h));
    assert!(runtime.can_make_current(second, h));
    runtime.make_current(second, h, window(2), window(2));
    assert_eq!(runtime.get_current(second), Some(h));
    assert_eq!(runtime.get_current(first), None);
    assert!(!runtime.can_make_current(first, h));
}

#[test]
fn at_most_one_thread_holds_a_graphics_context() {
    let mut runtime = Runtime::new();
    let threads = [runtime.add_thread(), runtime.add_thread(), runtime.add_thread()];
    let contexts = [runtime.create_context(), runtime.create_context()];
    let script = [(0, 0), (1, 1), (2, 0), (0, 1), (1, 0), (2, 1), (2, 0), (0, 0)];
    for (t, h) in script {
        if runtime.can_make_current(threads[t], contexts[h]) {
            runtime.make_current(threads[t], contexts[h], window(1), window(1));
        } else {
            runtime.remove_current(threads[t]);
        }
        for h in contexts {
            let holders = threads.iter().filter(|t| runtime.get_current(**t) == Some(h)).count();
            assert!(holders <= 1);
            assert_eq!(holders == 1, is_current(&runtime, h));
            assert_eq!(holders == 0, is_inactive(&runtime, h));
        }
        for t in threads {
            assert_eq!(runtime.get_current(t).is_some(), runtime.threads[t].slot.is_present());
        }
    }
}

#[test]
fn making_current_and_removing_keeps_what_is_pending() {
    let mut runtime = Runtime::new();
    let t = runtime.add_thread();
    let h = runtime.create_context();
    runtime.make_current(t, h, window(1), window(1));
    runtime.with(t, "glTranslatef", |mut gl| {
        translate(1.0, 0.0, 0.0).submit(&mut gl);
        Command::glEnd.submit(&mut gl);
        (gl, ())
    });
    assert_eq!(runtime.remove_current(t), Some(h));
    assert_eq!(runtime.get_current(t), None);
    assert!(runtime.threads[t].slot.is_empty());
    match &runtime.contexts[h] {
        Some(gloof::glx::Context { state: State::Inactive(gl), released: false }) => {
            assert_eq!(gl.pending_cmds, vec![translate(1.0, 0.0, 0.0), Command::glEnd]);
        }
        other => panic!("expected an inactive context, found {:?}", other),
    }
    let other = runtime.add_thread();
    runtime.make_current(other, h, window(2), window(3));
    runtime.remove_current(other);
    match &runtime.contexts[h] {
        Some(gloof::glx::Context { state: State::Inactive(gl), released: false }) => {
            assert_eq!(gl.pending_cmds, vec![translate(1.0, 0.0, 0.0), Command::glEnd]);
        }
        other => panic!("expected an inactive context, found {:?}", other),
    }
}

#[test]
fn making_another_context_current_parks_the_first() {
    let mut runtime = Runtime::new();
    let t = runtime.add_thread();
    let first = runtime.create_context();
    let second = runtime.create_context();
    runtime.make_current(t, first, window(1), window(1));
    runtime.with(t, "glEnd", |mut gl| {
        Command::glEnd.submit(&mut gl);
        (gl, ())
    });
    assert!(runtime.can_make_current(t, second));
    runtime.make_current(t, second, window(2), window(2));
    assert_eq!(runtime.get_current(t), Some(second));
    assert!(is_current(&runtime, second));
    match &runtime.contexts[first] {
        Some(gloof::glx::Context { state: State::Inactive(gl), .. }) => {
            assert_eq!(gl.pending_cmds, vec![Command::glEnd]);
        }
        other => panic!("expected an inactive context, found {:?}", other),
    }
    let pending = runtime.with(t, "glFlush", |gl| {
        let pending = gl.pending_cmds.len();
        (gl, pending)
    });
    assert_eq!(pending, 0);
}

#[test]
fn making_the_current_context_current_again_rebinds_it() {
    let mut runtime = Runtime::new();
    let t = runtime.add_thread();
    let h = runtime.create_context();
    runtime.make_current(t, h, window(1), window(1));
    runtime.with(t, "glEnd", |mut gl| {
        Command::glEnd.submit(&mut gl);
        (gl, ())
    });
    assert!(runtime.can_make_current(t, h));
    runtime.make_current(t, h, window(5), window(6));
    assert_eq!(runtime.get_current(t), Some(h));
    assert_eq!(runtime.surfaces(t), Some((window(5), window(6))));
    let pending = runtime.with(t, "glFlush", |gl| {
        let pending = gl.pending_cmds.clone();
        (gl, pending)
    });
    assert_eq!(pending, vec![Command::glEnd]);
}

#[test]
fn a_second_call_cannot_begin_while_the_first_is_at_work() {
    let mut runtime = Runtime::new();
    let t = runtime.add_thread();
    let h = runtime.create_context();
    let other = runtime.create_context();
    assert!(!runtime.can_begin_use(t));
    runtime.make_current(t, h, window(1), window(1));
    assert!(runtime.can_begin_use(t));
    assert!(!runtime.can_end_use(t));
    let mut gl = runtime.begin_use(t, "glBegin");
    assert_eq!(runtime.threads[t].slot.in_use_by(), Some("glBegin"));
    assert!(!runtime.can_begin_use(t));
    assert!(!runtime.can_remove_current(t));
    assert!(!runtime.can_make_current(t, h));
    assert!(!runtime.can_make_current(t, other));
    assert!(runtime.can_end_use(t));
    assert_eq!(runtime.get_current(t), Some(h));
    Command::glBegin(gloof::gl::constants::Enum::LINES).submit(&mut gl);
    runtime.end_use(t, gl);
    assert!(runtime.can_begin_use(t));
    assert!(runtime.can_remove_current(t));
    assert!(!runtime.can_end_use(t));
    assert!(runtime.threads[t].slot.is_present());
    assert_eq!(runtime.threads[t].slot.in_use_by(), None);
}

#[test]
fn a_call_on_one_thread_does_not_hinder_another_thread() {
    let mut runtime = Runtime::new();
    let first = runtime.add_thread();
    let second = runtime.add_thread();
    let a = runtime.create_context();
    let b = runtime.create_context();
    runtime.make_current(first, a, window(1), window(1));
    let gl = runtime.begin_use(first, "glEnd");
    assert!(runtime.can_make_current(second, b));
    assert!(!runtime.can_make_current(second, a));
    runtime.make_current(second, b, window(2), window(2));
    assert!(runtime.can_begin_use(second));
    runtime.end_use(first, gl);
    assert_eq!(runtime.get_current(first), Some(a));
    assert_eq!(runtime.get_current(second), Some(b));
}

#[test]
fn destroying_an_inactive_context_ends_it() {
    let mut runtime = Runtime::new();
    let t = runtime.add_thread();
    let h = runtime.create_context();
    assert!(runtime.can_destroy(h));
    runtime.destroy(h);
    assert!(runtime.contexts[h].is_none());
    assert!(!runtime.can_destroy(h));
    assert!(!runtime.can_make_current(t, h));
    assert_eq!(runtime.create_context(), h + 1);
}

#[test]
fn destroying_a_current_context_ends_it_when_it_is_removed() {
    let mut runtime = Runtime::new();
    let t = runtime.add_thread();
    let other = runtime.add_thread();
    let h = runtime.create_context();
    runtime.make_current(t, h, window(1), window(1));
    runtime.destroy(h);
    assert!(is_current(&runtime, h));
    assert!(matches!(runtime.contexts[h], Some(gloof::glx::Context { released: true, .. })));
    assert!(!runtime.can_destroy(h));
    assert!(!runtime.can_make_current(t, h));
    assert!(!runtime.can_make_current(other, h));
    assert_eq!(runtime.get_current(t), Some(h));
    assert!(runtime.can_begin_use(t));
    runtime.with(t, "glEnd", |mut gl| {
        Command::glEnd.submit(&mut gl);
        (gl, ())
    });
    assert_eq!(runtime.remove_current(t), Some(h));
    assert!(runtime.contexts[h].is_none());
    assert!(runtime.threads[t].slot.is_empty());
    assert_eq!(runtime.get_current(t), None);
}
