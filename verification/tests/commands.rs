use gloof::gl::api_1_0::{
    can_gen_lists, can_new_list, glCallList, glEndList, glGenLists, glNewList, light_param_count,
    material_param_count, Command, Params, Single,
};
use gloof::gl::constants::Enum;
use gloof::gl::{Context, DisplayList};
use std::rc::Rc;

fn single(value: f32) -> Single {
    Single { bits: value.to_bits() }
}

fn translate(x: f32, y: f32, z: f32) -> Command {
    Command::glTranslatef(single(x), single(y), single(z))
}

#[test]
fn params_hold_what_they_were_made_of() {
    let values = [single(0.25), single(-1.0), single(3.5)];
    let params = Params::from_slice(&values);
    assert_eq!(params.len(), 3);
    assert_eq!(params.get(0), single(0.25));
    assert_eq!(params.get(1), single(-1.0));
    assert_eq!(params.get(2), single(3.5));
    assert_eq!(params.to_vec(), values.to_vec());
}

#[test]
fn params_may_be_empty() {
    let params = Params::from_slice(&[]);
    assert_eq!(params.len(), 0);
    assert_eq!(params.to_vec(), Vec::<Single>::new());
}

#[test]
fn params_keep_more_values_than_fit_inline() {
    let values: Vec<Single> = (0..9).map(|i| single(i as f32)).collect();
    let params = Params::from_slice(&values);
    assert_eq!(params.len(), 9);
    assert_eq!(params.get(8), single(8.0));
    assert_eq!(params.to_vec(), values);
}

#[test]
fn a_cloned_params_holds_the_same_values() {
    let params = Params::from_slice(&[single(1.0), single(2.0)]);
    let copy = params.clone();
    assert_eq!(copy.to_vec(), vec![single(1.0), single(2.0)]);
    assert_eq!(copy, params);
}

#[test]
fn a_cloned_command_equals_the_command() {
    let command = Command::glMaterialfv(
        Enum::FRONT,
        Enum::SHININESS,
        Params::from_slice(&[single(50.0)]),
    );
    assert_eq!(command.clone(), command);
    let rotate = Command::glRotatef(single(90.0), single(0.0), single(0.0), single(1.0));
    assert_eq!(rotate.clone(), rotate);
    assert_ne!(rotate.clone(), translate(1.0, 0.0, 0.0));
}

#[test]
fn a_cloned_list_call_shares_the_list() {
    let list = Rc::new(DisplayList { cmds: vec![translate(1.0, 0.0, 0.0)] });
    let call = Command::glCallList(list.clone());
    let copy = call.clone();
    match (&call, &copy) {
        (Command::glCallList(a), Command::glCallList(b)) => {
            assert!(Rc::ptr_eq(a, b));
            assert!(Rc::ptr_eq(a, &list));
        }
        _ => panic!("a clone of a list call is a list call"),
    }
    assert_eq!(Rc::strong_count(&list), 3);
}

#[test]
fn material_parameters_have_their_lengths() {
    assert_eq!(material_param_count(Enum::AMBIENT), Some(4));
    assert_eq!(material_param_count(Enum::DIFFUSE), Some(4));
    assert_eq!(material_param_count(Enum::AMBIENT_AND_DIFFUSE), Some(4));
    assert_eq!(material_param_count(Enum::SPECULAR), Some(4));
    assert_eq!(material_param_count(Enum::EMISSION), Some(4));
    assert_eq!(material_param_count(Enum::SHININESS), Some(1));
    assert_eq!(material_param_count(Enum::COLOR_INDEXES), Some(3));
    assert_eq!(material_param_count(Enum::POSITION), None);
    assert_eq!(material_param_count(Enum::POINTS), None);
}

#[test]
fn light_parameters_have_their_lengths() {
    assert_eq!(light_param_count(Enum::AMBIENT), Some(4));
    assert_eq!(light_param_count(Enum::DIFFUSE), Some(4));
    assert_eq!(light_param_count(Enum::SPECULAR), Some(4));
    assert_eq!(light_param_count(Enum::POSITION), Some(4));
    assert_eq!(light_param_count(Enum::SPOT_DIRECTION), Some(3));
    assert_eq!(light_param_count(Enum::SPOT_EXPONENT), Some(1));
    assert_eq!(light_param_count(Enum::SPOT_CUTOFF), Some(1));
    assert_eq!(light_param_count(Enum::CONSTANT_ATTENUATION), Some(1));
    assert_eq!(light_param_count(Enum::LINEAR_ATTENUATION), Some(1));
    assert_eq!(light_param_count(Enum::QUADRATIC_ATTENUATION), Some(1));
    assert_eq!(light_param_count(Enum::SHININESS), None);
    assert_eq!(light_param_count(Enum::EMISSION), None);
}

#[test]
fn a_new_context_is_empty_and_executes() {
    let gl = Context::new();
    assert!(gl.pending_cmds.is_empty());
    assert_eq!(gl.first_unused_list, 1);
    assert!(gl.lists.is_empty());
    assert!(gl.compile_list.is_none());
    assert!(gl.execute_immediately);
    assert!(!gl.is_compiling());
    assert!(gl.is_wf());
}

#[test]
fn a_context_that_neither_compiles_nor_executes_is_not_well_formed() {
    let mut gl = Context::new();
    gl.execute_immediately = false;
    assert!(!gl.is_wf());
    glNewList(&mut gl, 1, 0x1300);
    assert!(gl.is_wf());
    assert!(!gl.execute_immediately);
    glEndList(&mut gl);
    assert!(gl.is_wf());
    assert!(gl.execute_immediately);
}

#[test]
fn a_command_submitted_outside_a_list_is_queued() {
    let mut gl = Context::new();
    translate(1.0, 2.0, 3.0).submit(&mut gl);
    Command::glEnd.submit(&mut gl);
    assert_eq!(gl.pending_cmds, vec![translate(1.0, 2.0, 3.0), Command::glEnd]);
    assert!(gl.compile_list.is_none());
}

#[test]
fn names_are_handed_out_consecutively_from_one() {
    let mut gl = Context::new();
    assert_eq!(glGenLists(&mut gl, 1), 1);
    assert_eq!(glGenLists(&mut gl, 3), 2);
    assert_eq!(glGenLists(&mut gl, 0), 5);
    assert_eq!(glGenLists(&mut gl, 1), 5);
    assert_eq!(gl.first_unused_list, 6);
    assert!(gl.lists.is_empty());
}

#[test]
fn names_cannot_be_handed_out_in_negative_number_or_beyond_the_last() {
    let mut gl = Context::new();
    assert!(can_gen_lists(&gl, 0));
    assert!(can_gen_lists(&gl, i32::MAX));
    assert!(!can_gen_lists(&gl, -1));
    assert!(!can_gen_lists(&gl, i32::MIN));
    gl.first_unused_list = u32::MAX - 2;
    assert!(can_gen_lists(&gl, 2));
    assert!(!can_gen_lists(&gl, 3));
    assert_eq!(glGenLists(&mut gl, 2), u32::MAX - 2);
    assert_eq!(gl.first_unused_list, u32::MAX);
}

#[test]
fn a_list_begins_only_in_a_list_mode_and_outside_a_list() {
    let mut gl = Context::new();
    assert!(can_new_list(&gl, 0x1300));
    assert!(can_new_list(&gl, 0x1301));
    assert!(!can_new_list(&gl, 0x1302));
    assert!(!can_new_list(&gl, 0));
    glNewList(&mut gl, 1, 0x1300);
    assert!(gl.is_compiling());
    assert!(!can_new_list(&gl, 0x1300));
    assert!(!can_new_list(&gl, 0x1301));
}

#[test]
fn a_compiled_list_is_replayed_by_a_single_queued_call() {
    let mut gl = Context::new();
    let name = glGenLists(&mut gl, 1);
    assert_eq!(name, 1);
    glNewList(&mut gl, 1, Enum::COMPILE.to_u32());
    assert!(!gl.execute_immediately);
    translate(1.0, 0.0, 0.0).submit(&mut gl);
    assert!(gl.pending_cmds.is_empty());
    glEndList(&mut gl);
    assert!(gl.pending_cmds.is_empty());
    assert!(gl.execute_immediately);
    assert!(gl.compile_list.is_none());
    glCallList(&mut gl, 1);
    assert_eq!(gl.pending_cmds.len(), 1);
    match &gl.pending_cmds[0] {
        Command::glCallList(list) => {
            assert_eq!(list.cmds, vec![translate(1.0, 0.0, 0.0)]);
            assert!(Rc::ptr_eq(list, &gl.lists[&1]));
        }
        other => panic!("expected a list call, found {:?}", other),
    }
}

#[test]
fn a_list_compiled_and_executed_queues_what_it_records() {
    let mut gl = Context::new();
    Command::glLoadIdentity.submit(&mut gl);
    glNewList(&mut gl, 7, Enum::COMPILE_AND_EXECUTE.to_u32());
    assert!(gl.execute_immediately);
    let recorded = vec![
        Command::glBegin(Enum::LINES),
        Command::glVertex3f(single(0.0), single(0.0), single(0.0)),
        Command::glVertex3f(single(1.0), single(1.0), single(0.0)),
        Command::glEnd,
    ];
    for command in recorded.iter() {
        command.clone().submit(&mut gl);
        match &gl.compile_list {
            Some((name, list)) => {
                assert_eq!(*name, 7);
                assert_eq!(list.cmds[..], gl.pending_cmds[1..]);
            }
            None => panic!("the list is being compiled"),
        }
    }
    glEndList(&mut gl);
    assert_eq!(gl.lists[&7].cmds, recorded);
    assert_eq!(gl.pending_cmds[0], Command::glLoadIdentity);
    assert_eq!(gl.pending_cmds[1..], recorded[..]);
}

#[test]
fn sealing_a_list_replaces_the_list_of_that_name() {
    let mut gl = Context::new();
    glNewList(&mut gl, 2, 0x1300);
    translate(1.0, 0.0, 0.0).submit(&mut gl);
    glEndList(&mut gl);
    glNewList(&mut gl, 3, 0x1300);
    glEndList(&mut gl);
    glNewList(&mut gl, 2, 0x1300);
    Command::glPushMatrix.submit(&mut gl);
    Command::glPopMatrix.submit(&mut gl);
    glEndList(&mut gl);
    assert_eq!(gl.lists.len(), 2);
    assert_eq!(gl.lists[&2].cmds, vec![Command::glPushMatrix, Command::glPopMatrix]);
    assert!(gl.lists[&3].cmds.is_empty());
}

#[test]
fn a_list_is_found_by_its_name_once_it_is_sealed() {
    let mut gl = Context::new();
    assert!(gl.lookup(1).is_none());
    glNewList(&mut gl, 1, 0x1300);
    Command::glEnd.submit(&mut gl);
    assert!(gl.lookup(1).is_none());
    glEndList(&mut gl);
    let found = gl.lookup(1).expect("the list was sealed");
    assert_eq!(found.cmds, vec![Command::glEnd]);
    assert!(Rc::ptr_eq(&found, &gl.lists[&1]));
    assert!(gl.lookup(2).is_none());
}

#[test]
fn a_list_may_call_a_list_sealed_before_it() {
    let mut gl = Context::new();
    glNewList(&mut gl, 1, 0x1300);
    translate(0.0, 1.0, 0.0).submit(&mut gl);
    glEndList(&mut gl);
    glNewList(&mut gl, 2, 0x1300);
    glCallList(&mut gl, 1);
    glCallList(&mut gl, 1);
    glEndList(&mut gl);
    assert!(gl.pending_cmds.is_empty());
    let outer = &gl.lists[&2];
    assert_eq!(outer.cmds.len(), 2);
    for command in outer.cmds.iter() {
        match command {
            Command::glCallList(inner) => assert!(Rc::ptr_eq(inner, &gl.lists[&1])),
            other => panic!("expected a list call, found {:?}", other),
        }
    }
}
