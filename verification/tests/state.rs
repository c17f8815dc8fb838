use glam::{DMat4, DVec3, DVec4, Mat4, Vec3};
use gloof::gl::api_1_0::{glCallList, glEndList, glNewList, Command, Double, Single};
use gloof::gl::constants::Enum;
use gloof::gl::state::{Forwarded, Matrix, MatrixMode, Probe, State, Transform, ONE};
use gloof::gl::{Context, DisplayList};
use std::rc::Rc;

fn single(value: f32) -> Single {
    Single { bits: value.to_bits() }
}

fn double(value: f64) -> Double {
    Double { bits: value.to_bits() }
}

fn to_glam(m: Matrix) -> Mat4 {
    let mut cells = [0.0f32; 16];
    let columns = [m.x_axis, m.y_axis, m.z_axis, m.w_axis];
    for (c, column) in columns.iter().enumerate() {
        for (r, bits) in column.to_bits().iter().enumerate() {
            cells[4 * c + r] = f32::from_bits(*bits);
        }
    }
    Mat4::from_cols_array(&cells)
}

fn from_glam(m: Mat4) -> Matrix {
    let cells = m.to_cols_array();
    let column = |c: usize| {
        [
            cells[4 * c].to_bits(),
            cells[4 * c + 1].to_bits(),
            cells[4 * c + 2].to_bits(),
            cells[4 * c + 3].to_bits(),
        ]
    };
    Matrix::from_bits(column(0), column(1), column(2), column(3))
}

fn operand(t: Transform) -> DMat4 {
    match t {
        Transform::TranslateDouble(x, y, z) => DMat4::from_translation(DVec3::new(
            f64::from_bits(x.bits),
            f64::from_bits(y.bits),
            f64::from_bits(z.bits),
        )),
        Transform::Frustum(l, r, b, t, n, f) => {
            let (l, r, b) = (f64::from_bits(l.bits), f64::from_bits(r.bits), f64::from_bits(b.bits));
            let (t, n, f) = (f64::from_bits(t.bits), f64::from_bits(n.bits), f64::from_bits(f.bits));
            DMat4::from_cols(
                DVec4::new(2.0 * n / (r - l), 0.0, 0.0, 0.0),
                DVec4::new(0.0, 2.0 * n / (t - b), 0.0, 0.0),
                DVec4::new((r + l) / (r - l), (t + b) / (t - b), -(f + n) / (f - n), -1.0),
                DVec4::new(0.0, 0.0, -(2.0 * f * n) / (f - n), 0.0),
            )
        }
        _ => unreachable!("a single-precision transform has no double-precision operand"),
    }
}

fn compose(m: Matrix, t: Transform) -> Matrix {
    let current = to_glam(m);
    let product = match t {
        Transform::Rotate(angle, x, y, z) => current.mul_mat4(&Mat4::from_axis_angle(
            Vec3::new(f32::from_bits(x.bits), f32::from_bits(y.bits), f32::from_bits(z.bits)),
            f32::from_bits(angle.bits) / 180.0 * std::f32::consts::PI,
        )),
        Transform::Translate(x, y, z) => current.mul_mat4(&Mat4::from_translation(Vec3::new(
            f32::from_bits(x.bits),
            f32::from_bits(y.bits),
            f32::from_bits(z.bits),
        ))),
        double => current.as_dmat4().mul_mat4(&operand(double)).as_mat4(),
    };
    from_glam(product)
}

fn translate(x: f32, y: f32, z: f32) -> Command {
    Command::glTranslatef(single(x), single(y), single(z))
}

fn rotate(angle: f32, x: f32, y: f32, z: f32) -> Command {
    Command::glRotatef(single(angle), single(x), single(y), single(z))
}

fn vertex(x: f32, y: f32, z: f32) -> Command {
    Command::glVertex3f(single(x), single(y), single(z))
}

fn list(cmds: Vec<Command>) -> Command {
    Command::glCallList(Rc::new(DisplayList { cmds }))
}

fn apply_all(state: &mut State, cmds: &[Command]) -> Vec<Forwarded> {
    let mut unhandled = Vec::new();
    for cmd in cmds {
        assert!(state.admits(cmd));
        state.apply(cmd.clone(), &compose, &mut unhandled);
    }
    unhandled
}

#[test]
fn the_identity_has_ones_on_the_diagonal() {
    assert_eq!(ONE, 1.0f32.to_bits());
    assert_eq!(to_glam(Matrix::identity()), Mat4::IDENTITY);
    assert_eq!(Matrix::identity(), from_glam(Mat4::IDENTITY));
}

#[test]
fn a_matrix_is_made_of_its_columns() {
    let m = Matrix::from_bits([1, 2, 3, 4], [5, 6, 7, 8], [9, 10, 11, 12], [13, 14, 15, 16]);
    assert_eq!(m.x_axis.to_bits(), [1, 2, 3, 4]);
    assert_eq!(m.y_axis.to_bits(), [5, 6, 7, 8]);
    assert_eq!(m.z_axis.to_bits(), [9, 10, 11, 12]);
    assert_eq!(m.w_axis.to_bits(), [13, 14, 15, 16]);
    assert_eq!(m.w_axis.x.bits, 13);
    assert_eq!(m.y_axis.z.bits, 7);
}

#[test]
fn a_new_state_holds_two_identities_and_selects_the_modelview_stack() {
    let state = State::default();
    assert_eq!(state.modelview.mat, Matrix::identity());
    assert_eq!(state.projection.mat, Matrix::identity());
    assert!(state.modelview.stack.is_empty());
    assert!(state.projection.stack.is_empty());
    assert_eq!(state.matrix_mode, MatrixMode::ModelView);
    assert_eq!(MatrixMode::default(), MatrixMode::ModelView);
    assert_eq!(state.matrix(), Matrix::identity());
}

#[test]
fn a_translation_moves_the_origin() {
    let mut state = State::default();
    let unhandled = apply_all(&mut state, &[translate(1.0, 0.0, 0.0)]);
    assert!(unhandled.is_empty());
    let m = state.modelview.mat;
    assert_eq!(m.w_axis.to_bits(), [1.0f32.to_bits(), 0, 0, 1.0f32.to_bits()]);
    assert_eq!(m.x_axis, Matrix::identity().x_axis);
    assert_eq!(m.y_axis, Matrix::identity().y_axis);
    assert_eq!(m.z_axis, Matrix::identity().z_axis);
    assert_eq!(state.projection.mat, Matrix::identity());
}

#[test]
fn transforms_are_multiplied_from_the_right() {
    let mut state = State::default();
    apply_all(&mut state, &[rotate(90.0, 0.0, 0.0, 1.0), translate(1.0, 0.0, 0.0)]);
    let expected = Mat4::IDENTITY
        .mul_mat4(&Mat4::from_axis_angle(
            Vec3::new(0.0, 0.0, 1.0),
            90.0 / 180.0 * std::f32::consts::PI,
        ))
        .mul_mat4(&Mat4::from_translation(Vec3::new(1.0, 0.0, 0.0)));
    assert_eq!(to_glam(state.modelview.mat), expected);
    let moved = to_glam(state.modelview.mat).transform_point3(Vec3::ZERO);
    assert!((moved - Vec3::new(0.0, 1.0, 0.0)).length() < 1e-6);
}

#[test]
fn a_frustum_is_composed_in_double_precision() {
    let mut state = State::default();
    let cmds = [
        Command::glMatrixMode(Enum::PROJECTION),
        Command::glFrustum(
            double(-1.0),
            double(1.0),
            double(-0.5),
            double(0.5),
            double(5.0),
            double(60.0),
        ),
    ];
    apply_all(&mut state, &cmds);
    let m = to_glam(state.projection.mat).to_cols_array();
    assert_eq!(m[0], 5.0);
    assert_eq!(m[5], 10.0);
    assert_eq!(m[8], 0.0);
    assert_eq!(m[9], 0.0);
    assert_eq!(m[10], (-65.0f64 / 55.0) as f32);
    assert_eq!(m[11], -1.0);
    assert_eq!(m[14], (-600.0f64 / 55.0) as f32);
    assert_eq!(m[15], 0.0);
    assert_eq!(state.modelview.mat, Matrix::identity());
    assert_eq!(state.matrix(), state.projection.mat);
}

#[test]
fn a_double_precision_translation_is_rounded_once() {
    let mut state = State::default();
    let third = 1.0f64 / 3.0;
    apply_all(
        &mut state,
        &[Command::glTranslated(double(third), double(2.0), double(-4.0))],
    );
    let m = to_glam(state.modelview.mat).to_cols_array();
    assert_eq!(m[12], third as f32);
    assert_eq!(m[13], 2.0);
    assert_eq!(m[14], -4.0);
    assert_eq!(m[15], 1.0);
}

#[test]
fn the_matrix_mode_selects_the_stack() {
    let mut state = State::default();
    apply_all(
        &mut state,
        &[
            Command::glMatrixMode(Enum::PROJECTION),
            translate(0.0, 2.0, 0.0),
            Command::glPushMatrix,
            Command::glMatrixMode(Enum::MODELVIEW),
            translate(3.0, 0.0, 0.0),
        ],
    );
    assert_eq!(state.matrix_mode, MatrixMode::ModelView);
    assert_eq!(to_glam(state.projection.mat), Mat4::from_translation(Vec3::new(0.0, 2.0, 0.0)));
    assert_eq!(to_glam(state.modelview.mat), Mat4::from_translation(Vec3::new(3.0, 0.0, 0.0)));
    assert_eq!(state.projection.stack.len(), 1);
    assert_eq!(state.modelview.stack.len(), 0);
}

#[test]
fn a_matrix_mode_that_names_no_stack_is_not_admitted() {
    let state = State::default();
    assert!(state.admits(&Command::glMatrixMode(Enum::MODELVIEW)));
    assert!(state.admits(&Command::glMatrixMode(Enum::PROJECTION)));
    assert!(!state.admits(&Command::glMatrixMode(Enum::TEXTURE)));
    assert!(!state.admits(&Command::glMatrixMode(Enum::POINTS)));
    assert!(!state.admits(&list(vec![
        Command::glLoadIdentity,
        Command::glMatrixMode(Enum::COLOR),
    ])));
}

#[test]
fn push_mutate_pop_restores_the_matrix_exactly() {
    let mut state = State::default();
    apply_all(&mut state, &[rotate(33.0, 0.3, 0.5, 0.8), translate(0.1, 0.2, 0.3)]);
    let before = state.modelview.mat;
    let saved_before = state.modelview.stack.clone();
    let projection_before = state.projection.mat;
    apply_all(
        &mut state,
        &[
            Command::glPushMatrix,
            Command::glLoadIdentity,
            translate(1.0, 0.0, 0.0),
            rotate(12.5, 1.0, 0.0, 0.0),
            Command::glFrustum(
                double(-1.0),
                double(1.0),
                double(-1.0),
                double(1.0),
                double(1.0),
                double(10.0),
            ),
            vertex(1.0, 1.0, 1.0),
        ],
    );
    assert_ne!(state.modelview.mat, before);
    assert_eq!(state.modelview.stack.len(), 1);
    apply_all(&mut state, &[Command::glPopMatrix]);
    assert_eq!(state.modelview.mat, before);
    assert_eq!(state.modelview.stack, saved_before);
    assert_eq!(state.projection.mat, projection_before);
    assert_eq!(state.matrix_mode, MatrixMode::ModelView);
}

#[test]
fn a_pop_on_an_empty_stack_is_not_admitted_and_changes_nothing() {
    let mut state = State::default();
    apply_all(
        &mut state,
        &[
            Command::glPushMatrix,
            Command::glLoadIdentity,
            translate(1.0, 0.0, 0.0),
            Command::glPopMatrix,
        ],
    );
    let matrix = state.modelview.mat;
    assert_eq!(matrix, Matrix::identity());
    assert!(state.modelview.stack.is_empty());
    assert!(!state.admits(&Command::glPopMatrix));
    assert_eq!(state.probe().advance(&Command::glPopMatrix), None);
    assert_eq!(state.modelview.mat, matrix);
    assert_eq!(state, State::default());
}

#[test]
fn a_pop_needs_a_matrix_on_the_selected_stack() {
    let mut state = State::default();
    apply_all(&mut state, &[Command::glPushMatrix, Command::glMatrixMode(Enum::PROJECTION)]);
    assert!(!state.admits(&Command::glPopMatrix));
    assert!(state.admits(&list(vec![
        Command::glMatrixMode(Enum::MODELVIEW),
        Command::glPopMatrix,
    ])));
    assert!(!state.admits(&list(vec![
        Command::glMatrixMode(Enum::MODELVIEW),
        Command::glPopMatrix,
        Command::glPopMatrix,
    ])));
    assert!(state.admits(&list(vec![
        Command::glPushMatrix,
        list(vec![Command::glPopMatrix]),
    ])));
}

#[test]
fn a_dry_run_tracks_the_depths_and_the_mode() {
    let start = State::default().probe();
    assert_eq!(
        start,
        Probe { mode: MatrixMode::ModelView, modelview_depth: 0, projection_depth: 0 }
    );
    let script = list(vec![
        Command::glPushMatrix,
        Command::glPushMatrix,
        Command::glMatrixMode(Enum::PROJECTION),
        Command::glPushMatrix,
        list(vec![Command::glPopMatrix, Command::glMatrixMode(Enum::MODELVIEW)]),
        Command::glPopMatrix,
        vertex(0.0, 0.0, 0.0),
    ]);
    assert_eq!(
        start.advance(&script),
        Some(Probe { mode: MatrixMode::ModelView, modelview_depth: 1, projection_depth: 0 })
    );
    let full = Probe {
        mode: MatrixMode::Projection,
        modelview_depth: 0,
        projection_depth: usize::MAX,
    };
    assert_eq!(full.advance(&Command::glPushMatrix), None);
    assert_eq!(
        full.advance(&Command::glPopMatrix),
        Some(Probe { projection_depth: usize::MAX - 1, ..full })
    );
}

#[test]
fn what_is_not_handled_is_handed_on_with_the_matrices_of_the_moment() {
    let mut state = State::default();
    let cmds = [
        Command::glClear(0x4100),
        Command::glBegin(Enum::LINE_STRIP),
        vertex(0.0, 0.0, 0.0),
        translate(1.0, 0.0, 0.0),
        vertex(0.0, 0.0, 0.0),
        Command::glMatrixMode(Enum::PROJECTION),
        translate(0.0, 5.0, 0.0),
        Command::glNormal3f(single(0.0), single(0.0), single(1.0)),
        Command::glEnd,
    ];
    let unhandled = apply_all(&mut state, &cmds);
    let moved = from_glam(Mat4::from_translation(Vec3::new(1.0, 0.0, 0.0)));
    let lifted = from_glam(Mat4::from_translation(Vec3::new(0.0, 5.0, 0.0)));
    let id = Matrix::identity();
    let expected = vec![
        Forwarded { cmd: Command::glClear(0x4100), modelview: id, projection: id },
        Forwarded { cmd: Command::glBegin(Enum::LINE_STRIP), modelview: id, projection: id },
        Forwarded { cmd: vertex(0.0, 0.0, 0.0), modelview: id, projection: id },
        Forwarded { cmd: vertex(0.0, 0.0, 0.0), modelview: moved, projection: id },
        Forwarded {
            cmd: Command::glNormal3f(single(0.0), single(0.0), single(1.0)),
            modelview: moved,
            projection: lifted,
        },
        Forwarded { cmd: Command::glEnd, modelview: moved, projection: lifted },
    ];
    assert_eq!(unhandled, expected);
}

#[test]
fn apply_appends_to_what_was_handed_on_before() {
    let mut state = State::default();
    let id = Matrix::identity();
    let mut unhandled = vec![Forwarded { cmd: Command::glEnd, modelview: id, projection: id }];
    state.apply(Command::glLoadIdentity, &compose, &mut unhandled);
    assert_eq!(unhandled.len(), 1);
    state.apply(Command::glEnable(Enum::LIGHTING), &compose, &mut unhandled);
    assert_eq!(
        unhandled,
        vec![
            Forwarded { cmd: Command::glEnd, modelview: id, projection: id },
            Forwarded { cmd: Command::glEnable(Enum::LIGHTING), modelview: id, projection: id },
        ]
    );
}

#[test]
fn a_called_list_does_what_its_commands_do() {
    let body = vec![
        Command::glPushMatrix,
        rotate(45.0, 0.0, 1.0, 0.0),
        vertex(1.0, 0.0, 0.0),
        list(vec![
            translate(0.0, 0.0, -2.0),
            vertex(0.0, 1.0, 0.0),
            list(vec![Command::glMatrixMode(Enum::PROJECTION), Command::glLoadIdentity]),
            Command::glEnable(Enum::DEPTH_TEST),
        ]),
        Command::glMatrixMode(Enum::MODELVIEW),
        vertex(0.0, 0.0, 1.0),
        Command::glPopMatrix,
        translate(4.0, 0.0, 0.0),
    ];
    let flat = vec![
        Command::glPushMatrix,
        rotate(45.0, 0.0, 1.0, 0.0),
        vertex(1.0, 0.0, 0.0),
        translate(0.0, 0.0, -2.0),
        vertex(0.0, 1.0, 0.0),
        Command::glMatrixMode(Enum::PROJECTION),
        Command::glLoadIdentity,
        Command::glEnable(Enum::DEPTH_TEST),
        Command::glMatrixMode(Enum::MODELVIEW),
        vertex(0.0, 0.0, 1.0),
        Command::glPopMatrix,
        translate(4.0, 0.0, 0.0),
    ];
    let prepare = [
        translate(0.5, 0.5, 0.5),
        Command::glMatrixMode(Enum::PROJECTION),
        rotate(10.0, 1.0, 0.0, 0.0),
        Command::glMatrixMode(Enum::MODELVIEW),
    ];

    let mut called = State::default();
    apply_all(&mut called, &prepare);
    let from_call = apply_all(&mut called, &[list(body.clone())]);

    let mut direct = State::default();
    apply_all(&mut direct, &prepare);
    let from_direct = apply_all(&mut direct, &body);

    let mut flattened = State::default();
    apply_all(&mut flattened, &prepare);
    let from_flat = apply_all(&mut flattened, &flat);

    assert_eq!(called, direct);
    assert_eq!(from_call, from_direct);
    assert_eq!(called, flattened);
    assert_eq!(from_call, from_flat);
    assert_eq!(from_call.len(), 4);
}

#[test]
fn an_empty_list_does_nothing() {
    let mut state = State::default();
    apply_all(&mut state, &[translate(1.0, 2.0, 3.0), Command::glPushMatrix]);
    let mut unhandled = Vec::new();
    state.apply(list(vec![]), &compose, &mut unhandled);
    assert!(unhandled.is_empty());
    let mut same = State::default();
    apply_all(&mut same, &[translate(1.0, 2.0, 3.0), Command::glPushMatrix]);
    assert_eq!(state, same);
}

#[test]
fn flushing_interprets_what_is_pending_in_order_and_leaves_nothing() {
    let mut gl = Context::new();
    glNewList(&mut gl, 1, 0x1300);
    translate(1.0, 0.0, 0.0).submit(&mut gl);
    vertex(0.0, 0.0, 0.0).submit(&mut gl);
    glEndList(&mut gl);
    vertex(0.0, 0.0, 0.0).submit(&mut gl);
    glCallList(&mut gl, 1);
    glCallList(&mut gl, 1);
    assert!(gl.can_flush());
    let unhandled = gl.flush(&compose);
    assert!(gl.pending_cmds.is_empty());
    let id = Matrix::identity();
    let once = from_glam(Mat4::from_translation(Vec3::new(1.0, 0.0, 0.0)));
    let twice = from_glam(Mat4::from_translation(Vec3::new(2.0, 0.0, 0.0)));
    assert_eq!(
        unhandled,
        vec![
            Forwarded { cmd: vertex(0.0, 0.0, 0.0), modelview: id, projection: id },
            Forwarded { cmd: vertex(0.0, 0.0, 0.0), modelview: once, projection: id },
            Forwarded { cmd: vertex(0.0, 0.0, 0.0), modelview: twice, projection: id },
        ]
    );
    assert_eq!(gl.state.modelview.mat, twice);
    assert_eq!(gl.lists.len(), 1);
    assert_eq!(gl.first_unused_list, 1);
    assert!(gl.can_flush());
    assert!(gl.flush(&compose).is_empty());
    assert_eq!(gl.state.modelview.mat, twice);
}

#[test]
fn calling_a_list_compiled_without_execution_translates_once() {
    let mut gl = Context::new();
    let name = gloof::gl::api_1_0::glGenLists(&mut gl, 1);
    assert_eq!(name, 1);
    glNewList(&mut gl, name, Enum::COMPILE.to_u32());
    translate(1.0, 0.0, 0.0).submit(&mut gl);
    glEndList(&mut gl);
    assert!(gl.pending_cmds.is_empty());
    assert!(gl.can_flush());
    assert!(gl.flush(&compose).is_empty());
    assert_eq!(gl.state.modelview.mat, Matrix::identity());
    glCallList(&mut gl, name);
    assert_eq!(gl.pending_cmds.len(), 1);
    assert!(gl.flush(&compose).is_empty());
    assert_eq!(
        to_glam(gl.state.modelview.mat),
        Mat4::from_translation(Vec3::new(1.0, 0.0, 0.0))
    );
    assert!(gl.pending_cmds.is_empty());
}

#[test]
fn the_matrices_stay_between_one_flush_and_the_next() {
    let mut gl = Context::new();
    Command::glPushMatrix.submit(&mut gl);
    translate(0.0, 1.0, 0.0).submit(&mut gl);
    gl.flush(&compose);
    assert_eq!(gl.state.modelview.stack.len(), 1);
    Command::glPopMatrix.submit(&mut gl);
    assert!(gl.can_flush());
    gl.flush(&compose);
    assert_eq!(gl.state.modelview.mat, Matrix::identity());
    assert!(gl.state.modelview.stack.is_empty());
}

#[test]
fn pending_commands_that_cannot_be_applied_cannot_be_flushed() {
    let mut gl = Context::new();
    Command::glPushMatrix.submit(&mut gl);
    Command::glPopMatrix.submit(&mut gl);
    assert!(gl.can_flush());
    Command::glPopMatrix.submit(&mut gl);
    assert!(!gl.can_flush());
    assert_eq!(gl.pending_cmds.len(), 3);
    assert_eq!(gl.state, State::default());
}
