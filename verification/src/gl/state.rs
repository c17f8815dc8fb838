use crate::gl::api_1_0::{Command, Double, Single};
use crate::gl::constants::Enum;
use vstd::prelude::*;

verus! {

/// Four single-precision numbers: one column of a matrix.
#[derive(Copy, Clone, Debug, PartialEq, Eq, Structural)]
pub struct Column {
    pub x: Single,
    pub y: Single,
    pub z: Single,
    pub w: Single,
}

/// A 4×4 matrix of single-precision numbers, stored by columns.
#[derive(Copy, Clone, Debug, PartialEq, Eq, Structural)]
pub struct Matrix {
    pub x_axis: Column,
    pub y_axis: Column,
    pub z_axis: Column,
    pub w_axis: Column,
}

/// The bit pattern of the single-precision number one.
pub const ONE: u32 = 0x3F80_0000;

impl Column {
    /// The four bit patterns of the column, `x` first.
    pub open spec fn to_bits_spec(self) -> Seq<u32> {
        seq![self.x.bits, self.y.bits, self.z.bits, self.w.bits]
    }

    /// The column of four bit patterns, `x` first.
    pub fn from_bits(bits: [u32; 4]) -> (column: Column)
        ensures
            column.to_bits_spec() == bits@,
    {
        proof {
            assert(seq![bits[0], bits[1], bits[2], bits[3]] =~= bits@);
        }
        Column {
            x: Single { bits: bits[0] },
            y: Single { bits: bits[1] },
            z: Single { bits: bits[2] },
            w: Single { bits: bits[3] },
        }
    }

    /// The four bit patterns of the column, `x` first.
    pub fn to_bits(self) -> (bits: [u32; 4])
        ensures
            bits@ == self.to_bits_spec(),
    {
        let bits = [self.x.bits, self.y.bits, self.z.bits, self.w.bits];
        proof {
            assert(bits@ =~= self.to_bits_spec());
        }
        bits
    }
}

impl Matrix {
    /// The matrix of four columns, given by their bit patterns.
    pub fn from_bits(x_axis: [u32; 4], y_axis: [u32; 4], z_axis: [u32; 4], w_axis: [u32; 4]) -> (m:
        Matrix)
        ensures
            m.x_axis.to_bits_spec() == x_axis@,
            m.y_axis.to_bits_spec() == y_axis@,
            m.z_axis.to_bits_spec() == z_axis@,
            m.w_axis.to_bits_spec() == w_axis@,
    {
        let m = Matrix {
            x_axis: Column::from_bits(x_axis),
            y_axis: Column::from_bits(y_axis),
            z_axis: Column::from_bits(z_axis),
            w_axis: Column::from_bits(w_axis),
        };
        proof {
            assert(m.x_axis.to_bits_spec() =~= x_axis@);
            assert(m.y_axis.to_bits_spec() =~= y_axis@);
            assert(m.z_axis.to_bits_spec() =~= z_axis@);
            assert(m.w_axis.to_bits_spec() =~= w_axis@);
        }
        m
    }

    /// The identity: one on the diagonal, zero elsewhere.
    pub open spec fn identity_spec() -> Matrix {
        let o = Single { bits: ONE };
        let z = Single { bits: 0 };
        Matrix {
            x_axis: Column { x: o, y: z, z: z, w: z },
            y_axis: Column { x: z, y: o, z: z, w: z },
            z_axis: Column { x: z, y: z, z: o, w: z },
            w_axis: Column { x: z, y: z, z: z, w: o },
        }
    }

    /// The identity matrix.
    pub fn identity() -> (m: Matrix)
        ensures
            m == Matrix::identity_spec(),
    {
        let o = Single { bits: ONE };
        let z = Single { bits: 0 };
        Matrix {
            x_axis: Column { x: o, y: z, z: z, w: z },
            y_axis: Column { x: z, y: o, z: z, w: z },
            z_axis: Column { x: z, y: z, z: o, w: z },
            w_axis: Column { x: z, y: z, z: z, w: o },
        }
    }
}

/// A matrix given in closed form by the arguments of the call that asks for
/// it. The current matrix is multiplied by it from the right.
#[derive(Copy, Clone, Debug, PartialEq, Eq, Structural)]
pub enum Transform {
    /// A rotation by an angle in degrees about an axis: `(angle, x, y, z)`.
    Rotate(Single, Single, Single, Single),
    /// A translation by `(x, y, z)`.
    Translate(Single, Single, Single),
    /// A translation by `(x, y, z)`, composed in double precision.
    TranslateDouble(Double, Double, Double),
    /// A perspective projection, composed in double precision:
    /// `(left, right, bottom, top, near, far)`.
    Frustum(Double, Double, Double, Double, Double, Double),
}

/// Which of the two stacks the matrix commands work on.
#[derive(Copy, Clone, Debug, PartialEq, Eq, Structural)]
pub enum MatrixMode {
    ModelView,
    Projection,
}

impl Default for MatrixMode {
    fn default() -> (mode: Self)
        ensures
            mode == MatrixMode::ModelView,
    {
        MatrixMode::ModelView
    }
}

/// A current matrix and the matrices saved below it.
#[derive(Debug, PartialEq)]
pub struct MatrixStack {
    pub mat: Matrix,
    pub stack: Vec<Matrix>,
}

/// The mathematical content of a `MatrixStack`.
pub struct StackModel {
    pub mat: Matrix,
    pub stack: Seq<Matrix>,
}

impl StackModel {
    /// The stack after the current matrix was saved.
    pub open spec fn pushed(self) -> StackModel {
        StackModel { mat: self.mat, stack: self.stack.push(self.mat) }
    }

    /// The stack after the matrix saved last was restored.
    pub open spec fn popped(self) -> StackModel
        recommends
            self.stack.len() > 0,
    {
        StackModel { mat: self.stack.last(), stack: self.stack.drop_last() }
    }

    /// The stack with another current matrix.
    pub open spec fn with_mat(self, mat: Matrix) -> StackModel {
        StackModel { mat, stack: self.stack }
    }
}

impl View for MatrixStack {
    type V = StackModel;

    open spec fn view(&self) -> StackModel {
        StackModel { mat: self.mat, stack: self.stack@ }
    }
}

impl Default for MatrixStack {
    /// The identity with nothing saved below it.
    fn default() -> (s: Self)
        ensures
            s@ == (StackModel { mat: Matrix::identity_spec(), stack: Seq::empty() }),
    {
        MatrixStack { mat: Matrix::identity(), stack: Vec::new() }
    }
}

impl MatrixStack {
    /// Saves the current matrix.
    pub fn push(&mut self)
        ensures
            final(self)@ == old(self)@.pushed(),
    {
        self.stack.push(self.mat);
    }

    /// Restores the matrix saved last.
    pub fn pop(&mut self)
        requires
            old(self).stack@.len() > 0,
        ensures
            final(self)@ == old(self)@.popped(),
    {
        let saved = self.stack.pop();
        match saved {
            Some(mat) => {
                self.mat = mat;
            },
            None => {},
        }
    }
}

/// The matrix stacks and the selector of the one that matrix commands
/// work on.
#[derive(Debug, PartialEq)]
pub struct State {
    pub modelview: MatrixStack,
    pub projection: MatrixStack,
    pub matrix_mode: MatrixMode,
}

/// A command that the interpreter does not handle itself, with the two
/// current matrices at the moment it was met.
#[derive(Debug, PartialEq)]
pub struct Forwarded {
    pub cmd: Command,
    pub modelview: Matrix,
    pub projection: Matrix,
}

/// How a matrix is multiplied from the right by a transform.
pub type Product = spec_fn(Matrix, Transform) -> Matrix;

/// One multiplication that the interpreter asks for: the current matrix of
/// the moment and the transform to multiply it by.
pub struct Multiplication {
    pub matrix: Matrix,
    pub transform: Transform,
}

/// The mathematical content of a `State`.
pub struct StateModel {
    pub modelview: StackModel,
    pub projection: StackModel,
    pub mode: MatrixMode,
}

/// The transform that a command multiplies the current matrix by, if it is
/// such a command.
pub open spec fn transform_of(cmd: Command) -> Option<Transform> {
    match cmd {
        Command::glRotatef(angle, x, y, z) => Some(Transform::Rotate(angle, x, y, z)),
        Command::glTranslatef(x, y, z) => Some(Transform::Translate(x, y, z)),
        Command::glTranslated(x, y, z) => Some(Transform::TranslateDouble(x, y, z)),
        Command::glFrustum(left, right, bottom, top, near, far) => Some(
            Transform::Frustum(left, right, bottom, top, near, far),
        ),
        _ => None,
    }
}

/// The stack that a matrix-mode argument selects, if it names one.
pub open spec fn mode_of(mode: Enum) -> Option<MatrixMode> {
    match mode {
        Enum::MODELVIEW => Some(MatrixMode::ModelView),
        Enum::PROJECTION => Some(MatrixMode::Projection),
        _ => None,
    }
}

/// Whether the interpreter hands the command on instead of acting on it.
pub open spec fn is_forwarded(cmd: Command) -> bool {
    match cmd {
        Command::glCallList(_) => false,
        Command::glMatrixMode(_) => false,
        Command::glPushMatrix => false,
        Command::glPopMatrix => false,
        Command::glLoadIdentity => false,
        _ => transform_of(cmd) is None,
    }
}

impl StateModel {
    /// The stack that matrix commands work on.
    pub open spec fn active(self) -> StackModel {
        match self.mode {
            MatrixMode::ModelView => self.modelview,
            MatrixMode::Projection => self.projection,
        }
    }

    /// The state with another stack in place of the active one.
    pub open spec fn with_active(self, stack: StackModel) -> StateModel {
        match self.mode {
            MatrixMode::ModelView => StateModel { modelview: stack, ..self },
            MatrixMode::Projection => StateModel { projection: stack, ..self },
        }
    }

    /// The state after one command that is no list call.
    pub open spec fn after_one(self, cmd: Command, product: Product) -> StateModel {
        match cmd {
            Command::glMatrixMode(mode) => match mode_of(mode) {
                Some(m) => StateModel { mode: m, ..self },
                None => self,
            },
            Command::glPushMatrix => self.with_active(self.active().pushed()),
            Command::glPopMatrix => self.with_active(self.active().popped()),
            Command::glLoadIdentity => self.with_active(
                self.active().with_mat(Matrix::identity_spec()),
            ),
            _ => match transform_of(cmd) {
                Some(t) => self.with_active(
                    self.active().with_mat(product(self.active().mat, t)),
                ),
                None => self,
            },
        }
    }

    /// The multiplication that one command that is no list call asks for.
    pub open spec fn composes_one(self, cmd: Command) -> Seq<Multiplication> {
        match transform_of(cmd) {
            Some(transform) => seq![Multiplication { matrix: self.active().mat, transform }],
            None => Seq::empty(),
        }
    }

    /// What one command that is no list call hands on.
    pub open spec fn forwards_one(self, cmd: Command) -> Seq<Forwarded> {
        if is_forwarded(cmd) {
            seq![Forwarded { cmd, modelview: self.modelview.mat, projection: self.projection.mat }]
        } else {
            Seq::empty()
        }
    }

    /// The state after the command: after a list call, the state after the
    /// list's commands in order.
    pub open spec fn after(self, cmd: Command, product: Product) -> StateModel
        decreases cmd,
    {
        match cmd {
            Command::glCallList(list) => self.after_all(list.cmds@, product),
            _ => self.after_one(cmd, product),
        }
    }

    /// The state after the commands, applied in order.
    pub open spec fn after_all(self, cmds: Seq<Command>, product: Product) -> StateModel
        decreases cmds,
    {
        if cmds.len() == 0 {
            self
        } else {
            self.after(cmds[0], product).after_all(cmds.skip(1), product)
        }
    }

    /// The multiplications that applying the command asks for, in order.
    pub open spec fn composes(self, cmd: Command, product: Product) -> Seq<Multiplication>
        decreases cmd,
    {
        match cmd {
            Command::glCallList(list) => self.composes_all(list.cmds@, product),
            _ => self.composes_one(cmd),
        }
    }

    /// The multiplications that applying the commands in order asks for.
    pub open spec fn composes_all(self, cmds: Seq<Command>, product: Product) -> Seq<
        Multiplication,
    >
        decreases cmds,
    {
        if cmds.len() == 0 {
            Seq::empty()
        } else {
            self.composes(cmds[0], product) + self.after(cmds[0], product).composes_all(
                cmds.skip(1),
                product,
            )
        }
    }

    /// What applying the command hands on, in order.
    pub open spec fn forwards(self, cmd: Command, product: Product) -> Seq<Forwarded>
        decreases cmd,
    {
        match cmd {
            Command::glCallList(list) => self.forwards_all(list.cmds@, product),
            _ => self.forwards_one(cmd),
        }
    }

    /// What applying the commands in order hands on.
    pub open spec fn forwards_all(self, cmds: Seq<Command>, product: Product) -> Seq<Forwarded>
        decreases cmds,
    {
        if cmds.len() == 0 {
            Seq::empty()
        } else {
            self.forwards(cmds[0], product) + self.after(cmds[0], product).forwards_all(
                cmds.skip(1),
                product,
            )
        }
    }
}

impl View for State {
    type V = StateModel;

    open spec fn view(&self) -> StateModel {
        StateModel {
            modelview: self.modelview@,
            projection: self.projection@,
            mode: self.matrix_mode,
        }
    }
}

/// What decides whether a command can be applied: the selected stack and the
/// number of matrices saved on each stack.
pub struct Shape {
    pub mode: MatrixMode,
    pub modelview_depth: nat,
    pub projection_depth: nat,
}

impl Shape {
    /// The number of matrices saved on the selected stack.
    pub open spec fn depth(self) -> nat {
        match self.mode {
            MatrixMode::ModelView => self.modelview_depth,
            MatrixMode::Projection => self.projection_depth,
        }
    }

    /// The shape with another number of matrices saved on the selected stack.
    pub open spec fn with_depth(self, depth: nat) -> Shape {
        match self.mode {
            MatrixMode::ModelView => Shape { modelview_depth: depth, ..self },
            MatrixMode::Projection => Shape { projection_depth: depth, ..self },
        }
    }

    /// Whether one command that is no list call can be applied: a pop needs a
    /// saved matrix, a push needs room for one more, a matrix-mode command
    /// needs the name of a stack.
    pub open spec fn admits_one(self, cmd: Command) -> bool {
        match cmd {
            Command::glMatrixMode(mode) => mode_of(mode) is Some,
            Command::glPushMatrix => self.depth() < usize::MAX,
            Command::glPopMatrix => self.depth() > 0,
            _ => true,
        }
    }

    /// The shape after one command that is no list call.
    pub open spec fn after_one(self, cmd: Command) -> Shape {
        match cmd {
            Command::glMatrixMode(mode) => match mode_of(mode) {
                Some(m) => Shape { mode: m, ..self },
                None => self,
            },
            Command::glPushMatrix => self.with_depth(self.depth() + 1),
            Command::glPopMatrix => self.with_depth((self.depth() - 1) as nat),
            _ => self,
        }
    }

    /// Whether the command can be applied: a list call, if its commands can
    /// be applied one after the other.
    pub open spec fn admits(self, cmd: Command) -> bool
        decreases cmd,
    {
        match cmd {
            Command::glCallList(list) => self.admits_all(list.cmds@),
            _ => self.admits_one(cmd),
        }
    }

    /// Whether the commands can be applied one after the other.
    pub open spec fn admits_all(self, cmds: Seq<Command>) -> bool
        decreases cmds,
    {
        if cmds.len() == 0 {
            true
        } else {
            self.admits(cmds[0]) && self.after(cmds[0]).admits_all(cmds.skip(1))
        }
    }

    /// The shape after the command.
    pub open spec fn after(self, cmd: Command) -> Shape
        decreases cmd,
    {
        match cmd {
            Command::glCallList(list) => self.after_all(list.cmds@),
            _ => self.after_one(cmd),
        }
    }

    /// The shape after the commands, applied in order.
    pub open spec fn after_all(self, cmds: Seq<Command>) -> Shape
        decreases cmds,
    {
        if cmds.len() == 0 {
            self
        } else {
            self.after(cmds[0]).after_all(cmds.skip(1))
        }
    }
}

impl StateModel {
    /// The shape of this state.
    pub open spec fn shape(self) -> Shape {
        Shape {
            mode: self.mode,
            modelview_depth: self.modelview.stack.len(),
            projection_depth: self.projection.stack.len(),
        }
    }

    /// Whether the command can be applied to this state.
    pub open spec fn admits(self, cmd: Command) -> bool {
        self.shape().admits(cmd)
    }

    /// Whether the commands can be applied to this state one after the other.
    pub open spec fn admits_all(self, cmds: Seq<Command>) -> bool {
        self.shape().admits_all(cmds)
    }
}

/// The shape of the state after a command is the shape after the command:
/// which matrices a state holds never decides what can be applied next.
pub proof fn lemma_shape_after(s: StateModel, cmd: Command, product: Product)
    requires
        s.admits(cmd),
    ensures
        s.after(cmd, product).shape() == s.shape().after(cmd),
    decreases cmd,
{
    match cmd {
        Command::glCallList(list) => {
            lemma_shape_after_all(s, list.cmds@, product);
        },
        _ => {},
    }
}

/// The shape of the state after a sequence of commands is the shape after
/// the sequence.
pub proof fn lemma_shape_after_all(s: StateModel, cmds: Seq<Command>, product: Product)
    requires
        s.admits_all(cmds),
    ensures
        s.after_all(cmds, product).shape() == s.shape().after_all(cmds),
    decreases cmds,
{
    if cmds.len() > 0 {
        lemma_shape_after(s, cmds[0], product);
        lemma_shape_after_all(s.after(cmds[0], product), cmds.skip(1), product);
    }
}

/// Whether `compose` can be called on every matrix and transform, and
/// answers each such call in one way only.
pub open spec fn is_product<F: Fn(Matrix, Transform) -> Matrix>(compose: F) -> bool {
    &&& forall|m: Matrix, t: Transform| call_requires(compose, (m, t))
    &&& forall|m: Matrix, t: Transform, p: Matrix, q: Matrix|
        call_ensures(compose, (m, t), p) && call_ensures(compose, (m, t), q) ==> p == q
}

/// The multiplication that `compose` computes.
pub open spec fn product_of<F: Fn(Matrix, Transform) -> Matrix>(compose: F) -> Product {
    |m: Matrix, t: Transform| choose|p: Matrix| call_ensures(compose, (m, t), p)
}

/// Whether the multiplication that `compose` computes is what `compose`
/// promises of each of these multiplications. This is how a caller learns of
/// the matrices in a state from what it knows of `compose`.
pub open spec fn answers<F: Fn(Matrix, Transform) -> Matrix>(
    compose: F,
    asked: Seq<Multiplication>,
) -> bool {
    forall|i: int|
        0 <= i < asked.len() ==> call_ensures(
            compose,
            ((#[trigger] asked[i]).matrix, asked[i].transform),
            product_of(compose)(asked[i].matrix, asked[i].transform),
        )
}

/// What holds of two sequences of multiplications holds of the two joined.
pub proof fn lemma_answers_concat<F: Fn(Matrix, Transform) -> Matrix>(
    compose: F,
    a: Seq<Multiplication>,
    b: Seq<Multiplication>,
)
    requires
        answers(compose, a),
        answers(compose, b),
    ensures
        answers(compose, a + b),
{
    assert forall|i: int| 0 <= i < (a + b).len() implies call_ensures(
        compose,
        ((#[trigger] (a + b)[i]).matrix, (a + b)[i].transform),
        product_of(compose)((a + b)[i].matrix, (a + b)[i].transform),
    ) by {
        if i < a.len() {
            assert((a + b)[i] == a[i]);
        } else {
            assert((a + b)[i] == b[i - a.len()]);
        }
    }
}

impl Default for State {
    /// Both stacks hold the identity and nothing below it; matrix commands
    /// work on the modelview stack.
    fn default() -> (state: Self)
        ensures
            state@ == (StateModel {
                modelview: StackModel { mat: Matrix::identity_spec(), stack: Seq::empty() },
                projection: StackModel { mat: Matrix::identity_spec(), stack: Seq::empty() },
                mode: MatrixMode::ModelView,
            }),
    {
        State {
            modelview: MatrixStack::default(),
            projection: MatrixStack::default(),
            matrix_mode: MatrixMode::default(),
        }
    }
}

impl State {
    /// The stack that matrix commands work on.
    fn matrix_stack(&mut self) -> (stack: &mut MatrixStack)
        ensures
            stack@ == old(self)@.active(),
            final(self)@ == old(self)@.with_active(final(stack)@),
    {
        match self.matrix_mode {
            MatrixMode::ModelView => &mut self.modelview,
            MatrixMode::Projection => &mut self.projection,
        }
    }

    /// The current matrix of the stack that matrix commands work on.
    pub fn matrix(&self) -> (mat: Matrix)
        ensures
            mat == self@.active().mat,
    {
        match self.matrix_mode {
            MatrixMode::ModelView => self.modelview.mat,
            MatrixMode::Projection => self.projection.mat,
        }
    }

    /// Multiplies the current matrix from the right by `transform`.
    fn matrix_mul<F: Fn(Matrix, Transform) -> Matrix>(&mut self, transform: Transform, compose: &F)
        requires
            is_product(*compose),
        ensures
            final(self)@ == old(self)@.with_active(
                old(self)@.active().with_mat(
                    product_of(*compose)(old(self)@.active().mat, transform),
                ),
            ),
            call_ensures(
                *compose,
                (old(self)@.active().mat, transform),
                product_of(*compose)(old(self)@.active().mat, transform),
            ),
    {
        let mat = compose(self.matrix(), transform);
        let stack = self.matrix_stack();
        stack.mat = mat;
    }

    /// Applies one command. Matrix commands change the stack that is
    /// selected; a list call applies the list's commands in order; any other
    /// command is appended to `unhandled`, unmodified, with the two current
    /// matrices of that moment.
    ///
    /// Lists may call lists to any depth: there is no limit but the stack of
    /// the machine, of which each nested call takes one frame.
    pub fn apply<F: Fn(Matrix, Transform) -> Matrix>(
        &mut self,
        cmd: Command,
        compose: &F,
        unhandled: &mut Vec<Forwarded>,
    )
        requires
            old(self)@.admits(cmd),
            is_product(*compose),
        ensures
            final(self)@ == old(self)@.after(cmd, product_of(*compose)),
            final(unhandled)@ == old(unhandled)@ + old(self)@.forwards(cmd, product_of(*compose)),
            answers(*compose, old(self)@.composes(cmd, product_of(*compose))),
        decreases cmd,
    {
        let ghost product = product_of(*compose);
        proof {
            assert(unhandled@ + Seq::<Forwarded>::empty() == unhandled@);
        }
        match cmd {
            Command::glCallList(list) => {
                let ghost start = self@;
                let ghost before = unhandled@;
                let ghost cmds = list.cmds@;
                let n = list.cmds.len();
                let mut i: usize = 0;
                let ghost mut asked: Seq<Multiplication> = Seq::empty();
                proof {
                    assert(cmds.skip(0) == cmds);
                    assert(asked + start.composes_all(cmds, product) == start.composes_all(
                        cmds,
                        product,
                    ));
                }
                while i < n
                    invariant
                        i <= n,
                        n == cmds.len(),
                        cmds == list.cmds@,
                        cmd == Command::glCallList(list),
                        is_product(*compose),
                        product == product_of(*compose),
                        answers(*compose, asked),
                        start.composes_all(cmds, product) == asked + self@.composes_all(
                            cmds.skip(i as int),
                            product,
                        ),
                        self@.admits_all(cmds.skip(i as int)),
                        start.after_all(cmds, product) == self@.after_all(
                            cmds.skip(i as int),
                            product,
                        ),
                        before + start.forwards_all(cmds, product) == unhandled@
                            + self@.forwards_all(cmds.skip(i as int), product),
                    decreases n - i,
                {
                    let ghost here = self@;
                    let ghost sent = unhandled@;
                    let ghost rest = cmds.skip(i as int);
                    let c = list.cmds[i].clone();
                    proof {
                        assert(rest[0] == c);
                        assert(rest.skip(1) == cmds.skip(i + 1));
                        lemma_call_list_smaller(cmd, i as int);
                        lemma_shape_after(here, c, product);
                    }
                    self.apply(c, compose, unhandled);
                    proof {
                        assert(sent + (here.forwards(c, product) + here.after(
                            c,
                            product,
                        ).forwards_all(rest.skip(1), product)) == (sent + here.forwards(c, product))
                            + here.after(c, product).forwards_all(rest.skip(1), product));
                        assert(asked + (here.composes(c, product) + here.after(
                            c,
                            product,
                        ).composes_all(rest.skip(1), product)) == (asked + here.composes(c, product))
                            + here.after(c, product).composes_all(rest.skip(1), product));
                        lemma_answers_concat(*compose, asked, here.composes(c, product));
                        asked = asked + here.composes(c, product);
                    }
                    i += 1;
                }
                proof {
                    assert(cmds.skip(n as int).len() == 0);
                    assert(unhandled@ + Seq::<Forwarded>::empty() == unhandled@);
                    assert(asked + Seq::<Multiplication>::empty() == asked);
                }
            },
            Command::glMatrixMode(mode) => {
                self.matrix_mode = match mode {
                    Enum::PROJECTION => MatrixMode::Projection,
                    _ => MatrixMode::ModelView,
                };
            },
            Command::glPushMatrix => {
                self.matrix_stack().push();
            },
            Command::glPopMatrix => {
                self.matrix_stack().pop();
            },
            Command::glLoadIdentity => {
                self.matrix_stack().mat = Matrix::identity();
            },
            Command::glRotatef(angle, x, y, z) => {
                self.matrix_mul(Transform::Rotate(angle, x, y, z), compose);
            },
            Command::glTranslatef(x, y, z) => {
                self.matrix_mul(Transform::Translate(x, y, z), compose);
            },
            Command::glTranslated(x, y, z) => {
                self.matrix_mul(Transform::TranslateDouble(x, y, z), compose);
            },
            Command::glFrustum(left, right, bottom, top, near, far) => {
                self.matrix_mul(Transform::Frustum(left, right, bottom, top, near, far), compose);
            },
            other => {
                let ghost sent = unhandled@;
                let forwarded = Forwarded {
                    cmd: other,
                    modelview: self.modelview.mat,
                    projection: self.projection.mat,
                };
                unhandled.push(forwarded);
                proof {
                    assert(unhandled@ == sent + seq![forwarded]);
                }
            },
        }
    }
}

/// A command of a list is smaller than the call of the list, which is why
/// interpretation ends.
pub proof fn lemma_call_list_smaller(cmd: Command, i: int)
    requires
        cmd is glCallList,
        0 <= i < cmd->glCallList_0.cmds@.len(),
    ensures
        decreases_to!(cmd => cmd->glCallList_0.cmds@[i]),
{
    broadcast use vstd::std_specs::vec::group_vec_axioms;

    let list = cmd->glCallList_0;
    assert(decreases_to!(cmd => list));
    assert(decreases_to!(list => list.cmds));
    assert(decreases_to!(list.cmds => list.cmds[i]));
}

/// The shape of a state in executable form: what a dry run of the
/// interpreter keeps track of.
#[derive(Copy, Clone, Debug, PartialEq, Eq, Structural)]
pub struct Probe {
    pub mode: MatrixMode,
    pub modelview_depth: usize,
    pub projection_depth: usize,
}

impl View for Probe {
    type V = Shape;

    open spec fn view(&self) -> Shape {
        Shape {
            mode: self.mode,
            modelview_depth: self.modelview_depth as nat,
            projection_depth: self.projection_depth as nat,
        }
    }
}

impl Probe {
    /// The number of matrices saved on the selected stack.
    fn depth(&self) -> (depth: usize)
        ensures
            depth == self@.depth(),
    {
        match self.mode {
            MatrixMode::ModelView => self.modelview_depth,
            MatrixMode::Projection => self.projection_depth,
        }
    }

    /// The probe with another number of matrices saved on the selected stack.
    fn with_depth(self, depth: usize) -> (probe: Probe)
        ensures
            probe@ == self@.with_depth(depth as nat),
    {
        match self.mode {
            MatrixMode::ModelView => Probe { modelview_depth: depth, ..self },
            MatrixMode::Projection => Probe { projection_depth: depth, ..self },
        }
    }

    /// Runs the command without any matrix: the shape after it, or `None`
    /// where the command cannot be applied.
    pub fn advance(self, cmd: &Command) -> (next: Option<Probe>)
        ensures
            match next {
                Some(probe) => self@.admits(*cmd) && probe@ == self@.after(*cmd),
                None => !self@.admits(*cmd),
            },
        decreases cmd,
    {
        match cmd {
            Command::glCallList(list) => {
                let ghost cmds = list.cmds@;
                let n = list.cmds.len();
                let mut current = self;
                let mut i: usize = 0;
                proof {
                    assert(cmds.skip(0) == cmds);
                }
                while i < n
                    invariant
                        i <= n,
                        n == cmds.len(),
                        cmds == list.cmds@,
                        *cmd == Command::glCallList(*list),
                        self@.admits_all(cmds) == current@.admits_all(cmds.skip(i as int)),
                        self@.after_all(cmds) == current@.after_all(cmds.skip(i as int)),
                    decreases n - i,
                {
                    proof {
                        let rest = cmds.skip(i as int);
                        assert(rest[0] == list.cmds@[i as int]);
                        assert(rest.skip(1) == cmds.skip(i + 1));
                        lemma_call_list_smaller(*cmd, i as int);
                    }
                    match current.advance(&list.cmds[i]) {
                        Some(probe) => {
                            current = probe;
                        },
                        None => {
                            return None;
                        },
                    }
                    i += 1;
                }
                Some(current)
            },
            Command::glMatrixMode(mode) => match mode {
                Enum::MODELVIEW => Some(Probe { mode: MatrixMode::ModelView, ..self }),
                Enum::PROJECTION => Some(Probe { mode: MatrixMode::Projection, ..self }),
                _ => None,
            },
            Command::glPushMatrix => {
                let depth = self.depth();
                if depth < usize::MAX {
                    Some(self.with_depth(depth + 1))
                } else {
                    None
                }
            },
            Command::glPopMatrix => {
                let depth = self.depth();
                if depth > 0 {
                    Some(self.with_depth(depth - 1))
                } else {
                    None
                }
            },
            _ => Some(self),
        }
    }
}

impl State {
    /// The shape of this state.
    pub fn probe(&self) -> (probe: Probe)
        ensures
            probe@ == self@.shape(),
    {
        Probe {
            mode: self.matrix_mode,
            modelview_depth: self.modelview.stack.len(),
            projection_depth: self.projection.stack.len(),
        }
    }

    /// Whether `apply` can be called with this command: no pop in it finds
    /// its stack empty, each matrix-mode command in it names a stack, and no
    /// stack grows beyond what can be counted.
    pub fn admits(&self, cmd: &Command) -> (ok: bool)
        ensures
            ok == self@.admits(*cmd),
    {
        self.probe().advance(cmd).is_some()
    }
}

} // verus!
