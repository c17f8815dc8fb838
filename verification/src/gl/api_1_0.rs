use crate::gl::constants::Enum;
use crate::gl::{list_mode, registry_entries, Context, DisplayList};
use smallvec::SmallVec;
use std::rc::Rc;
use vstd::prelude::*;

verus! {

/// A single-precision number, carried as its IEEE 754 bit pattern.
///
/// The library never computes with such a number: it stores it, copies it and
/// hands it on.
#[derive(Copy, Clone, Debug, PartialEq, Eq, Structural)]
pub struct Single {
    pub bits: u32,
}

/// A double-precision number, carried as its IEEE 754 bit pattern.
#[derive(Copy, Clone, Debug, PartialEq, Eq, Structural)]
pub struct Double {
    pub bits: u64,
}

/// The values of a parameter whose length depends on the parameter's name:
/// a short vector of single-precision bit patterns, stored inline while it has
/// at most four items.
#[verifier::external_body]
#[derive(Debug, PartialEq)]
pub struct Params {
    items: SmallVec<[u32; 4]>,
}

/// The bit patterns that a `Params` holds, in order.
pub uninterp spec fn params_items(p: Params) -> Seq<u32>;

/// `SmallVec::new`: a vector that holds nothing.
#[verifier::external_body]
fn params_new() -> (p: Params)
    ensures
        params_items(p).len() == 0,
{
    Params { items: SmallVec::new() }
}

/// `SmallVec::push`: the items held before, then `bits`. It is not called on
/// a vector that already holds as many items as can be counted.
#[verifier::external_body]
fn params_push(p: &mut Params, bits: u32)
    requires
        params_items(*old(p)).len() < usize::MAX,
    ensures
        params_items(*final(p)) == params_items(*old(p)).push(bits),
{
    p.items.push(bits);
}

/// `SmallVec::as_slice`: the items held, in order.
#[verifier::external_body]
fn params_as_slice(p: &Params) -> (items: &[u32])
    ensures
        items@ == params_items(*p),
{
    p.items.as_slice()
}

/// `SmallVec::clone`: a second vector, indistinguishable from the first.
#[verifier::external_body]
fn params_clone(p: &Params) -> (q: Params)
    ensures
        q == *p,
{
    Params { items: p.items.clone() }
}

impl View for Params {
    type V = Seq<Single>;

    /// The numbers held, in order.
    open spec fn view(&self) -> Seq<Single> {
        params_items(*self).map_values(|bits: u32| Single { bits })
    }
}

impl Params {
    /// A vector of the given numbers, in the same order.
    pub fn from_slice(values: &[Single]) -> (p: Params)
        ensures
            p@ == values@,
    {
        let mut p = params_new();
        let mut i: usize = 0;
        while i < values.len()
            invariant
                i <= values.len(),
                p@ == values@.take(i as int),
            decreases values.len() - i,
        {
            let ghost before = params_items(p);
            assert(before.len() == p@.len());
            params_push(&mut p, values[i].bits);
            proof {
                assert(params_items(p) == before.push(values[i as int].bits));
                assert(p@ =~= values@.take(i as int).push(values[i as int]));
                assert(values@.take(i + 1) =~= values@.take(i as int).push(values[i as int]));
            }
            i += 1;
        }
        proof {
            assert(values@.take(values.len() as int) =~= values@);
        }
        p
    }

    /// The number of values held.
    pub fn len(&self) -> (n: usize)
        ensures
            n == self@.len(),
    {
        params_as_slice(self).len()
    }

    /// The value at `i`.
    pub fn get(&self, i: usize) -> (value: Single)
        requires
            i < self@.len(),
        ensures
            value == self@[i as int],
    {
        Single { bits: params_as_slice(self)[i] }
    }

    /// The values held, in order.
    pub fn to_vec(&self) -> (values: Vec<Single>)
        ensures
            values@ == self@,
    {
        let items = params_as_slice(self);
        let n = items.len();
        let mut values: Vec<Single> = Vec::new();
        let mut i: usize = 0;
        while i < n
            invariant
                i <= n,
                n == self@.len(),
                items@ == params_items(*self),
                values@ == self@.take(i as int),
            decreases n - i,
        {
            values.push(Single { bits: items[i] });
            proof {
                assert(values@ =~= self@.take(i + 1));
            }
            i += 1;
        }
        proof {
            assert(self@.take(n as int) =~= self@);
        }
        values
    }
}

impl Clone for Params {
    fn clone(&self) -> (p: Self)
        ensures
            p == *self,
    {
        params_clone(self)
    }
}

/// `Rc::clone`: another handle to the same list.
#[verifier::external_body]
pub(crate) fn share(list: &Rc<DisplayList>) -> (r: Rc<DisplayList>)
    ensures
        r == *list,
{
    Rc::clone(list)
}

/// One call of the API with its arguments already validated.
#[allow(non_camel_case_types)]
#[derive(Debug, PartialEq)]
pub enum Command {
    glClear(u32),
    glEnable(Enum),
    glMaterialfv(Enum, Enum, Params),
    glLightfv(Enum, Enum, Params),
    glShadeModel(Enum),
    glBegin(Enum),
    glVertex3f(Single, Single, Single),
    glNormal3f(Single, Single, Single),
    glEnd,
    glViewport(i32, i32, u32, u32),
    glMatrixMode(Enum),
    glPushMatrix,
    glPopMatrix,
    glLoadIdentity,
    glRotatef(Single, Single, Single, Single),
    glTranslatef(Single, Single, Single),
    glTranslated(Double, Double, Double),
    glFrustum(Double, Double, Double, Double, Double, Double),
    glCallList(Rc<DisplayList>),
}

impl Clone for Command {
    /// A command equal to this one. A command that refers to a display list
    /// shares the list with its clone.
    fn clone(&self) -> (c: Self)
        ensures
            c == *self,
    {
        match self {
            Command::glClear(buf) => Command::glClear(*buf),
            Command::glEnable(target) => Command::glEnable(*target),
            Command::glMaterialfv(face, pname, params) => Command::glMaterialfv(
                *face,
                *pname,
                params.clone(),
            ),
            Command::glLightfv(light, pname, params) => Command::glLightfv(
                *light,
                *pname,
                params.clone(),
            ),
            Command::glShadeModel(mode) => Command::glShadeModel(*mode),
            Command::glBegin(mode) => Command::glBegin(*mode),
            Command::glVertex3f(x, y, z) => Command::glVertex3f(*x, *y, *z),
            Command::glNormal3f(x, y, z) => Command::glNormal3f(*x, *y, *z),
            Command::glEnd => Command::glEnd,
            Command::glViewport(x, y, w, h) => Command::glViewport(*x, *y, *w, *h),
            Command::glMatrixMode(mode) => Command::glMatrixMode(*mode),
            Command::glPushMatrix => Command::glPushMatrix,
            Command::glPopMatrix => Command::glPopMatrix,
            Command::glLoadIdentity => Command::glLoadIdentity,
            Command::glRotatef(angle, x, y, z) => Command::glRotatef(*angle, *x, *y, *z),
            Command::glTranslatef(x, y, z) => Command::glTranslatef(*x, *y, *z),
            Command::glTranslated(x, y, z) => Command::glTranslated(*x, *y, *z),
            Command::glFrustum(l, r, b, t, n, f) => Command::glFrustum(*l, *r, *b, *t, *n, *f),
            Command::glCallList(list) => Command::glCallList(share(list)),
        }
    }
}

impl Command {
    /// Submits the command to a context. While a list is compiled the command
    /// is recorded at the end of the list, and queued as well if the list is
    /// compiled and executed; otherwise it is queued.
    pub fn submit(self, gl: &mut Context)
        requires
            old(gl)@.wf(),
        ensures
            final(gl)@ == old(gl)@.submitted(self),
            final(gl)@.wf(),
            final(gl).lists == old(gl).lists,
    {
        match &mut gl.compile_list {
            Some((_, list)) => {
                if gl.execute_immediately {
                    gl.pending_cmds.push(self.clone());
                }
                list.cmds.push(self);
            },
            None => {
                gl.pending_cmds.push(self);
            },
        }
    }
}

/// The number of values that a material parameter takes, for the names that
/// are material parameters.
pub fn material_param_count(pname: Enum) -> (count: Option<usize>)
    ensures
        count == match pname {
            Enum::AMBIENT
            | Enum::DIFFUSE
            | Enum::AMBIENT_AND_DIFFUSE
            | Enum::SPECULAR
            | Enum::EMISSION => Some(4usize),
            Enum::SHININESS => Some(1usize),
            Enum::COLOR_INDEXES => Some(3usize),
            _ => None,
        },
{
    match pname {
        Enum::AMBIENT
        | Enum::DIFFUSE
        | Enum::AMBIENT_AND_DIFFUSE
        | Enum::SPECULAR
        | Enum::EMISSION => Some(4),
        Enum::SHININESS => Some(1),
        Enum::COLOR_INDEXES => Some(3),
        _ => None,
    }
}

/// The number of values that a light parameter takes, for the names that are
/// light parameters.
pub fn light_param_count(pname: Enum) -> (count: Option<usize>)
    ensures
        count == match pname {
            Enum::AMBIENT | Enum::DIFFUSE | Enum::SPECULAR | Enum::POSITION => Some(4usize),
            Enum::SPOT_DIRECTION => Some(3usize),
            Enum::SPOT_EXPONENT
            | Enum::SPOT_CUTOFF
            | Enum::CONSTANT_ATTENUATION
            | Enum::LINEAR_ATTENUATION
            | Enum::QUADRATIC_ATTENUATION => Some(1usize),
            _ => None,
        },
{
    match pname {
        Enum::AMBIENT | Enum::DIFFUSE | Enum::SPECULAR | Enum::POSITION => Some(4),
        Enum::SPOT_DIRECTION => Some(3),
        Enum::SPOT_EXPONENT
        | Enum::SPOT_CUTOFF
        | Enum::CONSTANT_ATTENUATION
        | Enum::LINEAR_ATTENUATION
        | Enum::QUADRATIC_ATTENUATION => Some(1),
        _ => None,
    }
}

/// Whether `glGenLists` can hand out `s` names: `s` is not negative and the
/// names do not run out.
pub fn can_gen_lists(gl: &Context, s: i32) -> (ok: bool)
    ensures
        ok == (0 <= s && gl.first_unused_list + s <= u32::MAX),
{
    s >= 0 && s as u32 <= u32::MAX - gl.first_unused_list
}

/// Reserves `s` consecutive names that were never handed out and returns the
/// first of them.
#[allow(non_snake_case)]
pub fn glGenLists(gl: &mut Context, s: i32) -> (n: u32)
    requires
        0 <= s,
        old(gl).first_unused_list + s <= u32::MAX,
    ensures
        n == old(gl).first_unused_list,
        final(gl)@ == old(gl)@.generated(s as u32),
        final(gl).lists == old(gl).lists,
{
    let n = gl.first_unused_list;
    gl.first_unused_list += s as u32;
    n
}

/// Whether `glNewList` can begin a list in this mode: no list is being
/// compiled and `mode` is a list mode.
pub fn can_new_list(gl: &Context, mode: u32) -> (ok: bool)
    ensures
        ok == (gl@.compiling is None && list_mode(mode) is Some),
{
    gl.compile_list.is_none() && (mode == Enum::COMPILE.to_u32() || mode
        == Enum::COMPILE_AND_EXECUTE.to_u32())
}

/// Begins the compilation of list `n`: an empty list is opened under that
/// name, and `mode` decides whether commands are executed while they are
/// recorded.
#[allow(non_snake_case)]
pub fn glNewList(gl: &mut Context, n: u32, mode: u32)
    requires
        old(gl)@.compiling is None,
        list_mode(mode) is Some,
    ensures
        final(gl)@ == old(gl)@.begun(n, list_mode(mode)->0),
        final(gl)@.wf(),
        final(gl).lists == old(gl).lists,
{
    gl.compile_list = Some((n, DisplayList::default()));
    gl.execute_immediately = mode == Enum::COMPILE_AND_EXECUTE.to_u32();
}

/// Seals the list being compiled and enters it in the registry under its
/// name, in place of any list that had the name before. Commands are
/// executed again from here on.
#[allow(non_snake_case)]
pub fn glEndList(gl: &mut Context)
    requires
        old(gl)@.compiling is Some,
    ensures
        final(gl)@ == old(gl)@.ended(),
        final(gl)@.wf(),
{
    let ghost before = registry_entries(gl.lists);
    let compiled = gl.compile_list.take();
    match compiled {
        Some((n, list)) => {
            let ghost cmds = list.cmds@;
            let sealed = Rc::new(list);
            crate::gl::registry_insert(&mut gl.lists, n, sealed);
            proof {
                let f = |list: Rc<DisplayList>| list.cmds@;
                assert(before.insert(n, sealed).map_values(f) =~= before.map_values(f).insert(
                    n,
                    cmds,
                ));
            }
        },
        None => {},
    }
    gl.execute_immediately = true;
}

/// Submits a call of the sealed list `n`: one command that, when it is
/// interpreted, replays the list.
#[allow(non_snake_case)]
pub fn glCallList(gl: &mut Context, n: u32)
    requires
        old(gl)@.wf(),
        old(gl)@.lists.contains_key(n),
    ensures
        final(gl)@ == old(gl)@.submitted(
            Command::glCallList(registry_entries(old(gl).lists)[n]),
        ),
        registry_entries(old(gl).lists)[n].cmds@ == old(gl)@.lists[n],
        final(gl)@.wf(),
        final(gl).lists == old(gl).lists,
{
    match gl.lookup(n) {
        Some(list) => {
            Command::glCallList(list).submit(gl);
        },
        None => {},
    }
}

} // verus!
