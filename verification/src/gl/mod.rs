use crate::gl::api_1_0::Command;
use crate::gl::constants::Enum;
use crate::gl::state::{
    answers, is_product, lemma_answers_concat, product_of, Forwarded, Matrix, Multiplication, Product,
    State, StateModel, Transform,
};
use indexmap::IndexMap;
use std::collections::hash_map::RandomState;
use std::rc::Rc;
use vstd::prelude::*;

pub mod api_1_0;
pub mod constants;
pub mod replay;
pub mod state;

verus! {

/// A recorded sequence of commands, replayed in order when it is called.
#[derive(Debug, PartialEq)]
pub struct DisplayList {
    pub cmds: Vec<Command>,
}

impl Default for DisplayList {
    /// The empty list.
    fn default() -> (list: Self)
        ensures
            list.cmds@ == Seq::<Command>::empty(),
    {
        DisplayList { cmds: Vec::new() }
    }
}

/// `indexmap::IndexMap`, a hash map that keeps its entries in the order in
/// which they came. Nothing is known of a value of it but what the functions
/// below state.
#[verifier::external_type_specification]
#[verifier::external_body]
#[verifier::reject_recursive_types(K)]
#[verifier::reject_recursive_types(V)]
#[verifier::reject_recursive_types(S)]
pub struct ExIndexMap<K, V, S>(IndexMap<K, V, S>);

/// The sealed lists that a registry holds, by name.
pub uninterp spec fn registry_entries(lists: IndexMap<u32, Rc<DisplayList>, RandomState>) -> Map<
    u32,
    Rc<DisplayList>,
>;

/// `IndexMap::new`: a map without entries.
#[verifier::external_body]
fn registry_new() -> (lists: IndexMap<u32, Rc<DisplayList>, RandomState>)
    ensures
        registry_entries(lists).dom() == Set::<u32>::empty(),
{
    IndexMap::new()
}

/// `IndexMap::insert`: afterwards `name` leads to `list`, whether or not it
/// led to a list before; every other entry stays.
#[verifier::external_body]
pub(crate) fn registry_insert(
    lists: &mut IndexMap<u32, Rc<DisplayList>, RandomState>,
    name: u32,
    list: Rc<DisplayList>,
)
    ensures
        registry_entries(*final(lists)) == registry_entries(*old(lists)).insert(name, list),
{
    lists.insert(name, list);
}

/// `IndexMap::get`: the list that `name` leads to, or `None` where the map
/// has no entry for `name`.
#[verifier::external_body]
fn registry_get(lists: &IndexMap<u32, Rc<DisplayList>, RandomState>, name: u32) -> (found: Option<
    &Rc<DisplayList>,
>)
    ensures
        found == (if registry_entries(*lists).contains_key(name) {
            Some(&registry_entries(*lists)[name])
        } else {
            None
        }),
{
    lists.get(&name)
}

/// The state of one client of the API: the commands waiting to be
/// interpreted, the display lists, and the matrices.
#[derive(Debug)]
pub struct Context {
    pub pending_cmds: Vec<Command>,
    pub first_unused_list: u32,
    pub lists: IndexMap<u32, Rc<DisplayList>>,
    pub compile_list: Option<(u32, DisplayList)>,
    pub execute_immediately: bool,
    pub state: State,
}

/// The mathematical content of a `Context`.
pub struct ContextModel {
    /// The commands submitted and not yet interpreted, oldest first.
    pub pending: Seq<Command>,
    /// The least list name that was never handed out.
    pub first_unused_list: u32,
    /// The commands of each sealed list, by name.
    pub lists: Map<u32, Seq<Command>>,
    /// The name and the commands so far of the list being compiled.
    pub compiling: Option<(u32, Seq<Command>)>,
    /// Whether a submitted command also goes to `pending`.
    pub execute_immediately: bool,
    pub state: StateModel,
}

/// Whether a list mode asks that commands be executed while they are
/// recorded, for the two numbers that are list modes.
pub open spec fn list_mode(mode: u32) -> Option<bool> {
    if mode == Enum::COMPILE.code() {
        Some(false)
    } else if mode == Enum::COMPILE_AND_EXECUTE.code() {
        Some(true)
    } else {
        None
    }
}

impl ContextModel {
    /// Outside of a compilation every command is executed.
    pub open spec fn wf(self) -> bool {
        self.compiling is None ==> self.execute_immediately
    }

    /// A context to which nothing has happened yet.
    pub open spec fn initial() -> ContextModel {
        ContextModel {
            pending: Seq::empty(),
            first_unused_list: 1,
            lists: Map::empty(),
            compiling: None,
            execute_immediately: true,
            state: StateModel {
                modelview: crate::gl::state::StackModel {
                    mat: Matrix::identity_spec(),
                    stack: Seq::empty(),
                },
                projection: crate::gl::state::StackModel {
                    mat: Matrix::identity_spec(),
                    stack: Seq::empty(),
                },
                mode: crate::gl::state::MatrixMode::ModelView,
            },
        }
    }

    /// The context after `cmd` was submitted: recorded in the list being
    /// compiled if there is one, and queued if commands are executed.
    pub open spec fn submitted(self, cmd: Command) -> ContextModel {
        ContextModel {
            pending: if self.execute_immediately {
                self.pending.push(cmd)
            } else {
                self.pending
            },
            compiling: match self.compiling {
                Some((name, cmds)) => Some((name, cmds.push(cmd))),
                None => None,
            },
            ..self
        }
    }

    /// The context after the commands were submitted in order.
    pub open spec fn submitted_all(self, cmds: Seq<Command>) -> ContextModel
        decreases cmds.len(),
    {
        if cmds.len() == 0 {
            self
        } else {
            self.submitted(cmds[0]).submitted_all(cmds.skip(1))
        }
    }

    /// The context after `count` names were handed out.
    pub open spec fn generated(self, count: u32) -> ContextModel {
        ContextModel { first_unused_list: (self.first_unused_list + count) as u32, ..self }
    }

    /// The context after the compilation of list `name` began.
    pub open spec fn begun(self, name: u32, execute: bool) -> ContextModel {
        ContextModel {
            compiling: Some((name, Seq::empty())),
            execute_immediately: execute,
            ..self
        }
    }

    /// The context after the list being compiled was sealed.
    pub open spec fn ended(self) -> ContextModel
        recommends
            self.compiling is Some,
    {
        match self.compiling {
            Some((name, cmds)) => ContextModel {
                lists: self.lists.insert(name, cmds),
                compiling: None,
                execute_immediately: true,
                ..self
            },
            None => self,
        }
    }

    /// The context after the pending commands were interpreted.
    pub open spec fn flushed(self, product: Product) -> ContextModel {
        ContextModel {
            pending: Seq::empty(),
            state: self.state.after_all(self.pending, product),
            ..self
        }
    }
}

impl View for Context {
    type V = ContextModel;

    open spec fn view(&self) -> ContextModel {
        ContextModel {
            pending: self.pending_cmds@,
            first_unused_list: self.first_unused_list,
            lists: registry_entries(self.lists).map_values(|list: Rc<DisplayList>| list.cmds@),
            compiling: match self.compile_list {
                Some((name, list)) => Some((name, list.cmds@)),
                None => None,
            },
            execute_immediately: self.execute_immediately,
            state: self.state@,
        }
    }
}

impl Context {
    /// A context to which nothing has happened yet: no command pending, no
    /// list, the first name to hand out is 1, both matrices the identity.
    pub fn new() -> (gl: Self)
        ensures
            gl@ == ContextModel::initial(),
            gl@.wf(),
    {
        let gl = Context {
            pending_cmds: Vec::new(),
            first_unused_list: 1,
            lists: registry_new(),
            compile_list: None,
            execute_immediately: true,
            state: State::default(),
        };
        proof {
            assert(gl@.lists =~= Map::<u32, Seq<Command>>::empty());
        }
        gl
    }

    /// Whether the context is as every operation leaves it: outside of a
    /// compilation, commands are executed.
    pub fn is_wf(&self) -> (wf: bool)
        ensures
            wf == self@.wf(),
    {
        self.compile_list.is_some() || self.execute_immediately
    }

    /// Whether a list is being compiled.
    pub fn is_compiling(&self) -> (compiling: bool)
        ensures
            compiling == (self@.compiling is Some),
    {
        self.compile_list.is_some()
    }

    /// The sealed list of this name, if there is one.
    pub fn lookup(&self, name: u32) -> (found: Option<Rc<DisplayList>>)
        ensures
            found is Some == self@.lists.contains_key(name),
            found matches Some(list) ==> list.cmds@ == self@.lists[name] && list
                == registry_entries(self.lists)[name],
    {
        match registry_get(&self.lists, name) {
            Some(list) => Some(crate::gl::api_1_0::share(list)),
            None => None,
        }
    }

    /// Whether `flush` can be called: the pending commands can be applied to
    /// the state one after the other.
    pub fn can_flush(&self) -> (ok: bool)
        ensures
            ok == self@.state.admits_all(self@.pending),
    {
        let ghost cmds = self.pending_cmds@;
        let ghost start = self@.state.shape();
        let n = self.pending_cmds.len();
        let mut probe = self.state.probe();
        let mut i: usize = 0;
        proof {
            assert(cmds.skip(0) == cmds);
        }
        while i < n
            invariant
                i <= n,
                n == cmds.len(),
                cmds == self.pending_cmds@,
                start == self@.state.shape(),
                start.admits_all(cmds) == probe@.admits_all(cmds.skip(i as int)),
            decreases n - i,
        {
            proof {
                let rest = cmds.skip(i as int);
                assert(rest[0] == cmds[i as int]);
                assert(rest.skip(1) == cmds.skip(i + 1));
            }
            match probe.advance(&self.pending_cmds[i]) {
                Some(next) => {
                    probe = next;
                },
                None => {
                    return false;
                },
            }
            i += 1;
        }
        true
    }

    /// Interprets the pending commands in the order in which they were
    /// submitted and leaves none pending. What the interpreter does not
    /// handle itself is returned, in order, for the caller to draw.
    pub fn flush<F: Fn(Matrix, Transform) -> Matrix>(&mut self, compose: &F) -> (unhandled: Vec<
        Forwarded,
    >)
        requires
            old(self)@.state.admits_all(old(self)@.pending),
            is_product(*compose),
        ensures
            final(self)@ == old(self)@.flushed(product_of(*compose)),
            unhandled@ == old(self)@.state.forwards_all(old(self)@.pending, product_of(*compose)),
            answers(
                *compose,
                old(self)@.state.composes_all(old(self)@.pending, product_of(*compose)),
            ),
            final(self).lists == old(self).lists,
    {
        let ghost product = product_of(*compose);
        let ghost start = self@.state;
        let ghost before = self@;
        let mut cmds: Vec<Command> = Vec::new();
        std::mem::swap(&mut self.pending_cmds, &mut cmds);
        let mut unhandled: Vec<Forwarded> = Vec::new();
        let n = cmds.len();
        let mut i: usize = 0;
        let ghost mut asked: Seq<Multiplication> = Seq::empty();
        proof {
            assert(cmds@.skip(0) == cmds@);
            assert(unhandled@ + start.forwards_all(cmds@, product) == start.forwards_all(
                cmds@,
                product,
            ));
            assert(asked + start.composes_all(cmds@, product) == start.composes_all(
                cmds@,
                product,
            ));
        }
        while i < n
            invariant
                i <= n,
                n == cmds.len(),
                cmds@ == before.pending,
                start == before.state,
                is_product(*compose),
                product == product_of(*compose),
                self@ == (ContextModel { pending: Seq::empty(), state: self@.state, ..before }),
                answers(*compose, asked),
                start.composes_all(cmds@, product) == asked + self@.state.composes_all(
                    cmds@.skip(i as int),
                    product,
                ),
                self.lists == old(self).lists,
                self@.state.admits_all(cmds@.skip(i as int)),
                start.after_all(cmds@, product) == self@.state.after_all(
                    cmds@.skip(i as int),
                    product,
                ),
                start.forwards_all(cmds@, product) == unhandled@ + self@.state.forwards_all(
                    cmds@.skip(i as int),
                    product,
                ),
            decreases n - i,
        {
            let ghost here = self@.state;
            let ghost sent = unhandled@;
            let ghost rest = cmds@.skip(i as int);
            let cmd = cmds[i].clone();
            proof {
                assert(rest[0] == cmd);
                assert(rest.skip(1) == cmds@.skip(i + 1));
                crate::gl::state::lemma_shape_after(here, cmd, product);
            }
            self.state.apply(cmd, compose, &mut unhandled);
            proof {
                assert(sent + (here.forwards(cmd, product) + here.after(
                    cmd,
                    product,
                ).forwards_all(rest.skip(1), product)) == (sent + here.forwards(cmd, product))
                    + here.after(cmd, product).forwards_all(rest.skip(1), product));
                assert(asked + (here.composes(cmd, product) + here.after(
                    cmd,
                    product,
                ).composes_all(rest.skip(1), product)) == (asked + here.composes(cmd, product))
                    + here.after(cmd, product).composes_all(rest.skip(1), product));
                lemma_answers_concat(*compose, asked, here.composes(cmd, product));
                asked = asked + here.composes(cmd, product);
            }
            i += 1;
        }
        proof {
            assert(cmds@.skip(n as int).len() == 0);
            assert(unhandled@ + Seq::<Forwarded>::empty() == unhandled@);
            assert(asked + Seq::<Multiplication>::empty() == asked);
        }
        unhandled
    }
}

/// While a list is compiled and executed, what is queued and what is
/// recorded grow by the same commands in the same order: after the list is
/// sealed, the queue holds what it held when the compilation began followed
/// by exactly the commands of the sealed list.
pub proof fn lemma_compile_and_execute(gl: ContextModel, name: u32, cmds: Seq<Command>)
    requires
        gl.compiling is None,
    ensures
        gl.begun(name, true).submitted_all(cmds).ended().pending == gl.pending + cmds,
        gl.begun(name, true).submitted_all(cmds).ended().lists == gl.lists.insert(name, cmds),
        gl.begun(name, true).submitted_all(cmds).ended().wf(),
{
    lemma_submitted_all(gl.begun(name, true), cmds);
    assert(Seq::<Command>::empty() + cmds == cmds);
}

/// While a list is only compiled, nothing is queued: after the list is
/// sealed, the queue is what it was when the compilation began, and the list
/// holds exactly the commands submitted, in order.
pub proof fn lemma_compile_only(gl: ContextModel, name: u32, cmds: Seq<Command>)
    requires
        gl.compiling is None,
    ensures
        gl.begun(name, false).submitted_all(cmds).ended().pending == gl.pending,
        gl.begun(name, false).submitted_all(cmds).ended().lists == gl.lists.insert(name, cmds),
        gl.begun(name, false).submitted_all(cmds).ended().wf(),
{
    lemma_submitted_all(gl.begun(name, false), cmds);
    assert(Seq::<Command>::empty() + cmds == cmds);
}

/// A name is handed out once: of two requests for names, the second is
/// answered with names that all lie above those of the first.
pub proof fn lemma_names_never_reused(gl: ContextModel, first: u32, second: u32, a: int, b: int)
    requires
        gl.first_unused_list + first + second <= u32::MAX,
        gl.first_unused_list <= a < gl.generated(first).first_unused_list,
        gl.generated(first).first_unused_list <= b < gl.generated(first).generated(
            second,
        ).first_unused_list,
    ensures
        a < b,
{
}

/// What submitting a sequence of commands comes to: each goes to the list
/// being compiled, if there is one, and to the queue, if commands are
/// executed; nothing else changes and no command is lost.
pub proof fn lemma_submitted_all(gl: ContextModel, cmds: Seq<Command>)
    ensures
        gl.submitted_all(cmds) == (ContextModel {
            pending: if gl.execute_immediately {
                gl.pending + cmds
            } else {
                gl.pending
            },
            compiling: match gl.compiling {
                Some((name, recorded)) => Some((name, recorded + cmds)),
                None => None,
            },
            ..gl
        }),
    decreases cmds.len(),
{
    if cmds.len() == 0 {
        assert(gl.pending + cmds == gl.pending);
        match gl.compiling {
            Some((name, recorded)) => {
                assert(recorded + cmds == recorded);
            },
            None => {},
        }
    } else {
        let next = gl.submitted(cmds[0]);
        lemma_submitted_all(next, cmds.skip(1));
        assert(gl.pending.push(cmds[0]) + cmds.skip(1) == gl.pending + cmds);
        match gl.compiling {
            Some((name, recorded)) => {
                assert(recorded.push(cmds[0]) + cmds.skip(1) == recorded + cmds);
            },
            None => {},
        }
    }
}

/// What one thread holds of the graphics context that is current on it.
#[derive(Debug)]
pub enum TlsState {
    /// No context is installed on the thread.
    Empty,
    /// A context is installed and no call is working on it.
    Present(Box<Context>),
    /// A context is installed and the call named `blame` is working on it.
    InUse { blame: &'static str },
}

impl TlsState {
    /// Whether no context is installed.
    pub fn is_empty(&self) -> (empty: bool)
        ensures
            empty == (*self is Empty),
    {
        match self {
            TlsState::Empty => true,
            _ => false,
        }
    }

    /// Whether a context is installed and free for a call to work on.
    pub fn is_present(&self) -> (present: bool)
        ensures
            present == (*self is Present),
    {
        match self {
            TlsState::Present(_) => true,
            _ => false,
        }
    }

    /// The call that is working on the context, if one is.
    pub fn in_use_by(&self) -> (blame: Option<&'static str>)
        ensures
            blame == (match *self {
                TlsState::InUse { blame } => Some(blame),
                _ => None,
            }),
    {
        match self {
            TlsState::InUse { blame } => Some(*blame),
            _ => None,
        }
    }

    /// The call `blame` starts to work on the installed context: the context
    /// leaves the slot, which remembers who has it.
    pub fn begin_use(&mut self, blame: &'static str) -> (gl: Box<Context>)
        requires
            *old(self) is Present,
        ensures
            *old(self) == TlsState::Present(gl),
            *final(self) == (TlsState::InUse { blame }),
    {
        let mut taken = TlsState::InUse { blame };
        std::mem::swap(self, &mut taken);
        match taken {
            TlsState::Present(gl) => gl,
            _ => vstd::pervasive::unreached(),
        }
    }

    /// The call that was working on the context is done with it: the context
    /// is installed again, free for the next call.
    pub fn end_use(&mut self, gl: Box<Context>)
        requires
            *old(self) is InUse,
        ensures
            *final(self) == TlsState::Present(gl),
    {
        *self = TlsState::Present(gl);
    }
}

impl Context {
    /// Installs the context on a thread that has none.
    pub fn enter(self: Box<Self>, slot: &mut TlsState)
        requires
            *old(slot) is Empty,
        ensures
            *final(slot) == TlsState::Present(self),
    {
        *slot = TlsState::Present(self);
    }

    /// Removes the context installed on a thread and returns it, or `None`
    /// where the thread had none.
    pub fn leave(slot: &mut TlsState) -> (left: Option<Box<Self>>)
        requires
            !(*old(slot) is InUse),
        ensures
            *final(slot) is Empty,
            left == (match *old(slot) {
                TlsState::Present(gl) => Some(gl),
                _ => None,
            }),
    {
        let mut taken = TlsState::Empty;
        std::mem::swap(slot, &mut taken);
        match taken {
            TlsState::Present(gl) => Some(gl),
            _ => None,
        }
    }

    /// Runs `f` on the context installed on a thread. While `f` runs the slot
    /// says that `blame` is at work; afterwards the context that `f` hands
    /// back is installed, free for the next call.
    pub fn with<R, F: FnOnce(Box<Context>) -> (Box<Context>, R)>(
        slot: &mut TlsState,
        blame: &'static str,
        f: F,
    ) -> (r: R)
        requires
            *old(slot) is Present,
            call_requires(f, (old(slot)->Present_0,)),
        ensures
            *final(slot) is Present,
            call_ensures(f, (old(slot)->Present_0,), (final(slot)->Present_0, r)),
    {
        let gl = slot.begin_use(blame);
        let (gl, r) = f(gl);
        slot.end_use(gl);
        r
    }
}

} // verus!
