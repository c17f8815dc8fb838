use crate::gl::api_1_0::Command;
use crate::gl::state::{
    is_forwarded, transform_of, Forwarded, MatrixMode, Multiplication, Product, Shape, StateModel,
};
use vstd::prelude::*;

verus! {

/// The commands that interpreting `cmd` comes to, in order: `cmd` itself, or,
/// for a list call, what the list's commands come to. No list call is left in
/// it.
pub open spec fn flatten(cmd: Command) -> Seq<Command>
    decreases cmd,
{
    match cmd {
        Command::glCallList(list) => flatten_all(list.cmds@),
        _ => seq![cmd],
    }
}

/// The commands that interpreting `cmds` in order comes to.
pub open spec fn flatten_all(cmds: Seq<Command>) -> Seq<Command>
    decreases cmds,
{
    if cmds.len() == 0 {
        Seq::empty()
    } else {
        flatten(cmds[0]) + flatten_all(cmds.skip(1))
    }
}

/// Flattening leaves no list call.
pub proof fn lemma_flatten_is_flat(cmd: Command)
    ensures
        forall|i: int| 0 <= i < flatten(cmd).len() ==> !(#[trigger] flatten(cmd)[i] is glCallList),
    decreases cmd,
{
    match cmd {
        Command::glCallList(list) => {
            lemma_flatten_all_is_flat(list.cmds@);
        },
        _ => {},
    }
}

/// Flattening a sequence leaves no list call.
pub proof fn lemma_flatten_all_is_flat(cmds: Seq<Command>)
    ensures
        forall|i: int|
            0 <= i < flatten_all(cmds).len() ==> !(#[trigger] flatten_all(cmds)[i] is glCallList),
    decreases cmds,
{
    if cmds.len() > 0 {
        lemma_flatten_is_flat(cmds[0]);
        lemma_flatten_all_is_flat(cmds.skip(1));
    }
}

/// Interpreting one sequence after another is interpreting the two joined:
/// the same state at the end and the same commands handed on.
pub proof fn lemma_after_all_concat(
    s: StateModel,
    a: Seq<Command>,
    b: Seq<Command>,
    product: Product,
)
    ensures
        s.after_all(a + b, product) == s.after_all(a, product).after_all(b, product),
        s.forwards_all(a + b, product) == s.forwards_all(a, product) + s.after_all(
            a,
            product,
        ).forwards_all(b, product),
        s.composes_all(a + b, product) == s.composes_all(a, product) + s.after_all(
            a,
            product,
        ).composes_all(b, product),
    decreases a.len(),
{
    if a.len() == 0 {
        assert(a + b == b);
        assert(Seq::<Forwarded>::empty() + s.forwards_all(b, product)
            == s.forwards_all(b, product));
        assert(Seq::<Multiplication>::empty() + s.composes_all(b, product)
            == s.composes_all(b, product));
    } else {
        assert((a + b)[0] == a[0]);
        assert((a + b).skip(1) == a.skip(1) + b);
        let next = s.after(a[0], product);
        lemma_after_all_concat(next, a.skip(1), b, product);
        assert(s.forwards(a[0], product) + (next.forwards_all(a.skip(1), product)
            + next.after_all(a.skip(1), product).forwards_all(b, product)) == (s.forwards(
            a[0],
            product,
        ) + next.forwards_all(a.skip(1), product)) + next.after_all(
            a.skip(1),
            product,
        ).forwards_all(b, product));
        assert(s.composes(a[0], product) + (next.composes_all(a.skip(1), product)
            + next.after_all(a.skip(1), product).composes_all(b, product)) == (s.composes(
            a[0],
            product,
        ) + next.composes_all(a.skip(1), product)) + next.after_all(
            a.skip(1),
            product,
        ).composes_all(b, product));
    }
}

/// Whether two sequences can be applied one after the other is whether the
/// two joined can be applied, and the shape at the end is the same.
pub proof fn lemma_shape_concat(s: Shape, a: Seq<Command>, b: Seq<Command>)
    ensures
        s.after_all(a + b) == s.after_all(a).after_all(b),
        s.admits_all(a + b) == (s.admits_all(a) && s.after_all(a).admits_all(b)),
    decreases a.len(),
{
    if a.len() == 0 {
        assert(a + b == b);
    } else {
        assert((a + b)[0] == a[0]);
        assert((a + b).skip(1) == a.skip(1) + b);
        lemma_shape_concat(s.after(a[0]), a.skip(1), b);
    }
}

/// Interpreting a sequence of one command is interpreting the command.
pub proof fn lemma_after_all_single(s: StateModel, cmd: Command, product: Product)
    ensures
        s.after_all(seq![cmd], product) == s.after(cmd, product),
        s.forwards_all(seq![cmd], product) == s.forwards(cmd, product),
        s.composes_all(seq![cmd], product) == s.composes(cmd, product),
{
    let one = seq![cmd];
    let next = s.after(cmd, product);
    assert(one[0] == cmd);
    assert(one.skip(1).len() == 0);
    assert(next.after_all(one.skip(1), product) == next);
    assert(next.forwards_all(one.skip(1), product) == Seq::<Forwarded>::empty());
    assert(s.forwards(cmd, product) + Seq::<Forwarded>::empty() == s.forwards(
        cmd,
        product,
    ));
    assert(next.composes_all(one.skip(1), product) == Seq::<Multiplication>::empty());
    assert(s.composes(cmd, product) + Seq::<Multiplication>::empty() == s.composes(
        cmd,
        product,
    ));
}

/// A command does to a state, and hands on, exactly what its flattening
/// does: a called list is replayed as if its commands had been given directly,
/// however deep the calls are nested.
pub proof fn lemma_replay(s: StateModel, cmd: Command, product: Product)
    ensures
        s.after(cmd, product) == s.after_all(flatten(cmd), product),
        s.forwards(cmd, product) == s.forwards_all(flatten(cmd), product),
        s.composes(cmd, product) == s.composes_all(flatten(cmd), product),
    decreases cmd,
{
    match cmd {
        Command::glCallList(list) => {
            lemma_replay_all(s, list.cmds@, product);
        },
        _ => {
            lemma_after_all_single(s, cmd, product);
        },
    }
}

/// A sequence of commands does to a state, and hands on, exactly what its
/// flattening does.
pub proof fn lemma_replay_all(s: StateModel, cmds: Seq<Command>, product: Product)
    ensures
        s.after_all(cmds, product) == s.after_all(flatten_all(cmds), product),
        s.forwards_all(cmds, product) == s.forwards_all(flatten_all(cmds), product),
        s.composes_all(cmds, product) == s.composes_all(flatten_all(cmds), product),
    decreases cmds,
{
    if cmds.len() > 0 {
        let next = s.after(cmds[0], product);
        lemma_replay(s, cmds[0], product);
        lemma_replay_all(next, cmds.skip(1), product);
        lemma_after_all_concat(s, flatten(cmds[0]), flatten_all(cmds.skip(1)), product);
    }
}

/// Whether a command can be applied, and the shape it leaves, are those of
/// its flattening.
pub proof fn lemma_shape_replay(s: Shape, cmd: Command)
    ensures
        s.admits(cmd) == s.admits_all(flatten(cmd)),
        s.after(cmd) == s.after_all(flatten(cmd)),
    decreases cmd,
{
    match cmd {
        Command::glCallList(list) => {
            lemma_shape_replay_all(s, list.cmds@);
        },
        _ => {
            let one = seq![cmd];
            let next = s.after(cmd);
            assert(one[0] == cmd);
            assert(one.skip(1).len() == 0);
            assert(next.admits_all(one.skip(1)));
            assert(next.after_all(one.skip(1)) == next);
        },
    }
}

/// Whether a sequence of commands can be applied, and the shape it leaves,
/// are those of its flattening.
pub proof fn lemma_shape_replay_all(s: Shape, cmds: Seq<Command>)
    ensures
        s.admits_all(cmds) == s.admits_all(flatten_all(cmds)),
        s.after_all(cmds) == s.after_all(flatten_all(cmds)),
    decreases cmds,
{
    if cmds.len() > 0 {
        lemma_shape_replay(s, cmds[0]);
        lemma_shape_replay_all(s.after(cmds[0]), cmds.skip(1));
        lemma_shape_concat(s, flatten(cmds[0]), flatten_all(cmds.skip(1)));
    }
}

/// Calling a list is interpreting its commands in order: the state after the
/// call, what the call hands on and the commands it comes to are those of the
/// list's commands.
pub proof fn lemma_call_list_replays(s: StateModel, cmd: Command, product: Product)
    requires
        cmd is glCallList,
    ensures
        s.after(cmd, product) == s.after_all(cmd->glCallList_0.cmds@, product),
        s.forwards(cmd, product) == s.forwards_all(cmd->glCallList_0.cmds@, product),
        s.composes(cmd, product) == s.composes_all(cmd->glCallList_0.cmds@, product),
        s.admits(cmd) == s.admits_all(cmd->glCallList_0.cmds@),
        flatten(cmd) == flatten_all(cmd->glCallList_0.cmds@),
{
}

/// Whether a command leaves alone which stack is selected and what is saved
/// on the stacks: it sets or multiplies the current matrix, or is handed on.
pub open spec fn is_mutation(cmd: Command) -> bool {
    cmd is glLoadIdentity || transform_of(cmd) is Some || is_forwarded(cmd)
}

/// Commands that only mutate the current matrix leave everything else of the
/// state as it was.
pub proof fn lemma_mutations_keep_stacks(s: StateModel, body: Seq<Command>, product: Product)
    requires
        forall|i: int| 0 <= i < body.len() ==> is_mutation(#[trigger] body[i]),
    ensures
        s.after_all(body, product).mode == s.mode,
        s.after_all(body, product).modelview.stack == s.modelview.stack,
        s.after_all(body, product).projection.stack == s.projection.stack,
        s.mode == MatrixMode::ModelView ==> s.after_all(
            body,
            product,
        ).projection == s.projection,
        s.mode == MatrixMode::Projection ==> s.after_all(
            body,
            product,
        ).modelview == s.modelview,
    decreases body.len(),
{
    if body.len() > 0 {
        assert(is_mutation(body[0]));
        let rest = body.skip(1);
        assert forall|i: int| 0 <= i < rest.len() implies is_mutation(#[trigger] rest[i]) by {
            assert(rest[i] == body[i + 1]);
        }
        lemma_mutations_keep_stacks(s.after(body[0], product), rest, product);
    }
}

/// Saving the current matrix, mutating it in any way and restoring it gives
/// back the state from before the save, exactly.
pub proof fn lemma_push_pop_restores(s: StateModel, body: Seq<Command>, product: Product)
    requires
        forall|i: int| 0 <= i < body.len() ==> is_mutation(#[trigger] body[i]),
    ensures
        s.after_all(seq![Command::glPushMatrix] + body + seq![Command::glPopMatrix], product) == s,
{
    let push = seq![Command::glPushMatrix];
    let pop = seq![Command::glPopMatrix];
    let saved = s.after_all(push, product);
    lemma_after_all_single(s, Command::glPushMatrix, product);
    assert(saved == s.after_one(Command::glPushMatrix, product));
    let mutated = saved.after_all(body, product);
    lemma_mutations_keep_stacks(saved, body, product);
    lemma_after_all_concat(s, push, body, product);
    lemma_after_all_concat(s, push + body, pop, product);
    lemma_after_all_single(mutated, Command::glPopMatrix, product);
    assert(mutated.after_all(pop, product) == mutated.after_one(Command::glPopMatrix, product));
    let restored = mutated.after_one(Command::glPopMatrix, product);
    assert(s.active().stack.push(s.active().mat).drop_last() == s.active().stack);
    assert(restored.active().stack == s.active().stack);
    assert(restored.active() == s.active());
    assert(restored == s);
}

/// The same holds where the mutations stand in called lists, however deep:
/// saving the current matrix, interpreting commands that come to mutations
/// only, and restoring it gives back the state from before the save.
pub proof fn lemma_push_pop_restores_through_lists(
    s: StateModel,
    body: Seq<Command>,
    product: Product,
)
    requires
        forall|i: int| 0 <= i < flatten_all(body).len() ==> is_mutation(
            #[trigger] flatten_all(body)[i],
        ),
    ensures
        s.after_all(seq![Command::glPushMatrix] + body + seq![Command::glPopMatrix], product) == s,
{
    let push = seq![Command::glPushMatrix];
    let pop = seq![Command::glPopMatrix];
    let flat = flatten_all(body);
    let saved = s.after_all(push, product);
    lemma_after_all_concat(s, push, body, product);
    lemma_after_all_concat(s, push + body, pop, product);
    lemma_replay_all(saved, body, product);
    lemma_after_all_concat(s, push, flat, product);
    lemma_after_all_concat(s, push + flat, pop, product);
    lemma_push_pop_restores(s, flat, product);
}

} // verus!
