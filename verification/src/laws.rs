//! Laws of the server's observable behaviour, stated over the spec-level
//! models that the executable contracts speak of: the store as a
//! `Map<Seq<char>, Seq<u8>>` and commands, responses and read outcomes as
//! their models.

use vstd::prelude::*;

use crate::protocol::{CommandModel, ResponseModel};
use crate::session::{
    action_after_read, ok_text, response_of, state_after_read, store_after, store_after_read,
    ConnState, EventModel,
};

verus! {

/// The store contents after a whole run of commands is applied in order.
pub open spec fn store_after_all(
    m: Map<Seq<char>, Seq<u8>>,
    cmds: Seq<CommandModel>,
) -> Map<Seq<char>, Seq<u8>>
    decreases cmds.len(),
{
    if cmds.len() == 0 {
        m
    } else {
        store_after_all(store_after(m, cmds[0]), cmds.drop_first())
    }
}

/// Whether `c` writes key `k`.
pub open spec fn writes_key(c: CommandModel, k: Seq<char>) -> bool {
    c matches CommandModel::Put { key, .. } && key == k
}

/// Once a `Put` of `v` under `k` has completed, a `Get` of `k` — on this or
/// any other connection, since all connections read the one store — is
/// answered with `Bulk(v)`.
pub proof fn lemma_put_then_get(m: Map<Seq<char>, Seq<u8>>, k: Seq<char>, v: Seq<u8>)
    ensures
        response_of(
            store_after(m, CommandModel::Put { key: k, value: v }),
            CommandModel::Get { key: k },
        ) == ResponseModel::Bulk(v),
{
}

/// ... and it stays `Bulk(v)` until `k` is overwritten: a command that does
/// not write `k` changes neither whether `k` is bound nor what a `Get` of
/// `k` returns.
pub proof fn lemma_get_stable_until_overwritten(
    m: Map<Seq<char>, Seq<u8>>,
    c: CommandModel,
    k: Seq<char>,
)
    requires
        !writes_key(c, k),
    ensures
        store_after(m, c).contains_key(k) == m.contains_key(k),
        response_of(store_after(m, c), CommandModel::Get { key: k }) == response_of(
            m,
            CommandModel::Get { key: k },
        ),
{
}

/// A `Get` of a key that no command of the run ever wrote, starting from the
/// empty store, is answered with `Null`.
pub proof fn lemma_get_never_written(cmds: Seq<CommandModel>, k: Seq<char>)
    requires
        forall|i: int| 0 <= i < cmds.len() ==> !writes_key(#[trigger] cmds[i], k),
    ensures
        !store_after_all(Map::empty(), cmds).contains_key(k),
        response_of(store_after_all(Map::empty(), cmds), CommandModel::Get { key: k })
            == ResponseModel::Null,
{
    lemma_unwritten_key_stays_absent(Map::empty(), cmds, k);
}

/// A run of commands none of which writes `k` never binds `k`.
proof fn lemma_unwritten_key_stays_absent(
    m: Map<Seq<char>, Seq<u8>>,
    cmds: Seq<CommandModel>,
    k: Seq<char>,
)
    requires
        !m.contains_key(k),
        forall|i: int| 0 <= i < cmds.len() ==> !writes_key(#[trigger] cmds[i], k),
    ensures
        !store_after_all(m, cmds).contains_key(k),
    decreases cmds.len(),
{
    if cmds.len() > 0 {
        assert(!writes_key(cmds[0], k));
        lemma_unwritten_key_stays_absent(store_after(m, cmds[0]), cmds.drop_first(), k);
    }
}

/// Issuing the same `Put` twice in sequence leaves exactly the store a single
/// `Put` leaves, and both are acknowledged alike.
pub proof fn lemma_put_idempotent(m: Map<Seq<char>, Seq<u8>>, k: Seq<char>, v: Seq<u8>)
    ensures
        store_after(
            store_after(m, CommandModel::Put { key: k, value: v }),
            CommandModel::Put { key: k, value: v },
        ) == store_after(m, CommandModel::Put { key: k, value: v }),
        response_of(store_after(m, CommandModel::Put { key: k, value: v }),
            CommandModel::Put { key: k, value: v },
        ) == response_of(m, CommandModel::Put { key: k, value: v }),
{
    assert(m.insert(k, v).insert(k, v) =~= m.insert(k, v));
}

/// Every `Put` completes with the `Simple` acknowledgement, whatever the
/// store holds when it is dispatched.
pub proof fn lemma_put_always_acknowledged(m: Map<Seq<char>, Seq<u8>>, c: CommandModel)
    requires
        c is Put,
    ensures
        response_of(m, c) == ResponseModel::Simple(ok_text()),
{
}

/// Concurrent `Put`s on one key, serialized by the store's lock in whatever
/// order they acquire it: each is acknowledged, the key ends up bound, and
/// the final value is exactly the value of the last `Put` in the order — one
/// of the contenders' values whole, never a mixture.
pub proof fn lemma_contending_puts(
    m: Map<Seq<char>, Seq<u8>>,
    cmds: Seq<CommandModel>,
    k: Seq<char>,
)
    requires
        cmds.len() > 0,
        forall|i: int| 0 <= i < cmds.len() ==> writes_key(#[trigger] cmds[i], k),
    ensures
        forall|i: int| 0 <= i < cmds.len() ==> response_of(
            store_after_all(m, cmds.take(i)),
            #[trigger] cmds[i],
        ) == ResponseModel::Simple(ok_text()),
        store_after_all(m, cmds).contains_key(k),
        store_after_all(m, cmds)[k] == cmds.last()->Put_value,
        exists|i: int|
            0 <= i < cmds.len() && store_after_all(m, cmds)[k] == #[trigger] cmds[i]->Put_value,
    decreases cmds.len(),
{
    if cmds.len() == 1 {
        assert(store_after_all(store_after(m, cmds[0]), cmds.drop_first()) == store_after(
            m,
            cmds[0],
        ));
    } else {
        let m1 = store_after(m, cmds[0]);
        let rest = cmds.drop_first();
        assert(forall|i: int| 0 <= i < rest.len() ==> writes_key(#[trigger] rest[i], k)) by {
            assert(forall|i: int|
                0 <= i < rest.len() ==> rest[i] == #[trigger] cmds[i + 1]);
        }
        lemma_contending_puts(m1, rest, k);
        assert(rest.last() == cmds.last());
    }
    assert(cmds.last() == cmds[cmds.len() - 1]);
}

/// A frame is written only for a session that goes on serving: after any
/// read outcome, either exactly one response is owed and the session still
/// serves, or nothing at all is written and the session is closed. In
/// particular no response frame, partial or whole, follows a fault or the
/// end of the stream.
pub proof fn lemma_write_only_while_serving(m: Map<Seq<char>, Seq<u8>>, ev: EventModel)
    ensures
        (action_after_read(m, ev) is Write) <==> (state_after_read(ev) == ConnState::Serving),
        (action_after_read(m, ev) is Stop) <==> (state_after_read(ev) is Closed),
{
}

/// A framing or I/O fault on one connection leaves the store exactly as it
/// was, so every response later served on any other connection is exactly
/// what it would have been; the faulted connection itself merely stops.
pub proof fn lemma_fault_isolation(
    m: Map<Seq<char>, Seq<u8>>,
    ev: EventModel,
    c: CommandModel,
)
    requires
        ev == EventModel::FramingFault || ev == EventModel::IoFault,
    ensures
        store_after_read(m, ev) == m,
        action_after_read(m, ev) is Stop,
        response_of(store_after_read(m, ev), c) == response_of(m, c),
{
}

} // verus!
