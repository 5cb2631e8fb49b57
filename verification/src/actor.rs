//! Decision logic of the connection actor.
//!
//! The actor owns the single backend connection and is the sole consumer of
//! a multiple-producer FIFO command channel, so commands are executed one at
//! a time, in the order observed. The loop that waits on the channel and
//! talks to the backend lives outside this crate; everything it decides —
//! which wire operation a command asks for, when to stop, and that one
//! command's failure never stops the loop — is here.

use vstd::prelude::*;
use crate::key::{ComponentKey, EntityKey, ReplyValue};
use crate::key::{component_le_bytes, encode_component_key, encode_entity_key, entity_encoding};

verus! {

/// A command sent from a caller to the connection actor. Commands are
/// processed strictly in the order received.
#[derive(Debug, PartialEq, Eq)]
pub enum DatabaseCommand {
    /// Read the payload stored for this entity under this component type.
    Get { entity: EntityKey, component: ComponentKey },
    /// Store a payload for this entity under this component type.
    Put { entity: EntityKey, component: ComponentKey, payload: Vec<u8> },
    /// Remove the payload stored for this entity under this component type.
    Delete { entity: EntityKey, component: ComponentKey },
    /// Stop the actor. Commands behind this one are never executed.
    Shutdown,
}

/// What the actor observes each time it waits on the command channel: the
/// next command, or closure of the channel (every sender dropped).
pub enum ActorEvent {
    Received(DatabaseCommand),
    Closed,
}

/// One operation against the backend, its arguments already in wire
/// encoding: the entity key as its 16 raw bytes, the component key as its 2
/// little-endian bytes.
#[derive(Debug, PartialEq, Eq)]
pub enum BackendOp {
    Fetch { key: Vec<u8>, field: Vec<u8> },
    Store { key: Vec<u8>, field: Vec<u8>, payload: Vec<u8> },
    Remove { key: Vec<u8>, field: Vec<u8> },
}

/// A backend operation as the byte sequences it carries.
pub enum WireOp {
    Fetch { key: Seq<u8>, field: Seq<u8> },
    Store { key: Seq<u8>, field: Seq<u8>, payload: Seq<u8> },
    Remove { key: Seq<u8>, field: Seq<u8> },
}

impl View for BackendOp {
    type V = WireOp;

    open spec fn view(&self) -> WireOp {
        match self {
            BackendOp::Fetch { key, field } => WireOp::Fetch { key: key@, field: field@ },
            BackendOp::Store { key, field, payload } => WireOp::Store {
                key: key@,
                field: field@,
                payload: payload@,
            },
            BackendOp::Remove { key, field } => WireOp::Remove { key: key@, field: field@ },
        }
    }
}

/// Whether the actor's loop is still accepting commands.
#[derive(Clone, Copy, Debug, PartialEq, Eq, Structural)]
pub enum ActorStatus {
    /// Waiting for the next command; the connection is held.
    Running,
    /// The loop has exited: a shutdown command was processed or the channel
    /// closed.
    Stopped,
}

/// What the actor must do next.
#[derive(Debug, PartialEq, Eq)]
pub enum ActorAction {
    /// Execute this operation on the connection and report the outcome to
    /// the command's caller, if it asked for one.
    Execute(BackendOp),
    /// Release the connection and exit the loop.
    Stop,
}

/// The outcome of one executed backend operation, as reported back to the
/// command's caller.
#[derive(Debug, PartialEq, Eq)]
pub enum BackendOutcome {
    /// The backend's reply to the operation.
    Succeeded(ReplyValue),
    /// The backend failed this one operation.
    Failed,
}

/// The wire operation a command asks for; `None` exactly for the shutdown
/// command, which asks for no operation.
pub open spec fn op_of_command(c: DatabaseCommand) -> Option<WireOp> {
    match c {
        DatabaseCommand::Get { entity, component } => Some(
            WireOp::Fetch {
                key: entity_encoding(entity),
                field: component_le_bytes(component.0),
            },
        ),
        DatabaseCommand::Put { entity, component, payload } => Some(
            WireOp::Store {
                key: entity_encoding(entity),
                field: component_le_bytes(component.0),
                payload: payload@,
            },
        ),
        DatabaseCommand::Delete { entity, component } => Some(
            WireOp::Remove {
                key: entity_encoding(entity),
                field: component_le_bytes(component.0),
            },
        ),
        DatabaseCommand::Shutdown => None,
    }
}

/// Encodes the operation a command asks for, using the key codec; `None`
/// exactly for the shutdown command.
pub fn op_of(c: &DatabaseCommand) -> (r: Option<BackendOp>)
    ensures
        r matches Some(op) ==> op_of_command(*c) == Some(op@),
        r is None <==> op_of_command(*c) is None,
{
    match c {
        DatabaseCommand::Get { entity, component } => Some(
            BackendOp::Fetch { key: encode_entity_key(entity), field: encode_component_key(component) },
        ),
        DatabaseCommand::Put { entity, component, payload } => {
            let mut bytes: Vec<u8> = Vec::new();
            let mut i: usize = 0;
            while i < payload.len()
                invariant
                    i <= payload@.len(),
                    bytes@ == payload@.take(i as int),
                decreases payload@.len() - i,
            {
                bytes.push(payload[i]);
                i += 1;
            }
            proof {
                assert(bytes@ =~= payload@);
            }
            Some(
                BackendOp::Store {
                    key: encode_entity_key(entity),
                    field: encode_component_key(component),
                    payload: bytes,
                },
            )
        },
        DatabaseCommand::Delete { entity, component } => Some(
            BackendOp::Remove { key: encode_entity_key(entity), field: encode_component_key(component) },
        ),
        DatabaseCommand::Shutdown => None,
    }
}

/// One decision of the running actor: the observed event determines the next
/// status and the action to take. Only a shutdown command or a closed
/// channel stops the loop; every other command is executed and leaves the
/// actor running.
pub fn actor_step(event: &ActorEvent) -> (r: (ActorStatus, ActorAction))
    ensures
        *event matches ActorEvent::Received(c) ==> (match op_of_command(c) {
            Some(op) => r.0 is Running && (r.1 matches ActorAction::Execute(o) && o@ == op),
            None => r.0 is Stopped && r.1 is Stop,
        }),
        *event is Closed ==> r.0 is Stopped && r.1 is Stop,
{
    match event {
        ActorEvent::Received(c) => {
            match op_of(c) {
                Some(op) => (ActorStatus::Running, ActorAction::Execute(op)),
                None => (ActorStatus::Stopped, ActorAction::Stop),
            }
        },
        ActorEvent::Closed => (ActorStatus::Stopped, ActorAction::Stop),
    }
}

/// Absorbs the outcome of one executed operation. The outcome is reported
/// to that command's caller alone and never changes the actor's status: a
/// transient backend failure is isolated to the command that hit it, and
/// the loop goes on to the next command. (Loss of the connection itself has
/// no recovery here: this design does not reconnect, it keeps serving the
/// queue on the connection it holds.)
pub fn actor_resume(status: ActorStatus, outcome: &BackendOutcome) -> (r: ActorStatus)
    ensures
        r == status,
{
    match outcome {
        BackendOutcome::Succeeded(_) => status,
        BackendOutcome::Failed => status,
    }
}

/// Whether a queue of commands contains a shutdown command.
pub open spec fn contains_shutdown(cmds: Seq<DatabaseCommand>) -> bool {
    exists|i: int| 0 <= i < cmds.len() && cmds[i] is Shutdown
}

/// The operations a run of the actor executes for a queue of commands
/// observed in this order: one per command ahead of the first shutdown, in
/// the same order, and none from the shutdown on.
pub open spec fn ops_of(cmds: Seq<DatabaseCommand>) -> Seq<WireOp>
    decreases cmds.len(),
{
    if cmds.len() == 0 {
        Seq::empty()
    } else {
        match op_of_command(cmds[0]) {
            Some(op) => seq![op] + ops_of(cmds.drop_first()),
            None => Seq::empty(),
        }
    }
}

/// Law: command order is preserved. For any front part of the queue that
/// holds no shutdown, the operations of its commands are executed first, in
/// their own order, followed by those of the commands behind them —
/// whichever callers submitted them.
pub proof fn lemma_commands_executed_in_order(
    front: Seq<DatabaseCommand>,
    back: Seq<DatabaseCommand>,
)
    requires
        !contains_shutdown(front),
    ensures
        ops_of(front + back) == ops_of(front) + ops_of(back),
    decreases front.len(),
{
    if front.len() == 0 {
        assert(front + back =~= back);
        assert(ops_of(front) + ops_of(back) =~= ops_of(back));
    } else {
        assert(!(front[0] is Shutdown));
        assert((front + back)[0] == front[0]);
        assert((front + back).drop_first() =~= front.drop_first() + back);
        assert(!contains_shutdown(front.drop_first())) by {
            assert forall|i: int| 0 <= i < front.drop_first().len() implies !(
            #[trigger] front.drop_first()[i] is Shutdown) by {
                assert(front.drop_first()[i] == front[i + 1]);
            }
        }
        lemma_commands_executed_in_order(front.drop_first(), back);
        let op = op_of_command(front[0])->Some_0;
        assert(ops_of(front + back) =~= seq![op] + (ops_of(front.drop_first()) + ops_of(back)));
        assert(seq![op] + (ops_of(front.drop_first()) + ops_of(back)) =~= (seq![op] + ops_of(
            front.drop_first(),
        )) + ops_of(back));
        assert(ops_of(front) =~= seq![op] + ops_of(front.drop_first()));
    }
}

/// Law: the effects are applied in submission order, one per command. For a
/// queue with no shutdown, the i-th executed operation is exactly the
/// operation the i-th observed command asks for.
pub proof fn lemma_each_command_executed_in_place(cmds: Seq<DatabaseCommand>)
    requires
        !contains_shutdown(cmds),
    ensures
        ops_of(cmds).len() == cmds.len(),
        forall|i: int| 0 <= i < cmds.len() ==> ops_of(cmds)[i] == op_of_command(
            cmds[i],
        )->Some_0,
    decreases cmds.len(),
{
    if cmds.len() > 0 {
        assert(!(cmds[0] is Shutdown));
        assert(!contains_shutdown(cmds.drop_first())) by {
            assert forall|i: int| 0 <= i < cmds.drop_first().len() implies !(
            #[trigger] cmds.drop_first()[i] is Shutdown) by {
                assert(cmds.drop_first()[i] == cmds[i + 1]);
            }
        }
        lemma_each_command_executed_in_place(cmds.drop_first());
        let op = op_of_command(cmds[0])->Some_0;
        assert(ops_of(cmds) =~= seq![op] + ops_of(cmds.drop_first()));
        assert forall|i: int| 0 <= i < cmds.len() implies ops_of(cmds)[i] == op_of_command(
            cmds[i],
        )->Some_0 by {
            if i > 0 {
                assert(ops_of(cmds)[i] == ops_of(cmds.drop_first())[i - 1]);
                assert(cmds.drop_first()[i - 1] == cmds[i]);
            }
        }
    }
}

/// Law: after a shutdown command nothing more is executed. Whatever commands
/// are enqueued behind the first shutdown, the executed operations are
/// exactly those of the commands ahead of it.
pub proof fn lemma_shutdown_halts(front: Seq<DatabaseCommand>, back: Seq<DatabaseCommand>)
    ensures
        ops_of(front + seq![DatabaseCommand::Shutdown] + back) == ops_of(front),
    decreases front.len(),
{
    let whole = front + seq![DatabaseCommand::Shutdown] + back;
    if front.len() == 0 {
        assert(whole[0] is Shutdown);
        assert(ops_of(front) =~= Seq::<WireOp>::empty());
    } else {
        assert(whole[0] == front[0]);
        assert(whole.drop_first() =~= front.drop_first() + seq![DatabaseCommand::Shutdown] + back);
        lemma_shutdown_halts(front.drop_first(), back);
        match op_of_command(front[0]) {
            Some(op) => {
                assert(ops_of(whole) =~= seq![op] + ops_of(front.drop_first()));
                assert(ops_of(front) =~= seq![op] + ops_of(front.drop_first()));
            },
            None => {
                assert(ops_of(front) =~= Seq::<WireOp>::empty());
            },
        }
    }
}

/// Drains a queue of commands that were all observed in this order: encodes
/// and returns, in order, the operations to execute, stopping at the first
/// shutdown. The returned status says whether the queue stopped the actor
/// or left it running, waiting for more commands.
pub fn process_batch(cmds: &Vec<DatabaseCommand>) -> (r: (Vec<BackendOp>, ActorStatus))
    ensures
        r.0@.map_values(|o: BackendOp| o@) == ops_of(cmds@),
        r.1 is Stopped <==> contains_shutdown(cmds@),
{
    let mut ops: Vec<BackendOp> = Vec::new();
    let mut i: usize = 0;
    while i < cmds.len()
        invariant
            i <= cmds@.len(),
            ops@.map_values(|o: BackendOp| o@) == ops_of(cmds@.take(i as int)),
            forall|j: int| 0 <= j < i ==> !(#[trigger] cmds@[j] is Shutdown),
        decreases cmds@.len() - i,
    {
        match op_of(&cmds[i]) {
            Some(op) => {
                proof {
                    assert(cmds@.take(i + 1) =~= cmds@.take(i as int) + seq![cmds@[i as int]]);
                    assert(!contains_shutdown(cmds@.take(i as int)));
                    lemma_commands_executed_in_order(cmds@.take(i as int), seq![cmds@[i as int]]);
                    let single = seq![cmds@[i as int]];
                    assert(single.drop_first() =~= Seq::<DatabaseCommand>::empty());
                    assert(ops_of(single.drop_first()) =~= Seq::<WireOp>::empty());
                    assert(ops_of(single) =~= seq![op_of_command(cmds@[i as int])->Some_0]);
                }
                let ghost prev = ops@;
                ops.push(op);
                proof {
                    assert(ops@.map_values(|o: BackendOp| o@) =~= prev.map_values(
                        |o: BackendOp| o@,
                    ).push(op@));
                    assert(ops@.map_values(|o: BackendOp| o@) =~= ops_of(cmds@.take(i + 1)));
                    assert(!(cmds@[i as int] is Shutdown));
                }
                i += 1;
            },
            None => {
                proof {
                    assert(cmds@[i as int] is Shutdown);
                    assert(cmds@ =~= cmds@.take(i as int) + seq![DatabaseCommand::Shutdown]
                        + cmds@.skip(i + 1));
                    lemma_shutdown_halts(cmds@.take(i as int), cmds@.skip(i + 1));
                }
                return (ops, ActorStatus::Stopped);
            },
        }
    }
    proof {
        assert(cmds@.take(cmds@.len() as int) =~= cmds@);
    }
    (ops, ActorStatus::Running)
}

} // verus!
