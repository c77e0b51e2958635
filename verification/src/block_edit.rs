//! Block edits at the plugin boundary: breaking a block, and using an item on one.
//!
//! Each handler is a list of actions that the connection performs in order. An
//! action that hands an edit to the simulation waits for its admission; where that
//! fails, the session ends and the rest of the list is not performed.

use crate::ieee754::Single;
use crate::math::{BlockPos, Vec3};
use crate::movement::{is_valid_player_position, valid_position, InteractHand};
use crate::roster::PlayerId;
use crate::sim_command::{step_for, Direction, DriverStep, GameInput, SimCommand};
use vstd::prelude::*;

verus! {

/// The block state of air, which a break predicts.
pub const AIR: u32 = 0;

/// The largest block-state number that fits the wire.
pub const MAX_WIRE_STATE: u32 = 0x7fff_ffff;

/// What the plugins together decide about a block edit.
#[derive(Clone, Copy, Debug, PartialEq, Eq, Structural)]
pub enum ResolvedDecision {
    /// The edit goes on.
    Allow,
    /// The edit is refused.
    Deny,
    /// Another state is written instead, exactly as given.
    Replace {
        /// The state.
        block_state_id: u32,
    },
}

/// What the plugins together decide about an interaction or a chat line.
#[derive(Clone, Copy, Debug, PartialEq, Eq, Structural)]
pub enum PluginEventDecision {
    /// It goes on.
    Allow,
    /// It is refused.
    Deny,
}

/// The intents that plugins emitted at some point of a handler.
#[derive(Clone, Copy, Debug, PartialEq, Eq, Structural)]
pub enum IntentBatch {
    /// With their decision on the interaction.
    Interact,
    /// With their decision on the edit.
    Edit,
    /// When told that the edit was routed.
    AfterEdit,
}

/// One thing a block handler does.
#[derive(Clone, Copy, Debug, PartialEq, Eq, Structural)]
pub enum EditAction {
    /// End the client's prediction without an edit; mandatory.
    Ack {
        /// The block-action sequence.
        sequence: i32,
    },
    /// Have the simulation restore the client's view of a refused edit and end its
    /// prediction; waits for admission.
    Heal {
        /// Where.
        position: BlockPos,
        /// The block-action sequence.
        sequence: i32,
        /// The state that the client predicted.
        requested_state: u32,
    },
    /// Write an exact state; waits for admission.
    WriteExact {
        /// Where.
        position: BlockPos,
        /// The block-action sequence.
        sequence: i32,
        /// The state.
        state: u32,
    },
    /// Hand the break to the simulation; waits for admission.
    Break {
        /// Where.
        position: BlockPos,
        /// The block-action sequence.
        sequence: i32,
    },
    /// Hand the placement to the simulation and wait for the refined state.
    Place {
        /// Where.
        position: BlockPos,
        /// The block-action sequence.
        sequence: i32,
        /// The held item's default state.
        state: u32,
        /// The clicked face.
        face: Direction,
        /// The point of the click within the block.
        cursor: Vec3,
        /// The player's horizontal look.
        yaw: Single,
    },
    /// Show the player why a plugin refused, if it said so.
    DenyMessage,
    /// Route the intents of a batch.
    RouteIntents(IntentBatch),
    /// Tell the plugins that a break was routed.
    NotifyBreak {
        /// Where.
        position: BlockPos,
    },
    /// Tell the plugins that a placement was routed, with its final state.
    NotifyPlace {
        /// Where.
        position: BlockPos,
        /// The state.
        state: u32,
    },
    /// Ask the plugins about the interaction.
    AskInteract {
        /// The hand.
        hand: InteractHand,
        /// Where a block would go.
        position: BlockPos,
        /// The clicked face.
        face: Direction,
    },
    /// Ask the simulation whether the clicked block is a container.
    AskContainer {
        /// The clicked block.
        position: BlockPos,
    },
    /// Ask the plugins about the placement.
    AskPlace {
        /// Where.
        position: BlockPos,
        /// The state.
        state: u32,
    },
    /// Show the container's window.
    OpenWindow {
        /// The clicked block.
        position: BlockPos,
    },
}

impl EditAction {
    /// Whether the action settles the client's prediction.
    pub open spec fn settles(self) -> bool {
        self is Ack || self is Heal || self is WriteExact || self is Break || self is Place
    }

    /// Whether the action may change the world.
    pub open spec fn edits(self) -> bool {
        self is WriteExact || self is Break || self is Place
    }

    /// Whether the action tells plugins of a routed edit.
    pub open spec fn notifies(self) -> bool {
        self is NotifyBreak || self is NotifyPlace
    }
}

/// Refuses a block edit: the one way in which a refused edit is healed. The simulation
/// restores the block and ends the client's prediction.
pub fn reject_block_edit(position: BlockPos, sequence: i32, requested_state: u32) -> (r: EditAction)
    ensures
        r == (EditAction::Heal { position, sequence, requested_state }),
{
    EditAction::Heal { position, sequence, requested_state }
}

/// Whether a state fits the wire.
pub open spec fn representable(state: u32) -> bool {
    state <= MAX_WIRE_STATE
}

fn two_actions(a: EditAction, b: EditAction) -> (r: Vec<EditAction>)
    ensures
        r@ == seq![a, b],
{
    let mut out: Vec<EditAction> = Vec::new();
    out.push(a);
    out.push(b);
    assert(out@ =~= seq![a, b]);
    out
}

fn three_actions(a: EditAction, b: EditAction, c: EditAction) -> (r: Vec<EditAction>)
    ensures
        r@ == seq![a, b, c],
{
    let mut out = two_actions(a, b);
    out.push(c);
    assert(out@ =~= seq![a, b, c]);
    out
}

fn four_actions(a: EditAction, b: EditAction, c: EditAction, d: EditAction) -> (r: Vec<EditAction>)
    ensures
        r@ == seq![a, b, c, d],
{
    let mut out = three_actions(a, b, c);
    out.push(d);
    assert(out@ =~= seq![a, b, c, d]);
    out
}

/// What a break does, given the plugins' decision.
pub open spec fn break_actions(
    decision: ResolvedDecision,
    position: BlockPos,
    sequence: i32,
) -> Seq<EditAction> {
    let heal = EditAction::Heal { position, sequence, requested_state: AIR };
    let route = EditAction::RouteIntents(IntentBatch::Edit);
    let notify = EditAction::NotifyBreak { position };
    let after = EditAction::RouteIntents(IntentBatch::AfterEdit);
    match decision {
        ResolvedDecision::Deny => seq![heal, EditAction::DenyMessage, route],
        ResolvedDecision::Replace { block_state_id } => if representable(block_state_id) {
            seq![
                EditAction::WriteExact { position, sequence, state: block_state_id },
                route,
                notify,
                after,
            ]
        } else {
            seq![heal, route]
        },
        ResolvedDecision::Allow => seq![
            EditAction::Break { position, sequence },
            route,
            notify,
            after,
        ],
    }
}

/// Handles a block break once the plugins have decided.
///
/// A refused break is healed by the simulation. A replacement is written exactly,
/// unless its state does not fit the wire: then the break is healed too. Plugins are
/// told only of an edit that was admitted.
pub fn handle_block_break(decision: ResolvedDecision, position: BlockPos, sequence: i32) -> (r: Vec<
    EditAction,
>)
    ensures
        r@ == break_actions(decision, position, sequence),
{
    let heal = reject_block_edit(position, sequence, AIR);
    let route = EditAction::RouteIntents(IntentBatch::Edit);
    let notify = EditAction::NotifyBreak { position };
    let after = EditAction::RouteIntents(IntentBatch::AfterEdit);
    match decision {
        ResolvedDecision::Deny => three_actions(heal, EditAction::DenyMessage, route),
        ResolvedDecision::Replace { block_state_id } => {
            if block_state_id > MAX_WIRE_STATE {
                two_actions(heal, route)
            } else {
                four_actions(
                    EditAction::WriteExact { position, sequence, state: block_state_id },
                    route,
                    notify,
                    after,
                )
            }
        },
        ResolvedDecision::Allow => four_actions(
            EditAction::Break { position, sequence },
            route,
            notify,
            after,
        ),
    }
}

/// The use of an item on a block.
#[derive(Clone, Copy, Debug, PartialEq, Eq, Structural)]
pub struct UseItem {
    /// The block-action sequence.
    pub sequence: i32,
    /// Where a block would go; `None` where the packet names no face.
    pub target: Option<BlockPos>,
    /// The clicked block.
    pub clicked: BlockPos,
    /// The clicked face.
    pub face: Direction,
    /// The point of the click within the block.
    pub cursor: Vec3,
    /// The player's horizontal look.
    pub yaw: Single,
    /// The hand.
    pub hand: InteractHand,
    /// The state that the held item places, if it places one.
    pub held_state: Option<u32>,
}

/// How far the use of an item has come.
#[derive(Clone, Copy, Debug, PartialEq, Eq, Structural)]
pub enum UseItemStage {
    /// The plugins are asked about the interaction.
    Interacting {
        /// Where a block would go.
        target: BlockPos,
    },
    /// The simulation is asked about a container.
    Opening {
        /// Where a block would go.
        target: BlockPos,
    },
    /// The plugins are asked about the placement.
    Deciding {
        /// Where.
        target: BlockPos,
        /// The state that the held item places.
        held: u32,
    },
    /// The simulation refines the placement.
    Placing {
        /// Where.
        target: BlockPos,
    },
    /// Nothing is left to do.
    Done,
}

/// What comes back to the use of an item.
#[derive(Clone, Copy, Debug, PartialEq, Eq, Structural)]
pub enum UseItemReply {
    /// The plugins' decision on the interaction.
    Interact(PluginEventDecision),
    /// Whether the clicked block is a container that can be opened.
    Container(bool),
    /// The plugins' decision on the placement.
    Place(ResolvedDecision),
    /// The refined state of the admitted placement.
    Placed(u32),
}

/// The first actions of the use of an item.
pub open spec fn use_item_start(item: UseItem) -> (UseItemStage, Seq<EditAction>) {
    match item.target {
        None => (UseItemStage::Done, seq![EditAction::Ack { sequence: item.sequence }]),
        Some(target) => (
            UseItemStage::Interacting { target },
            seq![
                EditAction::AskInteract { hand: item.hand, position: target, face: item.face },
            ],
        ),
    }
}

/// Whether a reply is the one that a stage waits for.
pub open spec fn awaits(stage: UseItemStage, reply: UseItemReply) -> bool {
    match stage {
        UseItemStage::Interacting { .. } => reply is Interact,
        UseItemStage::Opening { .. } => reply is Container,
        UseItemStage::Deciding { .. } => reply is Place,
        UseItemStage::Placing { .. } => reply is Placed,
        UseItemStage::Done => false,
    }
}

/// What a reply makes of the use of an item: the next stage and the actions before it.
pub open spec fn use_item_next(item: UseItem, stage: UseItemStage, reply: UseItemReply) -> (
    UseItemStage,
    Seq<EditAction>,
) {
    let sequence = item.sequence;
    let ack = EditAction::Ack { sequence };
    let route = EditAction::RouteIntents(IntentBatch::Edit);
    let after = EditAction::RouteIntents(IntentBatch::AfterEdit);
    match (stage, reply) {
        (UseItemStage::Interacting { target }, UseItemReply::Interact(decision)) => match decision {
            PluginEventDecision::Deny => (
                UseItemStage::Done,
                seq![
                    match item.held_state {
                        Some(held) => EditAction::Heal {
                            position: target,
                            sequence,
                            requested_state: held,
                        },
                        None => ack,
                    },
                    EditAction::DenyMessage,
                    EditAction::RouteIntents(IntentBatch::Interact),
                ],
            ),
            PluginEventDecision::Allow => (
                UseItemStage::Opening { target },
                seq![
                    EditAction::RouteIntents(IntentBatch::Interact),
                    EditAction::AskContainer { position: item.clicked },
                ],
            ),
        },
        (UseItemStage::Opening { target }, UseItemReply::Container(container)) => if container {
            (
                UseItemStage::Done,
                seq![ack, EditAction::OpenWindow { position: item.clicked }],
            )
        } else {
            match item.held_state {
                None => (UseItemStage::Done, seq![ack]),
                Some(held) => (
                    UseItemStage::Deciding { target, held },
                    seq![EditAction::AskPlace { position: target, state: held }],
                ),
            }
        },
        (UseItemStage::Deciding { target, held }, UseItemReply::Place(decision)) => {
            let heal = EditAction::Heal { position: target, sequence, requested_state: held };
            match decision {
                ResolvedDecision::Deny => (
                    UseItemStage::Done,
                    seq![heal, EditAction::DenyMessage, route],
                ),
                ResolvedDecision::Replace { block_state_id } => if representable(block_state_id) {
                    (
                        UseItemStage::Done,
                        seq![
                            EditAction::WriteExact {
                                position: target,
                                sequence,
                                state: block_state_id,
                            },
                            route,
                            EditAction::NotifyPlace { position: target, state: block_state_id },
                            after,
                        ],
                    )
                } else {
                    (UseItemStage::Done, seq![heal, route])
                },
                ResolvedDecision::Allow => (
                    UseItemStage::Placing { target },
                    seq![
                        EditAction::Place {
                            position: target,
                            sequence,
                            state: held,
                            face: item.face,
                            cursor: item.cursor,
                            yaw: item.yaw,
                        },
                    ],
                ),
            }
        },
        (UseItemStage::Placing { target }, UseItemReply::Placed(computed)) => (
            UseItemStage::Done,
            seq![route, EditAction::NotifyPlace { position: target, state: computed }, after],
        ),
        _ => (stage, Seq::empty()),
    }
}

fn one_action(a: EditAction) -> (r: Vec<EditAction>)
    ensures
        r@ == seq![a],
{
    let mut out: Vec<EditAction> = Vec::new();
    out.push(a);
    assert(out@ =~= seq![a]);
    out
}

/// Begins the use of an item on a block: without a target the prediction just ends,
/// else the plugins are asked about the interaction.
pub fn handle_use_item_on(item: UseItem) -> (r: (UseItemStage, Vec<EditAction>))
    ensures
        (r.0, r.1@) == use_item_start(item),
{
    match item.target {
        None => (UseItemStage::Done, one_action(EditAction::Ack { sequence: item.sequence })),
        Some(target) => (
            UseItemStage::Interacting { target },
            one_action(
                EditAction::AskInteract { hand: item.hand, position: target, face: item.face },
            ),
        ),
    }
}

/// Goes on with the use of an item once a reply is there.
///
/// A refused interaction is healed where the held item would have placed a block. A
/// container opens instead of a placement. A replacement is written exactly; an
/// allowed placement is refined by the simulation, and the plugins are told its final
/// state.
pub fn continue_use_item_on(item: UseItem, stage: UseItemStage, reply: UseItemReply) -> (r: (
    UseItemStage,
    Vec<EditAction>,
))
    requires
        awaits(stage, reply),
    ensures
        (r.0, r.1@) == use_item_next(item, stage, reply),
{
    let sequence: i32 = item.sequence;
    let ack = EditAction::Ack { sequence };
    let route = EditAction::RouteIntents(IntentBatch::Edit);
    let after = EditAction::RouteIntents(IntentBatch::AfterEdit);
    match stage {
        UseItemStage::Interacting { target } => match reply {
            UseItemReply::Interact(PluginEventDecision::Deny) => {
                let settle = match item.held_state {
                    Some(held) => reject_block_edit(target, sequence, held),
                    None => ack,
                };
                (
                    UseItemStage::Done,
                    three_actions(
                        settle,
                        EditAction::DenyMessage,
                        EditAction::RouteIntents(IntentBatch::Interact),
                    ),
                )
            },
            _ => (
                UseItemStage::Opening { target },
                two_actions(
                    EditAction::RouteIntents(IntentBatch::Interact),
                    EditAction::AskContainer { position: item.clicked },
                ),
            ),
        },
        UseItemStage::Opening { target } => match reply {
            UseItemReply::Container(true) => (
                UseItemStage::Done,
                two_actions(ack, EditAction::OpenWindow { position: item.clicked }),
            ),
            _ => match item.held_state {
                None => (UseItemStage::Done, one_action(ack)),
                Some(held) => (
                    UseItemStage::Deciding { target, held },
                    one_action(EditAction::AskPlace { position: target, state: held }),
                ),
            },
        },
        UseItemStage::Deciding { target, held } => {
            let heal = reject_block_edit(target, sequence, held);
            match reply {
                UseItemReply::Place(ResolvedDecision::Deny) => (
                    UseItemStage::Done,
                    three_actions(heal, EditAction::DenyMessage, route),
                ),
                UseItemReply::Place(ResolvedDecision::Replace { block_state_id }) => {
                    if block_state_id > MAX_WIRE_STATE {
                        (UseItemStage::Done, two_actions(heal, route))
                    } else {
                        (
                            UseItemStage::Done,
                            four_actions(
                                EditAction::WriteExact {
                                    position: target,
                                    sequence,
                                    state: block_state_id,
                                },
                                route,
                                EditAction::NotifyPlace { position: target, state: block_state_id },
                                after,
                            ),
                        )
                    }
                },
                _ => (
                    UseItemStage::Placing { target },
                    one_action(
                        EditAction::Place {
                            position: target,
                            sequence,
                            state: held,
                            face: item.face,
                            cursor: item.cursor,
                            yaw: item.yaw,
                        },
                    ),
                ),
            }
        },
        UseItemStage::Placing { target } => {
            let computed: u32 = match reply {
                UseItemReply::Placed(state) => state,
                _ => 0,
            };
            (
                UseItemStage::Done,
                three_actions(
                    route,
                    EditAction::NotifyPlace { position: target, state: computed },
                    after,
                ),
            )
        },
        UseItemStage::Done => (stage, Vec::new()),
    }
}

/// How many actions settle the client's prediction.
pub open spec fn settlements(actions: Seq<EditAction>) -> nat
    decreases actions.len(),
{
    if actions.len() == 0 {
        0
    } else {
        settlements(actions.drop_last()) + if actions.last().settles() {
            1nat
        } else {
            0
        }
    }
}

/// Whether plugins are told only of an edit that stands before: every notification
/// follows an edit.
pub open spec fn notifies_after_edit(actions: Seq<EditAction>) -> bool {
    forall|i: int|
        0 <= i < actions.len() && (#[trigger] actions[i]).notifies() ==> actions[0].edits()
}

/// Whether every exactly written state fits the wire.
pub open spec fn writes_are_representable(actions: Seq<EditAction>) -> bool {
    forall|i: int|
        0 <= i < actions.len() ==> ((#[trigger] actions[i]) matches EditAction::WriteExact {
            state,
            ..
        } ==> representable(state))
}

/// A break settles the client's prediction exactly once, a refused one never changes
/// the world, and plugins are told only of an admitted edit.
pub proof fn break_settles_once(decision: ResolvedDecision, position: BlockPos, sequence: i32)
    ensures
        ({
            let actions = break_actions(decision, position, sequence);
            &&& settlements(actions) == 1
            &&& actions[0].settles()
            &&& decision is Deny ==> forall|i: int|
                0 <= i < actions.len() ==> !(#[trigger] actions[i]).edits()
            &&& notifies_after_edit(actions)
            &&& writes_are_representable(actions)
        }),
{
    let actions = break_actions(decision, position, sequence);
    count_settlements(actions);
}

/// In a list where only the first action may settle, that one is counted.
proof fn count_settlements(actions: Seq<EditAction>)
    requires
        forall|i: int| 1 <= i < actions.len() ==> !(#[trigger] actions[i]).settles(),
    ensures
        settlements(actions) == if actions.len() > 0 && actions[0].settles() {
            1nat
        } else {
            0
        },
    decreases actions.len(),
{
    if actions.len() > 0 {
        let front = actions.drop_last();
        assert forall|i: int| 1 <= i < front.len() implies !(#[trigger] front[i]).settles() by {
            assert(front[i] == actions[i]);
        }
        count_settlements(front);
        if actions.len() > 1 {
            assert(!actions[actions.len() - 1].settles());
            assert(front[0] == actions[0]);
        }
    }
}

/// Each step of the use of an item settles the client's prediction at most once: the
/// step that ends it settles it, unless the placement before did. A refused
/// interaction or placement never changes the world.
pub proof fn use_item_settles_once(item: UseItem, stage: UseItemStage, reply: UseItemReply)
    requires
        awaits(stage, reply),
    ensures
        ({
            let (next, actions) = use_item_next(item, stage, reply);
            let ends = next is Done || next is Placing;
            &&& settlements(actions) == if ends && !(stage is Placing) {
                1nat
            } else {
                0
            }
            &&& reply == UseItemReply::Place(ResolvedDecision::Deny) || reply
                == UseItemReply::Interact(PluginEventDecision::Deny) ==> next is Done && forall|
                i: int,
            |
                0 <= i < actions.len() ==> !(#[trigger] actions[i]).edits()
            &&& !(stage is Placing) ==> notifies_after_edit(actions)
            &&& writes_are_representable(actions)
        }),
{
    let (next, actions) = use_item_next(item, stage, reply);
    count_settlements(actions);
}

/// The block that an action of a handler is about, if it is about one.
pub open spec fn place_of(action: EditAction) -> Option<BlockPos> {
    match action {
        EditAction::Heal { position, .. } => Some(position),
        EditAction::WriteExact { position, .. } => Some(position),
        EditAction::Break { position, .. } => Some(position),
        EditAction::Place { position, .. } => Some(position),
        EditAction::NotifyBreak { position } => Some(position),
        EditAction::NotifyPlace { position, .. } => Some(position),
        EditAction::AskInteract { position, .. } => Some(position),
        EditAction::AskContainer { position } => Some(position),
        EditAction::AskPlace { position, .. } => Some(position),
        EditAction::OpenWindow { position } => Some(position),
        EditAction::Ack { .. } => None,
        EditAction::DenyMessage => None,
        EditAction::RouteIntents(_) => None,
    }
}

/// The block-action sequence that an action carries, if it carries one.
pub open spec fn sequence_of(action: EditAction) -> Option<i32> {
    match action {
        EditAction::Ack { sequence } => Some(sequence),
        EditAction::Heal { sequence, .. } => Some(sequence),
        EditAction::WriteExact { sequence, .. } => Some(sequence),
        EditAction::Break { sequence, .. } => Some(sequence),
        EditAction::Place { sequence, .. } => Some(sequence),
        _ => None,
    }
}

/// The state that an action writes, predicts or tells of, if there is one.
pub open spec fn state_of(action: EditAction) -> Option<u32> {
    match action {
        EditAction::Heal { requested_state, .. } => Some(requested_state),
        EditAction::WriteExact { state, .. } => Some(state),
        EditAction::Place { state, .. } => Some(state),
        EditAction::NotifyPlace { state, .. } => Some(state),
        EditAction::AskPlace { state, .. } => Some(state),
        _ => None,
    }
}

/// Whether some actions hold one of a kind.
pub open spec fn holds(actions: Seq<EditAction>, kind: spec_fn(EditAction) -> bool) -> bool {
    exists|i: int| 0 <= i < actions.len() && kind(#[trigger] actions[i])
}

/// Whether the intents of a batch are routed.
pub open spec fn routes(actions: Seq<EditAction>, batch: IntentBatch) -> bool {
    holds(actions, |action: EditAction| action == EditAction::RouteIntents(batch))
}

/// Everything that a break does is about the broken block, under the client's own
/// sequence. The block is broken where the plugins allow it. A replacement writes the
/// plugins' own state, and the block is never broken then. A refusal restores the block,
/// which the client took for air, and is the one case in which the player is told why. The
/// intents of the decision are routed in every case; those of the notification follow it,
/// where there is one, and come last.
pub proof fn break_is_about_its_block(
    decision: ResolvedDecision,
    position: BlockPos,
    sequence: i32,
    i: int,
)
    requires
        0 <= i < break_actions(decision, position, sequence).len(),
    ensures
        ({
            let actions = break_actions(decision, position, sequence);
            let action = actions[i];
            &&& place_of(action) is Some ==> place_of(action) == Some(position)
            &&& sequence_of(action) is Some ==> sequence_of(action) == Some(sequence)
            &&& actions[0].settles() && place_of(actions[0]) == Some(position)
            &&& (actions[0] is Break) == (decision is Allow)
            &&& (actions[0] is Heal) == (decision is Deny || (
            decision matches ResolvedDecision::Replace { block_state_id } && block_state_id
                > i32::MAX))
            &&& actions[0] is Heal ==> state_of(actions[0]) == Some(0u32)
            &&& action is WriteExact ==> (decision matches ResolvedDecision::Replace {
                block_state_id,
            } && state_of(action) == Some(block_state_id))
            &&& action is DenyMessage ==> decision is Deny
            &&& decision is Deny ==> holds(actions, |a: EditAction| a is DenyMessage)
            &&& routes(actions, IntentBatch::Edit)
            &&& !routes(actions, IntentBatch::Interact)
            &&& (actions[0] is Heal) == !holds(actions, |a: EditAction| a is NotifyBreak)
            &&& !(actions[0] is Heal) ==> actions.last() == EditAction::RouteIntents(
                IntentBatch::AfterEdit,
            ) && actions[actions.len() - 2] is NotifyBreak
            &&& actions[0] is Heal ==> !routes(actions, IntentBatch::AfterEdit)
            &&& !(action is Place) && !(action is NotifyPlace) && !(action is Ack)
        }),
{
    let actions = break_actions(decision, position, sequence);
    match decision {
        ResolvedDecision::Deny => {
            assert(actions[1] is DenyMessage);
            assert(actions[2] == EditAction::RouteIntents(IntentBatch::Edit));
        },
        _ => {
            assert(actions[1] == EditAction::RouteIntents(IntentBatch::Edit));
            if actions.len() == 4 {
                assert(actions[2] is NotifyBreak);
            }
        },
    }
}

/// The stages of the use of an item keep their target, which is the item's.
pub open spec fn stage_is_about(item: UseItem, stage: UseItemStage) -> bool {
    match stage {
        UseItemStage::Interacting { target } => item.target == Some(target),
        UseItemStage::Opening { target } => item.target == Some(target),
        UseItemStage::Deciding { target, held } => item.target == Some(target) && item.held_state
            == Some(held),
        UseItemStage::Placing { target } => item.target == Some(target),
        UseItemStage::Done => true,
    }
}

/// Whatever the use of an item does, it does where the item points: every edit, every
/// restored block, every question about a placement and every notification is about the
/// target, and the container that is asked about and opened is the clicked block. Every
/// settlement carries the client's own sequence. A stage that goes on is about the same
/// target.
pub proof fn use_item_is_about_its_target(item: UseItem, stage: UseItemStage, reply: UseItemReply)
    requires
        awaits(stage, reply),
        stage_is_about(item, stage),
    ensures
        ({
            let (next, actions) = use_item_next(item, stage, reply);
            &&& stage_is_about(item, next)
            &&& forall|i: int|
                #![trigger actions[i]]
                0 <= i < actions.len() ==> {
                    &&& place_of(actions[i]) is Some ==> place_of(actions[i]) == if actions[i]
                        is AskContainer || actions[i] is OpenWindow {
                        Some(item.clicked)
                    } else {
                        item.target
                    }
                    &&& sequence_of(actions[i]) is Some ==> sequence_of(actions[i]) == Some(
                        item.sequence,
                    )
                    &&& !(actions[i] is Break) && !(actions[i] is NotifyBreak)
                }
        }),
{
}

/// The first question is about the item's own target, hand and face, and nothing is
/// edited before it is answered.
pub proof fn use_item_begins_with_its_question(item: UseItem)
    ensures
        ({
            let (stage, actions) = use_item_start(item);
            &&& stage_is_about(item, stage)
            &&& actions.len() == 1
            &&& stage is Done == item.target is None
            &&& item.target is None ==> actions[0] is Ack && sequence_of(actions[0]) == Some(
                item.sequence,
            )
            &&& item.target is Some ==> place_of(actions[0]) == item.target && (
            actions[0] matches EditAction::AskInteract { hand, face, .. } && hand == item.hand
                && face == item.face)
        }),
{
}

/// What the use of an item writes: a replacement writes the plugins' own state and tells
/// the plugins of that state at that block; an allowed placement hands on the held state
/// with the item's own face, cursor and look; and the plugins are told the refined state.
/// The state that is asked about or restored is the held one.
pub proof fn use_item_writes_what_was_decided(
    item: UseItem,
    stage: UseItemStage,
    reply: UseItemReply,
    i: int,
)
    requires
        awaits(stage, reply),
        stage_is_about(item, stage),
        0 <= i < use_item_next(item, stage, reply).1.len(),
    ensures
        match use_item_next(item, stage, reply).1[i] {
            EditAction::WriteExact { state, .. } => reply == UseItemReply::Place(
                ResolvedDecision::Replace { block_state_id: state },
            ) && state <= i32::MAX,
            EditAction::Place { state, face, cursor, yaw, .. } => {
                &&& reply == UseItemReply::Place(ResolvedDecision::Allow)
                &&& item.held_state == Some(state)
                &&& face == item.face && cursor == item.cursor && yaw == item.yaw
            },
            EditAction::NotifyPlace { state, .. } => reply == UseItemReply::Placed(state) || reply
                == UseItemReply::Place(ResolvedDecision::Replace { block_state_id: state }),
            EditAction::AskPlace { state, .. } => reply == UseItemReply::Container(false)
                && item.held_state == Some(state),
            EditAction::Heal { requested_state, .. } => item.held_state == Some(requested_state),
            EditAction::OpenWindow { .. } => reply == UseItemReply::Container(true),
            EditAction::AskContainer { .. } => reply == UseItemReply::Interact(
                PluginEventDecision::Allow,
            ),
            EditAction::DenyMessage => reply == UseItemReply::Interact(PluginEventDecision::Deny)
                || reply == UseItemReply::Place(ResolvedDecision::Deny),
            EditAction::Ack { .. } => item.held_state is None || reply == UseItemReply::Container(
                true,
            ),
            EditAction::RouteIntents(batch) => (batch == IntentBatch::Interact) == (
            reply is Interact),
            _ => false,
        },
{
}

/// What must come of each answer: an allowed interaction asks for a container, a container
/// opens and nothing else, an item that places nothing ends there, an allowed placement is
/// handed on, a usable replacement is written and told, and a refusal shows the reason.
/// The intents of a decision are routed, and those of a notification follow it at the end.
pub proof fn use_item_answers_are_carried_out(
    item: UseItem,
    stage: UseItemStage,
    reply: UseItemReply,
)
    requires
        awaits(stage, reply),
        stage_is_about(item, stage),
    ensures
        ({
            let (next, actions) = use_item_next(item, stage, reply);
            let last = actions.last();
            &&& actions.len() > 0
            &&& reply is Interact ==> routes(actions, IntentBatch::Interact)
            &&& reply == UseItemReply::Interact(PluginEventDecision::Allow) ==> last is AskContainer
                && next is Opening
            &&& reply == UseItemReply::Interact(PluginEventDecision::Deny) ==> holds(
                actions,
                |a: EditAction| a is DenyMessage,
            ) && actions[0] is Heal == item.held_state is Some
            &&& reply == UseItemReply::Container(true) ==> last is OpenWindow && actions.len() == 2
                && next is Done
            &&& reply == UseItemReply::Container(false) ==> (if item.held_state is Some {
                last is AskPlace && next is Deciding
            } else {
                last is Ack && next is Done
            })
            &&& reply is Place && !(reply == UseItemReply::Place(ResolvedDecision::Allow))
                ==> routes(actions, IntentBatch::Edit)
            &&& reply == UseItemReply::Place(ResolvedDecision::Allow) ==> last is Place
                && next is Placing
            &&& reply == UseItemReply::Place(ResolvedDecision::Deny) ==> actions[0] is Heal
                && holds(actions, |a: EditAction| a is DenyMessage)
            &&& reply matches UseItemReply::Place(ResolvedDecision::Replace { block_state_id })
                ==> if block_state_id <= i32::MAX {
                actions[0] is WriteExact && actions[actions.len() - 2] is NotifyPlace && last
                    == EditAction::RouteIntents(IntentBatch::AfterEdit)
            } else {
                actions[0] is Heal && !holds(actions, |a: EditAction| a.notifies())
            }
            &&& reply is Placed ==> routes(actions, IntentBatch::Edit)
                && actions[actions.len() - 2] is NotifyPlace && last == EditAction::RouteIntents(
                IntentBatch::AfterEdit,
            )
        }),
{
    let (next, actions) = use_item_next(item, stage, reply);
    assert(actions[0] == actions[0]);
    if actions.len() > 1 {
        assert(actions[1] == actions[1]);
    }
    if actions.len() > 2 {
        assert(actions[2] == actions[2]);
    }
}

/// Without a target the use of an item only ends the prediction.
pub proof fn missing_target_only_acks(item: UseItem)
    requires
        item.target is None,
    ensures
        use_item_start(item) == (
            UseItemStage::Done,
            seq![EditAction::Ack { sequence: item.sequence }],
        ),
{
}

/// Something a plugin wants done.
#[allow(inconsistent_fields)]
#[derive(Debug)]
pub enum WorldIntent {
    /// Write a block state.
    SetBlock {
        /// Where.
        position: BlockPos,
        /// The state.
        block_state_id: u32,
    },
    /// Show a player a message.
    Message {
        /// The player.
        player: PlayerId,
        /// The message.
        message: String,
    },
    /// Teleport a player.
    Teleport {
        /// The player.
        player: PlayerId,
        /// Where to.
        position: Vec3,
    },
    /// Something a connection has no route for.
    Other,
}

/// Where an intent goes.
#[allow(inconsistent_fields)]
#[derive(Debug)]
pub enum IntentRoute {
    /// An exact write by the acting player; waits for admission.
    WriteExact {
        /// The acting player.
        player: PlayerId,
        /// Where.
        position: BlockPos,
        /// The block-action sequence.
        sequence: i32,
        /// The state.
        state: u32,
    },
    /// A message on the connection's own writer.
    OwnMessage {
        /// The message.
        message: String,
    },
    /// A message to another player, by way of the driver.
    Message {
        /// The player.
        player: PlayerId,
        /// The message.
        message: String,
    },
    /// A teleport, by way of the driver; waits for admission.
    Teleport {
        /// The player.
        player: PlayerId,
        /// Where to.
        position: Vec3,
    },
}

/// Where an intent of an acting player's plugins goes; nowhere for a state that does
/// not fit the wire, an unsafe destination, or an intent without a route.
pub open spec fn intent_route(actor: PlayerId, sequence: i32, intent: WorldIntent) -> Option<
    IntentRoute,
> {
    match intent {
        WorldIntent::SetBlock { position, block_state_id } => if representable(block_state_id) {
            Some(
                IntentRoute::WriteExact { player: actor, position, sequence, state: block_state_id },
            )
        } else {
            None
        },
        WorldIntent::Message { player, message } => if player == actor {
            Some(IntentRoute::OwnMessage { message })
        } else {
            Some(IntentRoute::Message { player, message })
        },
        WorldIntent::Teleport { player, position } => if valid_position(position) {
            Some(IntentRoute::Teleport { player, position })
        } else {
            None
        },
        WorldIntent::Other => None,
    }
}

/// The routes of some intents, in order.
pub open spec fn intent_routes(
    actor: PlayerId,
    sequence: i32,
    intents: Seq<WorldIntent>,
) -> Seq<IntentRoute>
    decreases intents.len(),
{
    if intents.len() == 0 {
        Seq::empty()
    } else {
        let rest = intent_routes(actor, sequence, intents.drop_first());
        match intent_route(actor, sequence, intents[0]) {
            Some(route) => seq![route] + rest,
            None => rest,
        }
    }
}

/// Routes the intents that plugins emitted, in order.
pub fn route_emitted_intents(actor: PlayerId, sequence: i32, intents: Vec<WorldIntent>) -> (r: Vec<
    IntentRoute,
>)
    ensures
        r@ == intent_routes(actor, sequence, intents@),
{
    let mut out: Vec<IntentRoute> = Vec::new();
    let ghost all = intents@;
    let mut left = intents;
    assert(out@ + intent_routes(actor, sequence, all) =~= intent_routes(actor, sequence, all));
    while left.len() > 0
        invariant
            out@ + intent_routes(actor, sequence, left@) == intent_routes(actor, sequence, all),
        decreases left@.len(),
    {
        let ghost before = left@;
        let ghost done = out@;
        let intent = left.remove(0);
        proof {
            assert(left@ =~= before.drop_first());
            assert(intent == before[0]);
        }
        match intent {
            WorldIntent::SetBlock { position, block_state_id } => {
                if block_state_id <= MAX_WIRE_STATE {
                    out.push(
                        IntentRoute::WriteExact {
                            player: actor,
                            position,
                            sequence,
                            state: block_state_id,
                        },
                    );
                }
            },
            WorldIntent::Message { player, message } => {
                if player == actor {
                    out.push(IntentRoute::OwnMessage { message });
                } else {
                    out.push(IntentRoute::Message { player, message });
                }
            },
            WorldIntent::Teleport { player, position } => {
                if is_valid_player_position(position) {
                    out.push(IntentRoute::Teleport { player, position });
                }
            },
            WorldIntent::Other => {},
        }
        proof {
            let rest = intent_routes(actor, sequence, left@);
            match intent_route(actor, sequence, before[0]) {
                Some(route) => {
                    assert(out@ =~= done.push(route));
                    assert(out@ + rest =~= done + (seq![route] + rest));
                },
                None => {
                    assert(out@ =~= done);
                },
            }
        }
    }
    assert(out@ + Seq::<IntentRoute>::empty() =~= out@);
    out
}

/// Whatever plugins emit, every write that is routed fits the wire and every teleport
/// that is routed is safe.
pub proof fn routed_intents_are_safe(
    actor: PlayerId,
    sequence: i32,
    intents: Seq<WorldIntent>,
    i: int,
)
    requires
        0 <= i < intent_routes(actor, sequence, intents).len(),
    ensures
        match intent_routes(actor, sequence, intents)[i] {
            IntentRoute::WriteExact { player, state, .. } => player == actor && representable(
                state,
            ),
            IntentRoute::Teleport { position, .. } => valid_position(position),
            IntentRoute::Message { player, .. } => player != actor,
            IntentRoute::OwnMessage { .. } => true,
        },
    decreases intents.len(),
{
    if intents.len() > 0 {
        let rest = intents.drop_first();
        match intent_route(actor, sequence, intents[0]) {
            Some(route) => {
                if i > 0 {
                    routed_intents_are_safe(actor, sequence, rest, i - 1);
                }
            },
            None => {
                routed_intents_are_safe(actor, sequence, rest, i);
            },
        }
    }
}

/// A route carries what its intent carries: a write goes where the intent says, with the
/// intent's own state and under the acting player and sequence; a message says the same to
/// the same player; and a teleport moves the same player to the same place. Nothing is lost
/// but a state that does not fit the wire, an unsafe destination and an intent without a
/// route.
pub proof fn route_carries_its_intent(actor: PlayerId, sequence: i32, intent: WorldIntent)
    ensures
        match intent_route(actor, sequence, intent) {
            Some(IntentRoute::WriteExact { player, position, sequence: under, state }) => {
                &&& intent == (WorldIntent::SetBlock { position, block_state_id: state })
                &&& player == actor && under == sequence && state <= i32::MAX
            },
            Some(IntentRoute::OwnMessage { message }) => intent == (WorldIntent::Message {
                player: actor,
                message,
            }),
            Some(IntentRoute::Message { player, message }) => intent == (WorldIntent::Message {
                player,
                message,
            }) && player != actor,
            Some(IntentRoute::Teleport { player, position }) => intent == (WorldIntent::Teleport {
                player,
                position,
            }),
            None => match intent {
                WorldIntent::SetBlock { block_state_id, .. } => block_state_id > i32::MAX,
                WorldIntent::Message { .. } => false,
                WorldIntent::Teleport { position, .. } => !valid_position(position),
                WorldIntent::Other => true,
            },
        },
{
}

/// Intents are routed one by one and in order: the routes of two batches one behind the
/// other are the routes of the first and then those of the second, and a single intent has
/// its one route or none.
pub proof fn intents_are_routed_in_order(
    actor: PlayerId,
    sequence: i32,
    first: Seq<WorldIntent>,
    second: Seq<WorldIntent>,
)
    ensures
        intent_routes(actor, sequence, first + second) == intent_routes(actor, sequence, first)
            + intent_routes(actor, sequence, second),
        first.len() == 1 ==> intent_routes(actor, sequence, first) == match intent_route(
            actor,
            sequence,
            first[0],
        ) {
            Some(route) => seq![route],
            None => Seq::empty(),
        },
    decreases first.len(),
{
    if first.len() == 0 {
        assert(first + second =~= second);
        assert(intent_routes(actor, sequence, first) + intent_routes(actor, sequence, second)
            =~= intent_routes(actor, sequence, second));
    } else {
        let rest = first.drop_first();
        intents_are_routed_in_order(actor, sequence, rest, second);
        assert((first + second).drop_first() =~= rest + second);
        assert((first + second)[0] == first[0]);
        let of_rest = intent_routes(actor, sequence, rest);
        let of_second = intent_routes(actor, sequence, second);
        match intent_route(actor, sequence, first[0]) {
            Some(route) => {
                assert(seq![route] + (of_rest + of_second) =~= (seq![route] + of_rest)
                    + of_second);
                if first.len() == 1 {
                    assert(of_rest =~= Seq::<IntentRoute>::empty());
                    assert(seq![route] + of_rest =~= seq![route]);
                }
            },
            None => {},
        }
    }
}

/// Whether a request is that of a sign update with four lines.
pub open spec fn is_sign_request(
    request: SimCommand,
    player: PlayerId,
    position: BlockPos,
    is_front: bool,
    lines: Seq<String>,
) -> bool {
    match request {
        SimCommand::UpdateSign { player: p, position: at, is_front: front, lines: l, acceptance } => {
            &&& p == player && at == position && front == is_front
            &&& l@ == lines && acceptance is None
        },
        _ => false,
    }
}

/// A sign update reaches the shard of the player who wrote it as it was written: on the same
/// sign, the same side, with the same lines in the same order.
pub proof fn signs_are_written_as_sent(
    request: SimCommand,
    player: PlayerId,
    position: BlockPos,
    is_front: bool,
    lines: Seq<String>,
    time: crate::world_time::WorldTime,
)
    requires
        is_sign_request(request, player, position, is_front, lines),
    ensures
        step_for(request, None, time) matches DriverStep::RouteInput { player: whose, input, .. }
            && whose == player && (input matches GameInput::UpdateSign {
            player: writer,
            position: sign,
            is_front: side,
            lines: written,
        } && writer == player && sign == position && side == is_front && written@ == lines),
{
}

/// The request that a sign update makes of the driver: the simulation checks the sign
/// and the player's reach.
pub fn handle_update_sign(
    player: PlayerId,
    position: BlockPos,
    is_front: bool,
    line_1: String,
    line_2: String,
    line_3: String,
    line_4: String,
) -> (r: SimCommand)
    ensures
        is_sign_request(
            r,
            player,
            position,
            is_front,
            seq![line_1, line_2, line_3, line_4],
        ),
        match r {
            SimCommand::UpdateSign {
                player: p,
                position: at,
                is_front: front,
                lines,
                acceptance,
            } => {
                &&& p == player
                &&& at == position
                &&& front == is_front
                &&& lines@ == seq![line_1, line_2, line_3, line_4]
                &&& acceptance is None
            },
            _ => false,
        },
{
    let ghost expected = seq![line_1, line_2, line_3, line_4];
    let mut lines: Vec<String> = Vec::new();
    lines.push(line_1);
    lines.push(line_2);
    lines.push(line_3);
    lines.push(line_4);
    assert(lines@ =~= expected);
    SimCommand::UpdateSign { player, position, is_front, lines, acceptance: None }
}

} // verus!
