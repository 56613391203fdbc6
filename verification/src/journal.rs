//! Reconstruction of the registry from the journal.
//!
//! An observer who holds the journal, and for each event the command that
//! emitted it, can rebuild the registry without validating anything.

use vstd::prelude::*;

use crate::event::EventView;
use crate::origin::Origin;
use crate::product::ProductView;
use crate::state::{run, Command, State};

verus! {

/// The registry after one journal event has been applied to `registry`.
/// `context` is the command that emitted the event.
///
/// A registration event names the custodian and the identifier; name and
/// location are those that the submitter provided. An update event tells the
/// new location; the identifier and the submitter, to whom custody passes,
/// are those of the command.
pub open spec fn apply<A>(
    registry: Map<Seq<u8>, ProductView<A>>,
    event: EventView<A>,
    context: Command<A>,
) -> Map<Seq<u8>, ProductView<A>> {
    match event {
        EventView::ProductRegistered { custodian, identifier } => registry.insert(
            identifier,
            ProductView { location: context.location, name: context.name, custodian },
        ),
        EventView::LocationUpdated { location } => match context.origin {
            Origin::Signed(who) => registry.insert(
                context.identifier,
                ProductView { location, name: registry[context.identifier].name, custodian: who },
            ),
            Origin::Unsigned => registry,
        },
    }
}

/// The registry rebuilt from an empty one by applying the events of
/// `journal` in the order of their emission, each with its command from
/// `context`.
pub open spec fn replay<A>(journal: Seq<EventView<A>>, context: Seq<Command<A>>) -> Map<
    Seq<u8>,
    ProductView<A>,
>
    decreases journal.len(),
{
    if journal.len() == 0 || context.len() != journal.len() {
        Map::empty()
    } else {
        apply(replay(journal.drop_last(), context.drop_last()), journal.last(), context.last())
    }
}

/// After any sequence of commands the journal holds one event for each
/// accepted command, in order.
pub proof fn lemma_one_event_per_accepted_command<A>(commands: Seq<Command<A>>)
    ensures
        run(commands).journal.len() == run(commands).accepted.len(),
    decreases commands.len(),
{
    if commands.len() > 0 {
        lemma_one_event_per_accepted_command(commands.drop_last());
    }
}

/// After any sequence of commands, replaying the journal from an empty
/// registry gives the registry as it stands.
pub proof fn lemma_replay_reproduces_registry<A>(commands: Seq<Command<A>>)
    ensures
        replay(run(commands).journal, run(commands).accepted) == run(commands).registry,
    decreases commands.len(),
{
    if commands.len() > 0 {
        let before = run(commands.drop_last());
        let command = commands.last();
        let after = before.step(command);
        lemma_replay_reproduces_registry(commands.drop_last());
        lemma_one_event_per_accepted_command(commands.drop_last());
        if before.verdict(command) is Ok {
            assert(after.journal.drop_last() == before.journal);
            assert(after.accepted.drop_last() == before.accepted);
        }
    }
}

/// As [`apply`], for an observer who is not told who submitted an update:
/// an update event sets the location and leaves the custodian as it was.
pub open spec fn apply_location<A>(
    registry: Map<Seq<u8>, ProductView<A>>,
    event: EventView<A>,
    context: Command<A>,
) -> Map<Seq<u8>, ProductView<A>> {
    match event {
        EventView::ProductRegistered { custodian, identifier } => registry.insert(
            identifier,
            ProductView { location: context.location, name: context.name, custodian },
        ),
        EventView::LocationUpdated { location } => registry.insert(
            context.identifier,
            ProductView { location, ..registry[context.identifier] },
        ),
    }
}

/// As [`replay`], with [`apply_location`] for each event.
pub open spec fn replay_locations<A>(
    journal: Seq<EventView<A>>,
    context: Seq<Command<A>>,
) -> Map<Seq<u8>, ProductView<A>>
    decreases journal.len(),
{
    if journal.len() == 0 || context.len() != journal.len() {
        Map::empty()
    } else {
        apply_location(
            replay_locations(journal.drop_last(), context.drop_last()),
            journal.last(),
            context.last(),
        )
    }
}

/// After any sequence of commands, a replay that applies update events to
/// the location alone rebuilds every identifier of the registry with its name
/// and location. The custodian that it rebuilds is the one named by the
/// registration event; so it rebuilds the registry itself exactly where every
/// product is in the custody of the account that registered it.
pub proof fn lemma_replay_of_locations<A>(commands: Seq<Command<A>>)
    ensures
        ({
            let registry = run(commands).registry;
            let rebuilt = replay_locations(run(commands).journal, run(commands).accepted);
            &&& rebuilt.dom() == registry.dom()
            &&& forall|identifier: Seq<u8>| #[trigger]
                rebuilt.contains_key(identifier) ==> rebuilt[identifier].location
                    == registry[identifier].location && rebuilt[identifier].name
                    == registry[identifier].name
            &&& rebuilt == registry <==> forall|identifier: Seq<u8>| #[trigger]
                rebuilt.contains_key(identifier) ==> rebuilt[identifier].custodian
                    == registry[identifier].custodian
        }),
    decreases commands.len(),
{
    if commands.len() > 0 {
        let before = run(commands.drop_last());
        let command = commands.last();
        let after = before.step(command);
        lemma_replay_of_locations(commands.drop_last());
        lemma_one_event_per_accepted_command(commands.drop_last());
        if before.verdict(command) is Ok {
            assert(after.journal.drop_last() == before.journal);
            assert(after.accepted.drop_last() == before.accepted);
            let rebuilt = replay_locations(after.journal, after.accepted);
            assert(rebuilt.dom() =~= after.registry.dom());
        }
    }
    let registry = run(commands).registry;
    let rebuilt = replay_locations(run(commands).journal, run(commands).accepted);
    if forall|identifier: Seq<u8>| #[trigger]
        rebuilt.contains_key(identifier) ==> rebuilt[identifier].custodian
            == registry[identifier].custodian {
        assert(rebuilt =~= registry);
    }
}

/// In every reachable state, replaying the journal from an empty registry
/// gives the registry as it stands.
pub proof fn lemma_replay_reproduces_reachable_state<A>(state: State<A>)
    requires
        state.reachable(),
    ensures
        replay(state.journal, state.accepted) == state.registry,
{
    lemma_replay_reproduces_registry(state.accepted);
}

} // verus!
