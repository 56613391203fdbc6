//! The registry and its journal as a state machine over commands.
//!
//! A state is what an observer can see between two commands: the registry,
//! the journal of emitted events, and beside each event the command that
//! emitted it. One step applies one command: an accepted command writes its
//! entry and appends its event, a rejected one changes nothing.

use vstd::prelude::*;

use crate::command::{registration, relocation, AcceptedView, CommandKind};
use crate::error::Error;
use crate::event::EventView;
use crate::origin::Origin;
use crate::product::ProductView;

verus! {

/// A command as the host delivers it.
pub struct Command<A> {
    pub kind: CommandKind,
    pub origin: Origin<A>,
    pub identifier: Seq<u8>,
    pub name: Seq<u8>,
    pub location: Seq<u8>,
}

impl<A> Command<A> {
    /// The register-product command with these arguments.
    pub open spec fn register(
        origin: Origin<A>,
        identifier: Seq<u8>,
        name: Seq<u8>,
        location: Seq<u8>,
    ) -> Self {
        Command { kind: CommandKind::RegisterProduct, origin, identifier, name, location }
    }

    /// The update-location command with these arguments.
    pub open spec fn update(
        origin: Origin<A>,
        identifier: Seq<u8>,
        name: Seq<u8>,
        location: Seq<u8>,
    ) -> Self {
        Command { kind: CommandKind::UpdateLocation, origin, identifier, name, location }
    }
}

/// The registry, the journal, and the accepted commands in the order in
/// which they were applied.
pub struct State<A> {
    pub registry: Map<Seq<u8>, ProductView<A>>,
    pub journal: Seq<EventView<A>>,
    pub accepted: Seq<Command<A>>,
}

impl<A> State<A> {
    /// The state before any command: nothing registered, nothing emitted.
    pub open spec fn empty() -> Self {
        State { registry: Map::empty(), journal: Seq::empty(), accepted: Seq::empty() }
    }

    /// Whether an entry is stored under `identifier`.
    pub open spec fn contains(self, identifier: Seq<u8>) -> bool {
        self.registry.contains_key(identifier)
    }

    /// The entry stored under `identifier`, if there is one.
    pub open spec fn get(self, identifier: Seq<u8>) -> Option<ProductView<A>> {
        if self.registry.contains_key(identifier) {
            Some(self.registry[identifier])
        } else {
            None
        }
    }

    /// The entry that `command` writes in this state, or the reason why it is
    /// rejected.
    pub open spec fn verdict(self, command: Command<A>) -> Result<ProductView<A>, Error> {
        match command.kind {
            CommandKind::RegisterProduct => registration(
                command.origin,
                command.name,
                command.location,
                self.contains(command.identifier),
            ),
            CommandKind::UpdateLocation => relocation(
                command.origin,
                command.name,
                command.location,
                self.get(command.identifier),
            ),
        }
    }

    /// The state after `command`. An accepted command stores its entry under
    /// its identifier and appends its event; a rejected command leaves the
    /// state as it is.
    pub open spec fn step(self, command: Command<A>) -> Self {
        match self.verdict(command) {
            Ok(entry) => State {
                registry: self.registry.insert(command.identifier, entry),
                journal: self.journal.push(
                    (AcceptedView {
                        kind: command.kind,
                        identifier: command.identifier,
                        product: entry,
                    }).event(),
                ),
                accepted: self.accepted.push(command),
            },
            Err(_) => self,
        }
    }

    /// What the caller of `command` is told: success, or the reason for the
    /// rejection.
    pub open spec fn reply(self, command: Command<A>) -> Result<(), Error> {
        match self.verdict(command) {
            Ok(_) => Ok(()),
            Err(reason) => Err(reason),
        }
    }

    /// Whether this state is what the commands that it records as accepted
    /// lead to, applied in order to the empty state.
    pub open spec fn reachable(self) -> bool {
        self == run(self.accepted)
    }
}

/// The state reached from the empty state by applying `commands` in order.
pub open spec fn run<A>(commands: Seq<Command<A>>) -> State<A>
    decreases commands.len(),
{
    if commands.len() == 0 {
        State::empty()
    } else {
        run(commands.drop_last()).step(commands.last())
    }
}

/// The submitter of the last command of `accepted` that names `identifier`,
/// if one does.
pub open spec fn last_writer<A>(accepted: Seq<Command<A>>, identifier: Seq<u8>) -> Option<A>
    decreases accepted.len(),
{
    if accepted.len() == 0 {
        None
    } else if accepted.last().identifier == identifier {
        match accepted.last().origin {
            Origin::Signed(who) => Some(who),
            Origin::Unsigned => last_writer(accepted.drop_last(), identifier),
        }
    } else {
        last_writer(accepted.drop_last(), identifier)
    }
}

/// The empty state is reachable.
pub proof fn lemma_empty_is_reachable<A>()
    ensures
        State::<A>::empty().reachable(),
{
    assert(run(Seq::<Command<A>>::empty()) == State::<A>::empty());
}

/// Every command leads from a reachable state to a reachable state.
pub proof fn lemma_step_keeps_reachable<A>(state: State<A>, command: Command<A>)
    requires
        state.reachable(),
    ensures
        state.step(command).reachable(),
{
    if state.verdict(command) is Ok {
        assert(state.accepted.push(command).drop_last() =~= state.accepted);
    }
}

/// The state after any sequence of commands is reachable: the rejected
/// commands of the sequence can be left out.
pub proof fn lemma_run_is_reachable<A>(commands: Seq<Command<A>>)
    ensures
        run(commands).reachable(),
    decreases commands.len(),
{
    if commands.len() == 0 {
        lemma_empty_is_reachable::<A>();
    } else {
        lemma_run_is_reachable(commands.drop_last());
        lemma_step_keeps_reachable(run(commands.drop_last()), commands.last());
    }
}

/// After any sequence of commands, an identifier is registered exactly if a
/// command that names it was accepted, and the custodian of its entry is the
/// signer of the last such command.
pub proof fn lemma_custodian_is_last_writer<A>(commands: Seq<Command<A>>, identifier: Seq<u8>)
    ensures
        match last_writer(run(commands).accepted, identifier) {
            Some(who) => run(commands).contains(identifier)
                && run(commands).registry[identifier].custodian == who,
            None => !run(commands).contains(identifier),
        },
    decreases commands.len(),
{
    if commands.len() > 0 {
        let before = run(commands.drop_last());
        let command = commands.last();
        lemma_custodian_is_last_writer(commands.drop_last(), identifier);
        if before.verdict(command) is Ok {
            assert(before.accepted.push(command).drop_last() =~= before.accepted);
        }
    }
}

/// In every state, an identifier is contained exactly if an entry can be
/// read under it.
pub proof fn lemma_contains_agrees_with_get<A>(state: State<A>, identifier: Seq<u8>)
    ensures
        state.contains(identifier) <==> state.get(identifier) is Some,
{
}

/// A rejected command changes neither the registry nor the journal.
pub proof fn lemma_rejection_changes_nothing<A>(state: State<A>, command: Command<A>)
    requires
        state.reply(command) is Err,
    ensures
        state.step(command) == state,
{
}

/// Right after `submitter` has registered `identifier` with `name` and
/// `location`, the registry holds exactly that entry under `identifier`, with
/// `submitter` as its custodian, and the journal ends with the event that
/// names `submitter` and `identifier`.
pub proof fn lemma_register_then_get<A>(
    state: State<A>,
    submitter: A,
    identifier: Seq<u8>,
    name: Seq<u8>,
    location: Seq<u8>,
)
    requires
        !state.contains(identifier),
    ensures
        ({
            let command = Command::register(Origin::Signed(submitter), identifier, name, location);
            let after = state.step(command);
            &&& state.reply(command) is Ok
            &&& after.get(identifier) == Some(ProductView { location, name, custodian: submitter })
            &&& after.journal == state.journal.push(
                EventView::ProductRegistered { custodian: submitter, identifier },
            )
        }),
{
}

/// Right after `submitter` has updated the location of `identifier`, giving
/// the stored name, the entry under `identifier` has the same name, the new
/// location, and `submitter` as its custodian; the journal ends with the
/// event that tells the new location.
pub proof fn lemma_update_then_get<A>(
    state: State<A>,
    submitter: A,
    identifier: Seq<u8>,
    name: Seq<u8>,
    location: Seq<u8>,
)
    requires
        state.contains(identifier),
        state.registry[identifier].name == name,
    ensures
        ({
            let command = Command::update(Origin::Signed(submitter), identifier, name, location);
            let after = state.step(command);
            &&& state.reply(command) is Ok
            &&& after.get(identifier) == Some(ProductView { location, name, custodian: submitter })
            &&& after.journal == state.journal.push(EventView::LocationUpdated { location })
        }),
{
}

/// A command touches no entry but the one under its own identifier.
pub proof fn lemma_other_entries_stay<A>(
    state: State<A>,
    command: Command<A>,
    other: Seq<u8>,
)
    requires
        other != command.identifier,
    ensures
        state.step(command).get(other) == state.get(other),
{
}

/// No command removes an entry: what is registered stays registered.
pub proof fn lemma_registered_stays_registered<A>(
    state: State<A>,
    command: Command<A>,
    identifier: Seq<u8>,
)
    requires
        state.contains(identifier),
    ensures
        state.step(command).contains(identifier),
{
}

} // verus!
