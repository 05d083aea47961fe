//! Keeping the server's picture of the open document in step with the
//! editor's: which commands mirror what the editor does, and the order that
//! they keep on the wire.

use vstd::prelude::*;
use crate::connect::{ConnectionView, Effect, Event, Link};
use crate::message::{LspCommand, LspServerNotification, SyncKind, Synchronise};
use crate::text::Range;

verus! {

/// Something that the editor does to its document.
#[derive(Debug, PartialEq, Eq)]
pub enum Edit {
    /// The document with this URI and this text becomes the one that is edited.
    Open(String, String),
    /// The text in the range was replaced by the given text.
    Change(String, Range),
    /// The document is about to be saved.
    WillSave,
    /// The document was saved; the text may be sent along.
    Save(Option<String>),
    /// The document was closed.
    Close,
}

/// The command that mirrors `event` for the document `uri`.
pub open spec fn mirror_of(event: Synchronise, uri: String) -> LspCommand {
    LspCommand::Notification(LspServerNotification::Synchronise(event, uri))
}

/// The commands that mirror one edit, where `active` is the document that the
/// server has been told is open, if any. A document that is opened while
/// another is open closes that one first. What is done to a document of which
/// the server was never told is not mirrored.
pub open spec fn mirrored(active: Option<String>, edit: Edit) -> Seq<LspCommand> {
    match (edit, active) {
        (Edit::Open(uri, text), Some(previous)) => seq![
            mirror_of(Synchronise::DidClose, previous),
            mirror_of(Synchronise::DidOpen(text), uri),
        ],
        (Edit::Open(uri, text), None) => seq![mirror_of(Synchronise::DidOpen(text), uri)],
        (Edit::Change(text, range), Some(uri)) => seq![
            mirror_of(Synchronise::DidChange(text, range), uri),
        ],
        (Edit::WillSave, Some(uri)) => seq![mirror_of(Synchronise::WillSave, uri)],
        (Edit::Save(text), Some(uri)) => seq![mirror_of(Synchronise::DidSave(text), uri)],
        (Edit::Close, Some(uri)) => seq![mirror_of(Synchronise::DidClose, uri)],
        (_, None) => Seq::empty(),
    }
}

/// The document that the server has been told is open after one edit.
pub open spec fn active_after(active: Option<String>, edit: Edit) -> Option<String> {
    match edit {
        Edit::Open(uri, _) => Some(uri),
        Edit::Close => None,
        _ => active,
    }
}

/// The commands that mirror a run of edits, in order.
pub open spec fn mirror(active: Option<String>, edits: Seq<Edit>) -> Seq<LspCommand>
    decreases edits.len(),
{
    if edits.len() == 0 {
        Seq::empty()
    } else {
        mirrored(active, edits[0]) + mirror(active_after(active, edits[0]), edits.drop_first())
    }
}

/// Maps what the editor does to its document onto the commands that tell the
/// server. It remembers the one document that the server has been told is open.
#[derive(Debug)]
pub struct DocumentSync {
    active: Option<String>,
}

impl DocumentSync {
    /// The URI of the document that the server has been told is open, if any.
    pub closed spec fn active(self) -> Option<String> {
        self.active
    }

    /// A mapper for a server that has been told of no document.
    pub fn new() -> (sync: DocumentSync)
        ensures
            sync.active() is None,
    {
        DocumentSync { active: None }
    }

    /// Tells whether the server has been told of an open document.
    pub fn is_active(&self) -> (active: bool)
        ensures
            active == self.active() is Some,
    {
        self.active.is_some()
    }

    fn command(&self, event: Synchronise) -> (commands: Vec<LspCommand>)
        ensures
            commands@ == match self.active() {
                Some(uri) => seq![mirror_of(event, uri)],
                None => Seq::empty(),
            },
    {
        let mut commands: Vec<LspCommand> = Vec::new();
        match &self.active {
            Some(uri) => {
                commands.push(LspCommand::synchronise(event, uri.clone()));
                assert(commands@ =~= seq![mirror_of(event, *uri)]);
            },
            None => {},
        }
        commands
    }

    /// The document `uri` with the text `text` becomes the one that is edited:
    /// the document that was open, if any, is closed first, and then the new
    /// one is opened with its whole text.
    pub fn set_file(&mut self, uri: String, text: String) -> (commands: Vec<LspCommand>)
        ensures
            commands@ == mirrored(old(self).active(), Edit::Open(uri, text)),
            final(self).active() == Some(uri),
    {
        let mut commands = self.command(Synchronise::DidClose);
        commands.push(LspCommand::synchronise(Synchronise::DidOpen(text), uri.clone()));
        assert(commands@ =~= mirrored(old(self).active(), Edit::Open(uri, text)));
        self.active = Some(uri);
        commands
    }

    /// The text in `range` was replaced by `text`. The range and the text are
    /// passed on as they are given.
    pub fn change(&self, text: String, range: Range) -> (commands: Vec<LspCommand>)
        ensures
            commands@ == mirrored(self.active(), Edit::Change(text, range)),
    {
        self.command(Synchronise::DidChange(text, range))
    }

    /// The document is about to be saved.
    pub fn will_save(&self) -> (commands: Vec<LspCommand>)
        ensures
            commands@ == mirrored(self.active(), Edit::WillSave),
    {
        self.command(Synchronise::WillSave)
    }

    /// The document was saved.
    pub fn save(&self, text: Option<String>) -> (commands: Vec<LspCommand>)
        ensures
            commands@ == mirrored(self.active(), Edit::Save(text)),
    {
        self.command(Synchronise::DidSave(text))
    }

    /// The document was closed.
    pub fn close(&mut self) -> (commands: Vec<LspCommand>)
        ensures
            commands@ == mirrored(old(self).active(), Edit::Close),
            final(self).active() is None,
    {
        let commands = self.command(Synchronise::DidClose);
        self.active = None;
        commands
    }

    /// Mirrors one edit, whichever it is.
    pub fn apply(&mut self, edit: Edit) -> (commands: Vec<LspCommand>)
        ensures
            commands@ == mirrored(old(self).active(), edit),
            final(self).active() == active_after(old(self).active(), edit),
    {
        match edit {
            Edit::Open(uri, text) => self.set_file(uri, text),
            Edit::Change(text, range) => self.change(text, range),
            Edit::WillSave => self.will_save(),
            Edit::Save(text) => self.save(text),
            Edit::Close => self.close(),
        }
    }
}

/// One event of document synchronisation as it is seen on the wire: its kind
/// and the URI of its document.
pub type SyncEvent = (SyncKind, Seq<char>);

/// The documents that are open after `event`, where those in `open` were open before.
pub open spec fn open_after_event(open: Set<Seq<char>>, event: SyncEvent) -> Set<Seq<char>> {
    match event.0 {
        SyncKind::Open => open.insert(event.1),
        SyncKind::Close => open.remove(event.1),
        _ => open,
    }
}

/// Whether `event` is in order where the documents in `open` are open: a
/// document is opened only while it is not open, and changed, saved or closed
/// only while it is.
pub open spec fn in_order(open: Set<Seq<char>>, event: SyncEvent) -> bool {
    match event.0 {
        SyncKind::Open => !open.contains(event.1),
        _ => open.contains(event.1),
    }
}

/// The documents that are open after a run of events.
pub open spec fn open_after(open: Set<Seq<char>>, trace: Seq<SyncEvent>) -> Set<Seq<char>>
    decreases trace.len(),
{
    if trace.len() == 0 {
        open
    } else {
        open_after(open_after_event(open, trace[0]), trace.drop_first())
    }
}

/// Whether every event of a run is in order where it stands, where the
/// documents in `open` are open when the run starts.
pub open spec fn nested(open: Set<Seq<char>>, trace: Seq<SyncEvent>) -> bool
    decreases trace.len(),
{
    if trace.len() == 0 {
        true
    } else {
        in_order(open, trace[0]) && nested(open_after_event(open, trace[0]), trace.drop_first())
    }
}

/// The synchronisation event that a command carries, if it carries one.
pub open spec fn command_event(command: LspCommand) -> Option<SyncEvent> {
    match command {
        LspCommand::Notification(LspServerNotification::Synchronise(event, uri)) => Some(
            (event.kind(), uri@),
        ),
        LspCommand::Request(_) => None,
    }
}

/// The synchronisation event that an effect puts on the wire, if it puts one there.
pub open spec fn effect_event(effect: Effect) -> Option<SyncEvent> {
    match effect {
        Effect::Call(call) => call.synchronises(),
        Effect::Deliver(_) => None,
    }
}

/// The event, if there is one, as a run of its own.
pub open spec fn one_or_none(event: Option<SyncEvent>) -> Seq<SyncEvent> {
    match event {
        Some(event) => seq![event],
        None => Seq::empty(),
    }
}

/// The synchronisation events that a run of commands carries, in order.
pub open spec fn sync_trace(commands: Seq<LspCommand>) -> Seq<SyncEvent>
    decreases commands.len(),
{
    if commands.len() == 0 {
        Seq::empty()
    } else {
        one_or_none(command_event(commands[0])) + sync_trace(commands.drop_first())
    }
}

/// The synchronisation events that a run of effects puts on the wire, in order.
pub open spec fn wire_trace(effects: Seq<Effect>) -> Seq<SyncEvent>
    decreases effects.len(),
{
    if effects.len() == 0 {
        Seq::empty()
    } else {
        one_or_none(effect_event(effects[0])) + wire_trace(effects.drop_first())
    }
}

/// The commands among a run of events, in order.
pub open spec fn commands_of(events: Seq<Event>) -> Seq<LspCommand>
    decreases events.len(),
{
    if events.len() == 0 {
        Seq::empty()
    } else {
        (match events[0] {
            Event::Command(command) => seq![command],
            _ => Seq::empty(),
        }) + commands_of(events.drop_first())
    }
}

/// The set of open documents that goes with the mapper's memory.
pub open spec fn open_set(active: Option<String>) -> Set<Seq<char>> {
    match active {
        Some(uri) => Set::empty().insert(uri@),
        None => Set::empty(),
    }
}

proof fn lemma_sync_trace_add(first: Seq<LspCommand>, rest: Seq<LspCommand>)
    ensures
        sync_trace(first + rest) == sync_trace(first) + sync_trace(rest),
    decreases first.len(),
{
    if first.len() == 0 {
        assert(first + rest =~= rest);
        assert(sync_trace(first) + sync_trace(rest) =~= sync_trace(rest));
    } else {
        assert((first + rest).drop_first() =~= first.drop_first() + rest);
        lemma_sync_trace_add(first.drop_first(), rest);
        assert(one_or_none(command_event(first[0])) + (sync_trace(first.drop_first()) + sync_trace(
            rest,
        )) =~= (one_or_none(command_event(first[0])) + sync_trace(first.drop_first()))
            + sync_trace(rest));
    }
}

proof fn lemma_wire_trace_add(first: Seq<Effect>, rest: Seq<Effect>)
    ensures
        wire_trace(first + rest) == wire_trace(first) + wire_trace(rest),
    decreases first.len(),
{
    if first.len() == 0 {
        assert(first + rest =~= rest);
        assert(wire_trace(first) + wire_trace(rest) =~= wire_trace(rest));
    } else {
        assert((first + rest).drop_first() =~= first.drop_first() + rest);
        lemma_wire_trace_add(first.drop_first(), rest);
        assert(one_or_none(effect_event(first[0])) + (wire_trace(first.drop_first()) + wire_trace(
            rest,
        )) =~= (one_or_none(effect_event(first[0])) + wire_trace(first.drop_first()))
            + wire_trace(rest));
    }
}

proof fn lemma_sync_trace_one(command: LspCommand)
    ensures
        sync_trace(seq![command]) == one_or_none(command_event(command)),
{
    reveal_with_fuel(sync_trace, 2);
    assert(seq![command].drop_first() =~= Seq::<LspCommand>::empty());
    assert(one_or_none(command_event(command)) + Seq::<SyncEvent>::empty() =~= one_or_none(
        command_event(command),
    ));
}

proof fn lemma_wire_trace_one(effect: Effect)
    ensures
        wire_trace(seq![effect]) == one_or_none(effect_event(effect)),
{
    reveal_with_fuel(wire_trace, 2);
    assert(seq![effect].drop_first() =~= Seq::<Effect>::empty());
    assert(one_or_none(effect_event(effect)) + Seq::<SyncEvent>::empty() =~= one_or_none(
        effect_event(effect),
    ));
}

/// A run made of two runs is in order exactly when the first is, and the
/// second is where the first has left the documents.
pub proof fn lemma_nested_add(open: Set<Seq<char>>, first: Seq<SyncEvent>, rest: Seq<SyncEvent>)
    ensures
        nested(open, first + rest) == (nested(open, first) && nested(
            open_after(open, first),
            rest,
        )),
        open_after(open, first + rest) == open_after(open_after(open, first), rest),
    decreases first.len(),
{
    if first.len() == 0 {
        assert(first + rest =~= rest);
    } else {
        assert((first + rest).drop_first() =~= first.drop_first() + rest);
        lemma_nested_add(open_after_event(open, first[0]), first.drop_first(), rest);
    }
}

/// What stands at the start of a run that is in order is in order by itself.
pub proof fn lemma_nested_prefix(open: Set<Seq<char>>, start: Seq<SyncEvent>, whole: Seq<SyncEvent>)
    requires
        start.is_prefix_of(whole),
        nested(open, whole),
    ensures
        nested(open, start),
{
    let rest = whole.subrange(start.len() as int, whole.len() as int);
    assert(whole =~= start + rest);
    lemma_nested_add(open, start, rest);
}

proof fn lemma_mirrored_is_nested(active: Option<String>, edit: Edit)
    ensures
        nested(open_set(active), sync_trace(mirrored(active, edit))),
        open_after(open_set(active), sync_trace(mirrored(active, edit))) == open_set(
            active_after(active, edit),
        ),
{
    let open = open_set(active);
    let commands = mirrored(active, edit);
    reveal_with_fuel(nested, 3);
    reveal_with_fuel(open_after, 3);
    match (edit, active) {
        (Edit::Open(uri, text), Some(previous)) => {
            let close = mirror_of(Synchronise::DidClose, previous);
            let opening = mirror_of(Synchronise::DidOpen(text), uri);
            assert(commands =~= seq![close] + seq![opening]);
            lemma_sync_trace_add(seq![close], seq![opening]);
            lemma_sync_trace_one(close);
            lemma_sync_trace_one(opening);
            let first = seq![(SyncKind::Close, previous@)];
            let second = seq![(SyncKind::Open, uri@)];
            assert(sync_trace(commands) == first + second);
            lemma_nested_add(open, first, second);
            assert(first.drop_first() =~= Seq::<SyncEvent>::empty());
            assert(second.drop_first() =~= Seq::<SyncEvent>::empty());
            assert(open.remove(previous@) =~= Set::<Seq<char>>::empty());
            assert(open_after(open, first) == Set::<Seq<char>>::empty());
        },
        (_, Some(uri)) => {
            assert(commands.len() == 1);
            let command = commands[0];
            assert(commands =~= seq![command]);
            lemma_sync_trace_one(command);
            let trace = sync_trace(commands);
            assert(trace.len() == 1);
            assert(trace.drop_first() =~= Seq::<SyncEvent>::empty());
            assert(trace[0].1 == uri@);
            if edit is Close {
                assert(open.remove(uri@) =~= Set::<Seq<char>>::empty());
            }
        },
        (Edit::Open(uri, text), None) => {
            let opening = mirror_of(Synchronise::DidOpen(text), uri);
            assert(commands =~= seq![opening]);
            lemma_sync_trace_one(opening);
            assert(sync_trace(commands).drop_first() =~= Seq::<SyncEvent>::empty());
        },
        (_, None) => {
            assert(commands =~= Seq::<LspCommand>::empty());
        },
    }
}

/// The mapper keeps opening and closing in order: whatever the editor does,
/// and in whatever order, the commands that mirror it open a document only
/// while none is open, and change, save or close only the document that is open.
pub proof fn lemma_mirror_is_nested(active: Option<String>, edits: Seq<Edit>)
    ensures
        nested(open_set(active), sync_trace(mirror(active, edits))),
    decreases edits.len(),
{
    if edits.len() > 0 {
        let first = mirrored(active, edits[0]);
        let rest = mirror(active_after(active, edits[0]), edits.drop_first());
        lemma_mirrored_is_nested(active, edits[0]);
        lemma_mirror_is_nested(active_after(active, edits[0]), edits.drop_first());
        lemma_sync_trace_add(first, rest);
        lemma_nested_add(open_set(active), sync_trace(first), sync_trace(rest));
    }
}

proof fn lemma_silent_when_stopped(view: ConnectionView, events: Seq<Event>)
    requires
        view.link is Terminated || view.link == (Link::Connected { running: false }),
    ensures
        wire_trace(view.run(events).1) == Seq::<SyncEvent>::empty(),
    decreases events.len(),
{
    if events.len() > 0 {
        let (next, first) = view.apply(events[0]);
        let rest = next.run(events.drop_first()).1;
        lemma_silent_when_stopped(next, events.drop_first());
        lemma_wire_trace_add(first, rest);
        match events[0] {
            Event::Settled(outcome) => {
                assert(first =~= Seq::<Effect>::empty());
            },
            Event::Turn => {
                if view.link is Connected && view.commands.len() == 0 && view.notifications.len()
                    > 0 {
                    lemma_wire_trace_one(first[0]);
                    assert(first =~= seq![first[0]]);
                } else {
                    assert(first =~= Seq::<Effect>::empty());
                }
            },
            _ => {},
        }
        assert(wire_trace(first) + wire_trace(rest) =~= Seq::<SyncEvent>::empty());
    }
}

proof fn lemma_turn_on_the_wire(view: ConnectionView)
    requires
        view.link == (Link::Connected { running: true }),
        view.commands.len() > 0,
    ensures
        wire_trace(view.turn().1) == one_or_none(command_event(view.commands[0])),
{
    let effects = view.turn().1;
    match view.commands[0] {
        LspCommand::Request(crate::message::LspRequest::Shutdown) => {
            let a = Effect::Call(crate::client::ProtocolCall::Shutdown);
            let b = Effect::Call(crate::client::ProtocolCall::Exit);
            let c = Effect::Call(crate::client::ProtocolCall::Stop);
            assert(effects =~= seq![a] + (seq![b] + seq![c]));
            lemma_wire_trace_add(seq![a], seq![b] + seq![c]);
            lemma_wire_trace_add(seq![b], seq![c]);
            lemma_wire_trace_one(a);
            lemma_wire_trace_one(b);
            lemma_wire_trace_one(c);
            assert(wire_trace(effects) =~= Seq::<SyncEvent>::empty());
        },
        LspCommand::Notification(LspServerNotification::Synchronise(event, uri)) => {
            let call = Effect::Call(crate::connect::call_for(event, uri));
            assert(effects =~= seq![call]);
            lemma_wire_trace_one(call);
        },
    }
}

/// The wire follows the commands: whatever happens to a connection, the
/// synchronisation events that reach the wire are, in their order, the first so
/// many of those carried by the commands that waited and those that came.
pub proof fn lemma_wire_follows_commands(view: ConnectionView, events: Seq<Event>)
    ensures
        wire_trace(view.run(events).1).is_prefix_of(
            sync_trace(view.commands + commands_of(events)),
        ),
    decreases events.len(),
{
    let wire = wire_trace(view.run(events).1);
    let given = sync_trace(view.commands + commands_of(events));
    if events.len() == 0 {
        assert(wire =~= Seq::<SyncEvent>::empty());
    } else {
        let (next, first) = view.apply(events[0]);
        let later = events.drop_first();
        let rest = next.run(later).1;
        lemma_wire_follows_commands(next, later);
        lemma_wire_trace_add(first, rest);
        let follows = sync_trace(next.commands + commands_of(later));
        assert(wire_trace(rest).is_prefix_of(follows));
        match events[0] {
            Event::Command(command) => {
                assert(first =~= Seq::<Effect>::empty());
                assert(next.commands + commands_of(later) =~= view.commands + commands_of(events));
                assert(wire =~= wire_trace(rest));
            },
            Event::Notification(notification) => {
                assert(first =~= Seq::<Effect>::empty());
                assert(commands_of(events) =~= commands_of(later));
                assert(wire =~= wire_trace(rest));
            },
            Event::Settled(outcome) => {
                assert(commands_of(events) =~= commands_of(later));
                if first.len() > 0 {
                    assert(first =~= seq![first[0]]);
                    lemma_wire_trace_one(first[0]);
                }
                assert(wire =~= wire_trace(rest));
            },
            Event::Turn => {
                assert(commands_of(events) =~= commands_of(later));
                if view.link is Connected && view.commands.len() > 0 {
                    let command = view.commands[0];
                    if view.link->running {
                        lemma_turn_on_the_wire(view);
                        let head = one_or_none(command_event(command));
                        assert(view.commands + commands_of(events) =~= seq![command] + (
                        next.commands + commands_of(later)));
                        lemma_sync_trace_add(seq![command], next.commands + commands_of(later));
                        lemma_sync_trace_one(command);
                        assert(given == head + follows);
                        if command is Request {
                            lemma_silent_when_stopped(next, later);
                            assert(wire =~= head);
                        }
                        assert(wire == head + wire_trace(rest));
                        assert((head + wire_trace(rest)).is_prefix_of(head + follows));
                    } else {
                        lemma_silent_when_stopped(view, events);
                    }
                } else if view.link is Connected && view.notifications.len() > 0 {
                    assert(first =~= seq![first[0]]);
                    lemma_wire_trace_one(first[0]);
                    assert(wire =~= wire_trace(rest));
                } else {
                    assert(first =~= Seq::<Effect>::empty());
                    assert(wire =~= wire_trace(rest));
                }
            },
        }
    }
}

/// Opening comes first, on the wire. Let the commands that a connection is
/// given be those by which a mapper mirrors what the editor does, from a
/// mapper and a connection that are new. Then, whatever else happens to the
/// connection, the synchronisation events on the wire are in order: a
/// document is opened only while none is open, and changed, saved or closed
/// only while it is open.
pub proof fn lemma_wire_is_nested(view: ConnectionView, events: Seq<Event>, edits: Seq<Edit>)
    requires
        view.commands.len() == 0,
        commands_of(events) == mirror(None, edits),
    ensures
        nested(Set::empty(), wire_trace(view.run(events).1)),
{
    lemma_mirror_is_nested(None, edits);
    lemma_wire_follows_commands(view, events);
    assert(view.commands + commands_of(events) =~= commands_of(events));
    lemma_nested_prefix(
        Set::empty(),
        wire_trace(view.run(events).1),
        sync_trace(commands_of(events)),
    );
}

/// In a run that is in order, and that starts with no document open, whatever
/// changes, saves or closes a document comes after an event that opened it.
pub proof fn lemma_nested_opens_first(trace: Seq<SyncEvent>, i: int)
    requires
        nested(Set::empty(), trace),
        0 <= i < trace.len(),
        trace[i].0 != SyncKind::Open,
    ensures
        exists|j: int| 0 <= j < i && #[trigger] trace[j] == (SyncKind::Open, trace[i].1),
{
    lemma_open_was_opened(Set::empty(), trace, i);
}

proof fn lemma_open_was_opened(open: Set<Seq<char>>, trace: Seq<SyncEvent>, i: int)
    requires
        nested(open, trace),
        0 <= i < trace.len(),
        trace[i].0 != SyncKind::Open,
    ensures
        open.contains(trace[i].1) || exists|j: int|
            0 <= j < i && #[trigger] trace[j] == (SyncKind::Open, trace[i].1),
    decreases trace.len(),
{
    if i > 0 {
        let rest = trace.drop_first();
        let next = open_after_event(open, trace[0]);
        lemma_open_was_opened(next, rest, i - 1);
        assert(rest[i - 1] == trace[i]);
        if next.contains(trace[i].1) {
            if !open.contains(trace[i].1) {
                assert(trace[0] == (SyncKind::Open, trace[i].1));
            }
        } else {
            let j = choose|j: int|
                0 <= j < i - 1 && #[trigger] rest[j] == (SyncKind::Open, trace[i].1);
            assert(trace[j + 1] == (SyncKind::Open, trace[i].1));
        }
    }
}

} // verus!
