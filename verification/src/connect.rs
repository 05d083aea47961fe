//! The connection to the language server: the state it is in, the two queues
//! of what waits to be handled, and the router that takes commands before
//! notifications.

use vstd::prelude::*;
use crate::client::{LspClient, ProtocolCall};
use crate::error::LspClientResult;
use crate::message::{
    LspClientNotification, LspCommand, LspMessage, LspRequest, LspServerNotification, Synchronise,
};

verus! {

/// The state of the connection.
#[derive(Debug)]
pub enum State {
    /// No server was started yet.
    Disconnected,
    /// The server runs and is served by the given client.
    Connected(LspClient),
    /// The connection has ended; it does not start again.
    Terminated,
}

/// What the task that drives the connection is to do next.
#[derive(Clone, Copy, Debug, PartialEq, Eq, Structural)]
pub enum Step {
    /// Start the server and report how that ended.
    Initialize,
    /// Wait for commands and notifications and have them routed.
    Receive,
    /// End: nothing more will come.
    Finish,
}

/// Something that the router wants done.
#[derive(Debug, PartialEq, Eq)]
pub enum Effect {
    /// Make this call to the server.
    Call(ProtocolCall),
    /// Hand this message to the user interface.
    Deliver(LspMessage),
}

/// The call that mirrors a synchronisation event for the document `uri`: the
/// event's text as it is, its range in the coordinates of the wire.
pub open spec fn call_for(event: Synchronise, uri: String) -> ProtocolCall {
    match event {
        Synchronise::DidChange(text, range) => ProtocolCall::DidChange {
            uri,
            version: crate::client::CHANGED_VERSION,
            range: range.wire(),
            text,
        },
        Synchronise::DidClose => ProtocolCall::DidClose { uri },
        Synchronise::DidOpen(text) => ProtocolCall::DidOpen {
            uri,
            language_id: crate::client::LANGUAGE,
            version: crate::client::OPENED_VERSION,
            text,
        },
        Synchronise::DidSave(text) => ProtocolCall::DidSave { uri, text },
        Synchronise::WillSave => ProtocolCall::WillSave {
            uri,
            reason: crate::client::SaveReason::Manual,
        },
    }
}

/// The calls that a command leads to, on a server that runs or was shut down:
/// a shutdown is the three calls that end the session, a synchronisation is
/// its one call, and a server that was shut down gets nothing.
pub open spec fn calls_for(running: bool, command: LspCommand) -> Seq<ProtocolCall> {
    if !running {
        Seq::empty()
    } else {
        match command {
            LspCommand::Request(LspRequest::Shutdown) => seq![
                ProtocolCall::Shutdown,
                ProtocolCall::Exit,
                ProtocolCall::Stop,
            ],
            LspCommand::Notification(LspServerNotification::Synchronise(event, uri)) => seq![
                call_for(event, uri),
            ],
        }
    }
}

/// Whether the server still runs after a command.
pub open spec fn runs_after(running: bool, command: LspCommand) -> bool {
    running && !(command is Request)
}

/// Each call as an effect.
pub open spec fn as_effects(calls: Seq<ProtocolCall>) -> Seq<Effect> {
    Seq::new(calls.len(), |i: int| Effect::Call(calls[i]))
}

fn into_effects(calls: Vec<ProtocolCall>) -> (effects: Vec<Effect>)
    ensures
        effects@ == as_effects(calls@),
{
    let ghost all = calls@;
    let mut calls = calls;
    let mut effects: Vec<Effect> = Vec::new();
    while calls.len() > 0
        invariant
            effects@.len() + calls@.len() == all.len(),
            calls@ == all.subrange(effects@.len() as int, all.len() as int),
            effects@ == as_effects(all.subrange(0, effects@.len() as int)),
        decreases calls@.len(),
    {
        let ghost done = effects@;
        let call = calls.remove(0);
        assert(call == all[done.len() as int]);
        effects.push(Effect::Call(call));
        assert(effects@ =~= as_effects(all.subrange(0, done.len() + 1 as int)));
        assert(calls@ =~= all.subrange(done.len() + 1 as int, all.len() as int));
    }
    assert(all.subrange(0, all.len() as int) =~= all);
    effects
}

/// Has the client make the calls that a command asks for. What the client
/// refuses is left out.
pub fn dispatch(client: &mut LspClient, command: LspCommand) -> (calls: Vec<ProtocolCall>)
    ensures
        calls@ == calls_for(old(client).is_running(), command),
        final(client).is_running() == runs_after(old(client).is_running(), command),
{
    let outcome: LspClientResult<ProtocolCall> = match command {
        LspCommand::Request(request) => match request {
            LspRequest::Shutdown => {
                return client.shutdown();
            },
        },
        LspCommand::Notification(notification) => match notification {
            LspServerNotification::Synchronise(event, uri) => match event {
                Synchronise::DidChange(text, range) => client.did_change(uri, range.to_wire(), text),
                Synchronise::DidClose => client.did_close(uri),
                Synchronise::DidOpen(text) => client.did_open(uri, text),
                Synchronise::DidSave(text) => client.did_save(uri, text),
                Synchronise::WillSave => client.will_save(uri),
            },
        },
    };
    let mut calls: Vec<ProtocolCall> = Vec::new();
    match outcome {
        Ok(call) => {
            calls.push(call);
            assert(calls@ =~= seq![call]);
        },
        Err(_) => {},
    }
    calls
}

/// The state of a connection as contracts speak of it.
pub enum Link {
    Disconnected,
    /// Connected to a server that runs, or to one that was shut down.
    Connected { running: bool },
    Terminated,
}

/// A connection as contracts speak of it: its state and what waits in its two
/// queues, oldest first.
pub struct ConnectionView {
    pub link: Link,
    pub commands: Seq<LspCommand>,
    pub notifications: Seq<LspClientNotification>,
}

impl State {
    pub open spec fn link(self) -> Link {
        match self {
            State::Disconnected => Link::Disconnected,
            State::Connected(client) => Link::Connected { running: client.is_running() },
            State::Terminated => Link::Terminated,
        }
    }
}

impl Link {
    /// What the driving task is to do in this state.
    pub open spec fn step(self) -> Step {
        match self {
            Link::Disconnected => Step::Initialize,
            Link::Connected { .. } => Step::Receive,
            Link::Terminated => Step::Finish,
        }
    }
}

/// The effect that hands a notification of the server to the user interface, unchanged.
pub open spec fn delivery(notification: LspClientNotification) -> Effect {
    Effect::Deliver(LspMessage::Notification(notification))
}

impl ConnectionView {
    /// Whether something waits in one of the queues.
    pub open spec fn pending(self) -> bool {
        self.commands.len() > 0 || self.notifications.len() > 0
    }

    /// The end of the server's start. A connection that waits for it becomes
    /// connected and announces that, or ends for good and announces that. Any
    /// other connection stays as it is and announces nothing.
    pub open spec fn settle(self, outcome: LspClientResult<LspClient>) -> (
        ConnectionView,
        Option<LspMessage>,
    ) {
        if self.link is Disconnected {
            match outcome {
                Ok(client) => (
                    ConnectionView {
                        link: Link::Connected { running: client.is_running() },
                        ..self
                    },
                    Some(LspMessage::Initialized),
                ),
                Err(_) => (
                    ConnectionView { link: Link::Terminated, ..self },
                    Some(LspMessage::Shutdown),
                ),
            }
        } else {
            (self, None)
        }
    }

    /// One turn of the router. A connected router takes the oldest command if
    /// there is one: the client makes its calls, and a request to shut down
    /// ends the connection. With no command waiting it takes the oldest
    /// notification and hands it on. A router that is not connected does nothing.
    pub open spec fn turn(self) -> (ConnectionView, Seq<Effect>) {
        match self.link {
            Link::Connected { running } => {
                if self.commands.len() > 0 {
                    let command = self.commands[0];
                    let link = if command is Request {
                        Link::Terminated
                    } else {
                        Link::Connected { running }
                    };
                    (
                        ConnectionView { link, commands: self.commands.drop_first(), ..self },
                        as_effects(calls_for(running, command)),
                    )
                } else if self.notifications.len() > 0 {
                    (
                        ConnectionView { notifications: self.notifications.drop_first(), ..self },
                        seq![delivery(self.notifications[0])],
                    )
                } else {
                    (self, Seq::empty())
                }
            },
            _ => (self, Seq::empty()),
        }
    }

    /// Turn after turn, until the connection has ended or nothing waits any more.
    pub open spec fn drain(self) -> (ConnectionView, Seq<Effect>)
        decreases self.commands.len() + self.notifications.len(),
    {
        if self.link is Connected && self.pending() {
            let (next, first) = self.turn();
            let (last, rest) = next.drain();
            (last, first + rest)
        } else {
            (self, Seq::empty())
        }
    }
}

/// The connection to the language server, with the commands of the user
/// interface and the notifications of the server that wait to be routed.
#[derive(Debug)]
pub struct Connection {
    state: State,
    commands: Vec<LspCommand>,
    notifications: Vec<LspClientNotification>,
}

impl View for Connection {
    type V = ConnectionView;

    closed spec fn view(&self) -> ConnectionView {
        ConnectionView {
            link: self.state.link(),
            commands: self.commands@,
            notifications: self.notifications@,
        }
    }
}

/// A connection that has not started its server yet and on which nothing waits.
pub fn connect() -> (connection: Connection)
    ensures
        connection@.link is Disconnected,
        connection@.commands.len() == 0,
        connection@.notifications.len() == 0,
{
    Connection { state: State::Disconnected, commands: Vec::new(), notifications: Vec::new() }
}

impl Connection {
    /// What the driving task is to do next.
    pub fn next_step(&self) -> (step: Step)
        ensures
            step == self@.link.step(),
    {
        match &self.state {
            State::Disconnected => Step::Initialize,
            State::Connected(_) => Step::Receive,
            State::Terminated => Step::Finish,
        }
    }

    /// Tells whether something waits to be routed.
    pub fn has_pending(&self) -> (pending: bool)
        ensures
            pending == self@.pending(),
    {
        self.commands.len() > 0 || self.notifications.len() > 0
    }

    /// Takes the end of the server's start and tells what is announced to the
    /// user interface.
    pub fn initialized(&mut self, outcome: LspClientResult<LspClient>) -> (message: Option<
        LspMessage,
    >)
        ensures
            final(self)@ == old(self)@.settle(outcome).0,
            message == old(self)@.settle(outcome).1,
    {
        match &self.state {
            State::Disconnected => {},
            _ => {
                return None;
            },
        }
        match outcome {
            Ok(client) => {
                self.state = State::Connected(client);
                Some(LspMessage::Initialized)
            },
            Err(_) => {
                self.state = State::Terminated;
                Some(LspMessage::Shutdown)
            },
        }
    }

    /// Puts a command of the user interface at the end of its queue.
    pub fn enqueue(&mut self, command: LspCommand)
        ensures
            final(self)@ == (ConnectionView {
                commands: old(self)@.commands.push(command),
                ..old(self)@
            }),
    {
        self.commands.push(command);
    }

    /// Puts a notification of the server at the end of its queue.
    pub fn notify(&mut self, notification: LspClientNotification)
        ensures
            final(self)@ == (ConnectionView {
                notifications: old(self)@.notifications.push(notification),
                ..old(self)@
            }),
    {
        self.notifications.push(notification);
    }

    /// One turn of the router: the oldest command if one waits, else the
    /// oldest notification.
    pub fn receive_message(&mut self) -> (effects: Vec<Effect>)
        ensures
            final(self)@ == old(self)@.turn().0,
            effects@ == old(self)@.turn().1,
    {
        match &mut self.state {
            State::Connected(client) => {
                if self.commands.len() > 0 {
                    let command = self.commands.remove(0);
                    let ends = match &command {
                        LspCommand::Request(_) => true,
                        LspCommand::Notification(_) => false,
                    };
                    let calls = dispatch(client, command);
                    if ends {
                        self.state = State::Terminated;
                    }
                    assert(self.commands@ =~= old(self).commands@.drop_first());
                    into_effects(calls)
                } else if self.notifications.len() > 0 {
                    let notification = self.notifications.remove(0);
                    assert(self.notifications@ =~= old(self).notifications@.drop_first());
                    let mut effects: Vec<Effect> = Vec::new();
                    effects.push(Effect::Deliver(LspMessage::Notification(notification)));
                    assert(effects@ =~= seq![delivery(notification)]);
                    effects
                } else {
                    Vec::new()
                }
            },
            _ => Vec::new(),
        }
    }

    /// Routes all that waits, turn after turn, until the connection has ended
    /// or both queues are empty.
    pub fn drain(&mut self) -> (effects: Vec<Effect>)
        ensures
            final(self)@ == old(self)@.drain().0,
            effects@ == old(self)@.drain().1,
    {
        let mut effects: Vec<Effect> = Vec::new();
        while self.next_step() == Step::Receive && self.has_pending()
            invariant
                old(self)@.drain().0 == self@.drain().0,
                old(self)@.drain().1 == effects@ + self@.drain().1,
            decreases self@.commands.len() + self@.notifications.len(),
        {
            let ghost before = self@;
            let ghost done = effects@;
            let mut turn = self.receive_message();
            effects.append(&mut turn);
            assert(done + (before.turn().1 + self@.drain().1) =~= (done + before.turn().1)
                + self@.drain().1);
        }
        assert(effects@ + Seq::<Effect>::empty() =~= effects@);
        effects
    }
}

/// The calls that a queue of commands leads to when it is routed from its
/// oldest command on: the calls of each command in turn, up to and with the
/// first request to shut down.
pub open spec fn routed(running: bool, commands: Seq<LspCommand>) -> Seq<ProtocolCall>
    decreases commands.len(),
{
    if commands.len() == 0 {
        Seq::empty()
    } else if commands[0] is Request {
        calls_for(running, commands[0])
    } else {
        calls_for(running, commands[0]) + routed(running, commands.drop_first())
    }
}

/// Each notification handed on to the user interface, in order.
pub open spec fn deliveries(notifications: Seq<LspClientNotification>) -> Seq<Effect> {
    Seq::new(notifications.len(), |i: int| delivery(notifications[i]))
}

/// Whether one of the commands asks for the connection to be shut down.
pub open spec fn asks_shutdown(commands: Seq<LspCommand>) -> bool {
    exists|i: int| 0 <= i < commands.len() && (#[trigger] commands[i]) is Request
}

/// Commands go before notifications: when a connected router routes all that
/// waits, the calls of the waiting commands come first and in their order, and
/// only then the waiting notifications are handed on, in their order. If a
/// command asks to shut down, the connection ends there and no notification
/// is handed on.
pub proof fn lemma_commands_before_notifications(view: ConnectionView)
    requires
        view.link is Connected,
    ensures
        view.drain().1 == as_effects(routed(view.link->running, view.commands)) + (
        if asks_shutdown(view.commands) {
            Seq::<Effect>::empty()
        } else {
            deliveries(view.notifications)
        }),
        view.drain().0.link == (if asks_shutdown(view.commands) {
            Link::Terminated
        } else {
            view.link
        }),
    decreases view.commands.len() + view.notifications.len(),
{
    let running = view.link->running;
    if view.commands.len() > 0 {
        let command = view.commands[0];
        let rest = view.commands.drop_first();
        let (next, first) = view.turn();
        assert forall|i: int| 0 <= i < rest.len() implies rest[i] == view.commands[i + 1] by {}
        if command is Request {
            assert(asks_shutdown(view.commands));
            assert(next.drain().1 =~= Seq::<Effect>::empty());
            assert(first + next.drain().1 =~= first + Seq::<Effect>::empty());
        } else {
            lemma_commands_before_notifications(next);
            if asks_shutdown(rest) {
                let i = choose|i: int| 0 <= i < rest.len() && (#[trigger] rest[i]) is Request;
                assert(view.commands[i + 1] is Request);
            }
            if asks_shutdown(view.commands) {
                let i = choose|i: int|
                    0 <= i < view.commands.len() && (#[trigger] view.commands[i]) is Request;
                assert(rest[i - 1] is Request);
            }
            let later = if asks_shutdown(view.commands) {
                Seq::<Effect>::empty()
            } else {
                deliveries(view.notifications)
            };
            assert(as_effects(calls_for(running, command) + routed(running, rest)) =~= as_effects(
                calls_for(running, command),
            ) + as_effects(routed(running, rest)));
            assert(first + (as_effects(routed(running, rest)) + later) =~= (first + as_effects(
                routed(running, rest),
            )) + later);
        }
    } else if view.notifications.len() > 0 {
        let (next, first) = view.turn();
        lemma_commands_before_notifications(next);
        assert(!asks_shutdown(view.commands));
        assert(!asks_shutdown(next.commands));
        assert(first + deliveries(next.notifications) =~= deliveries(view.notifications));
        assert(as_effects(routed(running, view.commands)) =~= Seq::<Effect>::empty());
        assert(Seq::<Effect>::empty() + deliveries(view.notifications) =~= deliveries(
            view.notifications,
        ));
        assert(Seq::<Effect>::empty() + deliveries(next.notifications) =~= deliveries(
            next.notifications,
        ));
    } else {
        assert(!asks_shutdown(view.commands));
        assert(as_effects(routed(running, view.commands)) + deliveries(view.notifications)
            =~= Seq::<Effect>::empty());
    }
}

/// One thing that happens to a connection in the course of its life.
pub enum Event {
    /// The start of the server has ended, well or badly.
    Settled(LspClientResult<LspClient>),
    /// The user interface has sent a command.
    Command(LspCommand),
    /// The server has sent a notification.
    Notification(LspClientNotification),
    /// The router takes a turn.
    Turn,
}

impl ConnectionView {
    /// The connection after `event`, and what the event has it do.
    pub open spec fn apply(self, event: Event) -> (ConnectionView, Seq<Effect>) {
        match event {
            Event::Settled(outcome) => (
                self.settle(outcome).0,
                match self.settle(outcome).1 {
                    Some(message) => seq![Effect::Deliver(message)],
                    None => Seq::empty(),
                },
            ),
            Event::Command(command) => (
                ConnectionView { commands: self.commands.push(command), ..self },
                Seq::empty(),
            ),
            Event::Notification(notification) => (
                ConnectionView { notifications: self.notifications.push(notification), ..self },
                Seq::empty(),
            ),
            Event::Turn => self.turn(),
        }
    }

    /// The connection after a run of events, and all that they have it do, in order.
    pub open spec fn run(self, events: Seq<Event>) -> (ConnectionView, Seq<Effect>)
        decreases events.len(),
    {
        if events.len() == 0 {
            (self, Seq::empty())
        } else {
            let (next, first) = self.apply(events[0]);
            let (last, rest) = next.run(events.drop_first());
            (last, first + rest)
        }
    }
}

/// How often `call` is made among the effects.
pub open spec fn occurrences(effects: Seq<Effect>, call: ProtocolCall) -> nat
    decreases effects.len(),
{
    if effects.len() == 0 {
        0
    } else {
        let now: nat = if effects[0] == Effect::Call(call) {
            1
        } else {
            0
        };
        now + occurrences(effects.drop_first(), call)
    }
}

proof fn lemma_occurrences_add(first: Seq<Effect>, rest: Seq<Effect>, call: ProtocolCall)
    ensures
        occurrences(first + rest, call) == occurrences(first, call) + occurrences(rest, call),
    decreases first.len(),
{
    if first.len() == 0 {
        assert(first + rest =~= rest);
    } else {
        assert((first + rest).drop_first() =~= first.drop_first() + rest);
        lemma_occurrences_add(first.drop_first(), rest, call);
    }
}

proof fn lemma_occurrences_in_turn(view: ConnectionView, call: ProtocolCall)
    requires
        call == ProtocolCall::Exit || call == ProtocolCall::Shutdown,
    ensures
        occurrences(view.turn().1, call) <= 1,
        occurrences(view.turn().1, call) == 1 ==> view.turn().0.link is Terminated,
        !(view.link matches Link::Connected { running: true }) ==> occurrences(
            view.turn().1,
            call,
        ) == 0,
{
    reveal_with_fuel(occurrences, 4);
    let effects = view.turn().1;
    if view.link is Connected {
        let running = view.link->running;
        if view.commands.len() > 0 {
            let command = view.commands[0];
            let calls = calls_for(running, command);
            assert(effects == as_effects(calls));
            if running {
                match command {
                    LspCommand::Request(LspRequest::Shutdown) => {
                        assert(effects.len() == 3);
                        assert(effects[0] == Effect::Call(ProtocolCall::Shutdown));
                        assert(effects.drop_first()[0] == Effect::Call(ProtocolCall::Exit));
                        assert(effects.drop_first().drop_first()[0] == Effect::Call(
                            ProtocolCall::Stop,
                        ));
                        assert(effects.drop_first().drop_first().drop_first().len() == 0);
                    },
                    LspCommand::Notification(LspServerNotification::Synchronise(event, uri)) => {
                        assert(effects.len() == 1);
                        assert(effects[0] == Effect::Call(call_for(event, uri)));
                        assert(effects.drop_first().len() == 0);
                    },
                }
            } else {
                assert(effects.len() == 0);
            }
        } else if view.notifications.len() > 0 {
            assert(effects.len() == 1);
            assert(effects.drop_first().len() == 0);
        }
    }
}

/// Shutting down happens once. Whatever happens to a connection in the course
/// of its life, and however often it is asked to shut down, the request
/// `shutdown` and the notification `exit` are each sent at most once; and a
/// connection that has ended, or whose server was shut down, sends neither.
pub proof fn lemma_shuts_down_once(view: ConnectionView, events: Seq<Event>, call: ProtocolCall)
    requires
        call == ProtocolCall::Exit || call == ProtocolCall::Shutdown,
    ensures
        occurrences(view.run(events).1, call) <= 1,
        view.link is Terminated || view.link == (Link::Connected { running: false })
            ==> occurrences(view.run(events).1, call) == 0,
    decreases events.len(),
{
    reveal_with_fuel(occurrences, 2);
    if events.len() > 0 {
        let (next, first) = view.apply(events[0]);
        let rest = next.run(events.drop_first()).1;
        lemma_shuts_down_once(next, events.drop_first(), call);
        lemma_occurrences_add(first, rest, call);
        match events[0] {
            Event::Turn => {
                lemma_occurrences_in_turn(view, call);
            },
            Event::Settled(outcome) => {
                assert(occurrences(first, call) == 0);
            },
            _ => {},
        }
    }
}

} // verus!
