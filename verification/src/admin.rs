//! The admin client: a typed layer on the WebSocket client. It knows three
//! messages, writes them into an envelope with the caller's token, and keeps
//! track of which handlers want which message.

use crate::bus::{bus_recv, fresh_slot, BusView, RecvError};
use crate::client::{
    client_connect, client_step, hook_answers, in_session, new_client, outputs_view,
    typed_answer, ClientError, ClientView, Input, Output, OutputView, SendError, WSClient,
};
use crate::json::{quote, quoted};
use crate::message::{CtrlView, EventMessage, EventView, WSClientCtrl};
use crate::option::WSOption;
use crate::transform::{
    append_header_member, header_member, GenHader, TransformError, WSCell, WSClientHeader,
};
use vstd::prelude::*;
use vstd::string::*;

verus! {

/// What the admin client knows of its caller.
#[derive(Debug, PartialEq, Eq)]
pub struct AdminWSContext {
    pub token: String,
}

impl Clone for AdminWSContext {
    fn clone(&self) -> (r: Self)
        ensures
            r.token@ == self.token@,
    {
        AdminWSContext { token: self.token.clone() }
    }
}

impl GenHader for AdminWSContext {
    open spec fn header_token(&self) -> Seq<char> {
        self.token@
    }

    fn gen_header(&self) -> (header: WSClientHeader) {
        WSClientHeader { token: self.token.clone() }
    }
}

/// The token that a context puts in the header, if there is a context.
pub open spec fn context_token(context: Option<AdminWSContext>) -> Option<Seq<char>> {
    match context {
        Some(c) => Some(c.token@),
        None => None,
    }
}

/// A message of the admin protocol.
#[derive(Debug, PartialEq, Eq, Hash)]
pub enum AdminWSCell {
    Open {  },
    Close {  },
    Test { data: String },
}

pub enum AdminCellView {
    Open,
    Close,
    Test(Seq<char>),
}

impl View for AdminWSCell {
    type V = AdminCellView;

    open spec fn view(&self) -> AdminCellView {
        match self {
            AdminWSCell::Open {  } => AdminCellView::Open,
            AdminWSCell::Close {  } => AdminCellView::Close,
            AdminWSCell::Test { data } => AdminCellView::Test(data@),
        }
    }
}

impl Clone for AdminWSCell {
    fn clone(&self) -> (r: Self)
        ensures
            r@ == self@,
    {
        match self {
            AdminWSCell::Open {  } => AdminWSCell::Open {  },
            AdminWSCell::Close {  } => AdminWSCell::Close {  },
            AdminWSCell::Test { data } => AdminWSCell::Test { data: data.clone() },
        }
    }
}

/// The number by which handlers are found: 0 for `Open`, 1 for `Close`, 2
/// for `Test`, whatever a `Test` carries.
pub open spec fn cell_kind(cell: AdminCellView) -> u32 {
    match cell {
        AdminCellView::Open => 0,
        AdminCellView::Close => 1,
        AdminCellView::Test(_) => 2,
    }
}

/// A message as a JSON object with one member, named after the message.
pub open spec fn cell_json(cell: AdminCellView) -> Seq<char> {
    match cell {
        AdminCellView::Open => "{\"open\":{}}"@,
        AdminCellView::Close => "{\"close\":{}}"@,
        AdminCellView::Test(data) => "{\"test\":{\"data\":"@ + quoted(data) + "}}"@,
    }
}

/// The envelope of a message: `{"data":<message>,"header":{"token":"..."}}`,
/// the header left out where there is no context.
pub open spec fn admin_envelope(cell: AdminCellView, token: Option<Seq<char>>) -> Seq<char> {
    "{\"data\":"@ + cell_json(cell) + header_member(token) + "}"@
}

/// A message as the caller's log shows it.
pub open spec fn cell_text(cell: AdminCellView) -> Seq<char> {
    match cell {
        AdminCellView::Open => "open()"@,
        AdminCellView::Close => "close()"@,
        AdminCellView::Test(data) => "test("@ + data + ": String)"@,
    }
}

impl AdminWSCell {
    /// The number by which handlers for this message are found.
    pub fn kind(&self) -> (r: u32)
        ensures
            r == cell_kind(self@),
    {
        match self {
            AdminWSCell::Open {  } => 0,
            AdminWSCell::Close {  } => 1,
            AdminWSCell::Test { .. } => 2,
        }
    }

    /// The message as a JSON object.
    pub fn to_json(&self) -> (r: String)
        ensures
            r@ == cell_json(self@),
    {
        match self {
            AdminWSCell::Open {  } => String::from_str("{\"open\":{}}"),
            AdminWSCell::Close {  } => String::from_str("{\"close\":{}}"),
            AdminWSCell::Test { data } => {
                let mut out = String::from_str("{\"test\":{\"data\":");
                let literal = quote(data.as_str());
                out.append(literal.as_str());
                out.append("}}");
                out
            },
        }
    }

    /// The wire text of the message: its envelope, with the header of the
    /// context if there is one. This never fails.
    pub fn to_string(&self, context: &Option<AdminWSContext>) -> (r: Result<String, TransformError>)
        ensures
            r matches Ok(text) && text@ == admin_envelope(self@, context_token(*context)),
    {
        let header = match context {
            Some(c) => Some(c.gen_header()),
            None => None,
        };
        let mut out = String::from_str("{\"data\":");
        let object = self.to_json();
        out.append(object.as_str());
        append_header_member(&mut out, &header);
        out.append("}");
        assert(out@ =~= admin_envelope(self@, context_token(*context)));
        Ok(out)
    }

    /// The message that stands for "the connection has opened".
    pub fn open_cell(context: &Option<AdminWSContext>) -> (r: Result<Self, TransformError>)
        ensures
            r matches Ok(cell) && cell@ == AdminCellView::Open,
    {
        Ok(AdminWSCell::Open {  })
    }

    /// The message that stands for "the connection has closed".
    pub fn close_cell(context: &Option<AdminWSContext>) -> (r: Result<Self, TransformError>)
        ensures
            r matches Ok(cell) && cell@ == AdminCellView::Close,
    {
        Ok(AdminWSCell::Close {  })
    }

    /// The message as a log line shows it.
    pub fn describe(&self) -> (r: String)
        ensures
            r@ == cell_text(self@),
    {
        match self {
            AdminWSCell::Open {  } => String::from_str("open()"),
            AdminWSCell::Close {  } => String::from_str("close()"),
            AdminWSCell::Test { data } => {
                let mut out = String::from_str("test(");
                out.append(data.as_str());
                out.append(": String)");
                out
            },
        }
    }
}

/// The handlers registered for one kind of message, in the order in which
/// they were registered. A registration is a pair of the kind and the
/// handler's number.
pub open spec fn handlers_for(registry: Seq<(u32, usize)>, kind: u32) -> Seq<usize>
    decreases registry.len(),
{
    if registry.len() == 0 {
        Seq::empty()
    } else {
        let earlier = handlers_for(registry.drop_last(), kind);
        if registry.last().0 == kind {
            earlier.push(registry.last().1)
        } else {
            earlier
        }
    }
}

/// The admin client as a mathematical value.
pub struct AdminView {
    pub client: ClientView,
    /// Every registration so far, oldest first.
    pub registry: Seq<(u32, usize)>,
}

/// The options with which the admin client connects: it retries for ever,
/// every five seconds, and gives a session up after twenty seconds without
/// a ping.
pub open spec fn admin_connect(c: ClientView) -> (ClientView, Seq<OutputView>) {
    client_connect(c, "wss://www.miemie.tech/mystar/ws/"@, 20_000, 5_000, None)
}

/// The admin client: a WebSocket client for admin messages, and the list of
/// who handles what.
pub struct AdminWSClient {
    ws_client: WSClient<AdminWSContext>,
    event_map: Vec<(u32, usize)>,
}

impl View for AdminWSClient {
    type V = AdminView;

    closed spec fn view(&self) -> AdminView {
        AdminView { client: self.ws_client@, registry: self.event_map@ }
    }
}

impl AdminWSClient {
    /// The context of the client inside, if one is set.
    pub closed spec fn context_of(&self) -> Option<AdminWSContext> {
        self.ws_client.context_of()
    }

    /// An admin client without context or handlers, not yet connected.
    pub fn init() -> (r: Self)
        ensures
            r@ == (AdminView { client: new_client(), registry: Seq::empty() }),
            r.context_of().is_none(),
    {
        AdminWSClient { ws_client: WSClient::new(), event_map: Vec::new() }
    }

    /// Sets the context from which the header of each envelope is made.
    pub fn context(&mut self, c: AdminWSContext)
        ensures
            final(self).context_of() == Some(c),
            final(self)@ == (AdminView {
                client: ClientView { token: Some(c.token@), ..old(self)@.client },
                ..old(self)@
            }),
    {
        self.ws_client.context(c);
    }

    /// Registers a handler for messages of the kind of `cell` and returns
    /// the handler's number: the count of registrations made before.
    pub fn on(&mut self, cell: &AdminWSCell) -> (handler: usize)
        ensures
            handler == old(self)@.registry.len(),
            final(self).context_of() == old(self).context_of(),
            final(self)@ == (AdminView {
                registry: old(self)@.registry.push((cell_kind(cell@), handler)),
                ..old(self)@
            }),
    {
        let handler = self.event_map.len();
        self.event_map.push((cell.kind(), handler));
        handler
    }

    /// The handlers to call for a message, in the order in which they were
    /// registered.
    pub fn dispatch(&self, cell: &AdminWSCell) -> (handlers: Vec<usize>)
        ensures
            handlers@ == handlers_for(self@.registry, cell_kind(cell@)),
    {
        let kind = cell.kind();
        let mut handlers: Vec<usize> = Vec::new();
        let mut i: usize = 0;
        assert(self.event_map@.take(0) =~= Seq::<(u32, usize)>::empty());
        while i < self.event_map.len()
            invariant
                i <= self.event_map@.len(),
                handlers@ == handlers_for(self.event_map@.take(i as int), kind),
            decreases self.event_map@.len() - i,
        {
            let entry = self.event_map[i];
            proof {
                let next = self.event_map@.take(i + 1);
                assert(next.drop_last() =~= self.event_map@.take(i as int));
                assert(next.last() == entry);
            }
            if entry.0 == kind {
                handlers.push(entry.1);
            }
            i = i + 1;
        }
        assert(self.event_map@.take(self.event_map@.len() as int) =~= self.event_map@);
        handlers
    }

    /// Queues a message for the running session: its envelope goes out as
    /// one text frame when the session takes the command up. Without a
    /// running session this fails and nothing is queued.
    pub fn emit(&mut self, cell: &AdminWSCell) -> (r: Result<(), SendError>)
        ensures
            final(self).context_of() == old(self).context_of(),
            in_session(old(self)@.client) ==> r.is_ok() && final(self)@ == (AdminView {
                client: ClientView {
                    commands: old(self)@.client.commands.push(
                        CtrlView::SendText(
                            admin_envelope(cell@, context_token(old(self).context_of())),
                        ),
                    ),
                    ..old(self)@.client
                },
                ..old(self)@
            }),
            !in_session(old(self)@.client) ==> r == Err::<(), SendError>(SendError::NoSession)
                && final(self)@ == old(self)@,
    {
        if !self.ws_client.has_session() {
            return Err(SendError::NoSession);
        }
        let written = cell.to_string(self.ws_client.get_context());
        self.ws_client.send_written(written)
    }

    /// Starts the client with the admin options and returns what the shell
    /// is to do first.
    pub fn run(&mut self) -> (outputs: Vec<Output>)
        ensures
            final(self).context_of() == old(self).context_of(),
            final(self)@.registry == old(self)@.registry,
            (final(self)@.client, outputs_view(outputs@)) == admin_connect(old(self)@.client),
    {
        let option = WSOption {
            url: String::from_str("wss://www.miemie.tech/mystar/ws/"),
            retry_interval: 5_000,
            close_after: 20_000,
            retry_max_count: None,
        };
        self.ws_client.connect(&option)
    }

    /// Begins a subscription to the client's events and returns its number.
    pub fn subscribe(&mut self) -> (id: usize)
        ensures
            id == old(self)@.client.bus.slots.len(),
            final(self).context_of() == old(self).context_of(),
            final(self)@ == (AdminView {
                client: ClientView {
                    bus: BusView {
                        slots: old(self)@.client.bus.slots.push(fresh_slot()),
                        ..old(self)@.client.bus
                    },
                    ..old(self)@.client
                },
                ..old(self)@
            }),
    {
        self.ws_client.subscribe()
    }

    /// Reads the next event of subscription `id`.
    pub fn recv(&mut self, id: usize) -> (r: Result<EventMessage, RecvError>)
        ensures
            final(self).context_of() == old(self).context_of(),
            final(self)@ == (AdminView {
                client: ClientView {
                    bus: bus_recv(old(self)@.client.bus, id as nat).0,
                    ..old(self)@.client
                },
                ..old(self)@
            }),
            match r {
                Ok(event) => bus_recv(old(self)@.client.bus, id as nat).1 == Ok::<
                    EventView,
                    RecvError,
                >(event@),
                Err(e) => bus_recv(old(self)@.client.bus, id as nat).1 == Err::<
                    EventView,
                    RecvError,
                >(e),
            },
    {
        self.ws_client.recv(id)
    }

    /// Takes one report from the shell at time `now` and says what the
    /// shell is to do, in order.
    pub fn handle(&mut self, input: Input, now: u64) -> (outputs: Vec<Output>)
        ensures
            final(self).context_of() == old(self).context_of(),
            final(self)@.registry == old(self)@.registry,
            (final(self)@.client, outputs_view(outputs@)) == client_step(
                old(self)@.client,
                input@,
                now,
            ),
    {
        self.ws_client.handle(input, now)
    }

    /// How many commands wait to be taken up.
    pub fn queued(&self) -> (r: usize)
        ensures
            r == self@.client.commands.len(),
    {
        self.ws_client.queued()
    }

    /// Puts a command on the command queue, whether or not a session is
    /// running.
    pub fn submit(&mut self, ctrl: WSClientCtrl)
        ensures
            final(self).context_of() == old(self).context_of(),
            final(self)@ == (AdminView {
                client: ClientView {
                    commands: old(self)@.client.commands.push(ctrl@),
                    ..old(self)@.client
                },
                ..old(self)@
            }),
    {
        self.ws_client.submit(ctrl);
    }

    /// Asks the running session to close the connection, after which the
    /// client stops. Without a running session this fails and nothing is
    /// queued.
    pub fn close(&mut self) -> (r: Result<(), SendError>)
        ensures
            final(self).context_of() == old(self).context_of(),
            in_session(old(self)@.client) ==> r.is_ok() && final(self)@ == (AdminView {
                client: ClientView {
                    commands: old(self)@.client.commands.push(CtrlView::Exit),
                    ..old(self)@.client
                },
                ..old(self)@
            }),
            !in_session(old(self)@.client) ==> r == Err::<(), SendError>(SendError::NoSession)
                && final(self)@ == old(self)@,
    {
        self.ws_client.close()
    }

    /// Reads the next event of subscription `id` as a typed value, as the
    /// client inside does.
    pub fn inner_recv<O: WSCell<AdminWSContext>>(&mut self, id: usize) -> (r: Result<
        O,
        ClientError,
    >)
        ensures
            final(self).context_of() == old(self).context_of(),
            final(self)@ == (AdminView {
                client: ClientView {
                    bus: bus_recv(old(self)@.client.bus, id as nat).0,
                    ..old(self)@.client
                },
                ..old(self)@
            }),
            match bus_recv(old(self)@.client.bus, id as nat).1 {
                Err(e) => r == Err::<O, ClientError>(ClientError::Bus(e)),
                Ok(read) => exists|event: EventMessage, answer: Result<O, TransformError>|
                    event@ == read && #[trigger] hook_answers(
                        event,
                        &old(self).context_of(),
                        answer,
                    ) && r == typed_answer(answer),
            },
    {
        self.ws_client.inner_recv::<O>(id)
    }

    /// The context, if one is set.
    pub fn get_context(&self) -> (r: &Option<AdminWSContext>)
        ensures
            *r == self.context_of(),
    {
        self.ws_client.get_context()
    }
}

} // verus!
