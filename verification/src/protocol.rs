//! The fixed message set of the control protocol: the two outgoing requests
//! of the control service, the single incoming response event, and the proxy
//! that queues a complete command request.

use vstd::prelude::*;

verus! {

/// An outgoing request on the control service: append one argument to the
/// pending server-side list, or run the accumulated list as a command.
pub enum WireRequest {
    AddArgument(String),
    RunCommand,
}

/// The single response event delivered on the object created by the
/// run-command request.
pub enum CommandResponse {
    Success { output: String },
    Failure { failure_message: String },
}

/// The complete outgoing request sequence for a command payload: one
/// append-argument request per argument, in order, then exactly one
/// run-command request.
pub open spec fn command_wire(args: Seq<String>) -> Seq<WireRequest> {
    args.map_values(|s: String| WireRequest::AddArgument(s)).push(WireRequest::RunCommand)
}

/// A bound control-service proxy: it queues requests for the remote object.
/// Arguments are appended in caller order and the queue is closed by the one
/// run-command request, after which nothing more may be appended.
pub struct ControlServiceProxy {
    pending: Vec<WireRequest>,
    ran: bool,
}

impl ControlServiceProxy {
    /// The requests queued so far, in the order they will be sent.
    pub closed spec fn pending_view(&self) -> Seq<WireRequest> {
        self.pending@
    }

    /// Whether the run-command request has closed the argument list.
    pub closed spec fn ran(&self) -> bool {
        self.ran
    }

    /// A freshly bound proxy with nothing queued.
    pub fn bind() -> (r: ControlServiceProxy)
        ensures
            r.pending_view() == Seq::<WireRequest>::empty(),
            !r.ran(),
    {
        ControlServiceProxy { pending: Vec::new(), ran: false }
    }

    /// Queues one append-argument request.  Only valid while the argument
    /// list is still open: the server consumes the list atomically when the
    /// run-command request arrives, so nothing may be appended afterwards.
    pub fn add_argument(&mut self, text: String)
        requires
            !old(self).ran(),
        ensures
            final(self).pending_view() == old(self).pending_view().push(
                WireRequest::AddArgument(text),
            ),
            !final(self).ran(),
    {
        self.pending.push(WireRequest::AddArgument(text));
    }

    /// Queues the one run-command request and closes the argument list.
    pub fn run_command(&mut self)
        requires
            !old(self).ran(),
        ensures
            final(self).pending_view() == old(self).pending_view().push(WireRequest::RunCommand),
            final(self).ran(),
    {
        self.pending.push(WireRequest::RunCommand);
        self.ran = true;
    }

    /// Hands the queued requests over for sending.
    pub fn into_requests(self) -> (r: Vec<WireRequest>)
        ensures
            r@ == self.pending_view(),
    {
        self.pending
    }
}

/// Builds the complete outgoing request sequence for the given command
/// payload, by one append-argument call per element, in order, followed by
/// exactly one run-command call.
pub fn encode_command(args: &Vec<String>) -> (r: Vec<WireRequest>)
    ensures
        r@ == command_wire(args@),
{
    let mut proxy = ControlServiceProxy::bind();
    let mut i: usize = 0;
    while i < args.len()
        invariant
            0 <= i <= args.len(),
            !proxy.ran(),
            proxy.pending_view() == args@.subrange(0, i as int).map_values(
                |s: String| WireRequest::AddArgument(s),
            ),
        decreases args.len() - i,
    {
        let ghost before: Seq<WireRequest> = proxy.pending_view();
        proxy.add_argument(args[i].clone());
        proof {
            assert(args@.subrange(0, i as int + 1).map_values(
                |s: String| WireRequest::AddArgument(s),
            ) =~= before.push(WireRequest::AddArgument(args@[i as int])));
        }
        i = i + 1;
    }
    proxy.run_command();
    proof {
        assert(args@.subrange(0, args@.len() as int) =~= args@);
    }
    proxy.into_requests()
}

/// The shape of the encoded request sequence: exactly one append-argument
/// request per payload element, in payload order, followed by exactly one
/// run-command request and nothing else.
pub proof fn lemma_command_wire_shape(args: Seq<String>)
    ensures
        command_wire(args).len() == args.len() + 1,
        forall|i: int|
            0 <= i < args.len() ==> #[trigger] command_wire(args)[i] == WireRequest::AddArgument(
                args[i],
            ),
        command_wire(args)[args.len() as int] == WireRequest::RunCommand,
{
}

} // verus!
