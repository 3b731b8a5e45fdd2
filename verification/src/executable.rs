//! Compiled programs bound to a client, and their execution.
//!
//! Execution validates its arguments before crossing the boundary, hands the
//! plugin one argument list and one output list, and afterwards holds the
//! plugin to its contract: as many non-null output buffers as the program
//! declares, in declaration order, and a non-null completion event. Send and
//! receive callbacks run on plugin-internal threads during execution; each
//! side latches the first error any invocation reported, and a latched error
//! is surfaced once the initiating call returns, even when the plugin itself
//! reported success.

use vstd::prelude::*;

use crate::buffer::BUFFER_TYPE_INVALID;
use crate::buffer::PJRTBuffer;
use crate::error::ERROR_CODE_INTERNAL;
use crate::error::PJRTError;
use crate::error::PJRTErrorKind;
use crate::event::PJRTEvent;
use crate::handle::HandleState;
use crate::handle::OwnedHandle;
use crate::raw::clone_bytes;
use crate::raw::PluginFailure;
use crate::raw::RawArray;

verus! {

/// One send-callback invocation as the plugin reports it: the chunk object's
/// address, the total transfer size, and whether this chunk is the last.
#[derive(Clone, Copy, Debug)]
pub struct PJRTSendCallbackInvocation {
    pub chunk: u64,
    pub total_size_in_bytes: usize,
    pub done: bool,
}

/// One receive-callback invocation: the address of the stream to feed.
#[derive(Clone, Copy, Debug)]
pub struct PJRTRecvCallbackInvocation {
    pub stream: u64,
}

/// A send callback subscribed for one channel.
#[derive(Clone, Copy, Debug)]
pub struct PJRTSendCallbackRegistration {
    pub channel_id: i64,
}

/// A receive callback subscribed for one channel.
#[derive(Clone, Copy, Debug)]
pub struct PJRTRecvCallbackRegistration {
    pub channel_id: i64,
}

/// The error latch of one send callback: the first failure any invocation
/// reported, never overwritten by later ones.
#[derive(Debug)]
pub struct SendCallbackState {
    pub first_error: Option<String>,
}

impl SendCallbackState {
    pub fn new() -> (s: SendCallbackState)
        ensures
            s.first_error is None,
    {
        SendCallbackState { first_error: None }
    }

    /// Latches the first failure: a later one never overwrites it.
    pub fn set_first_error(&mut self, message: String)
        ensures
            old(self).first_error is None ==> final(self).first_error == Some(message),
            old(self).first_error is Some ==> final(self).first_error == old(self).first_error,
    {
        if self.first_error.is_none() {
            self.first_error = Some(message);
        }
    }

    /// The latched failure, if any invocation reported one.
    pub fn first_error(&self) -> (r: Option<String>)
        ensures
            r is Some <==> self.first_error is Some,
            r matches Some(m) ==> m@ == self.first_error->Some_0@,
    {
        match &self.first_error {
            Some(m) => Some(m.clone()),
            None => None,
        }
    }
}

/// The error latch of one receive callback.
#[derive(Debug)]
pub struct RecvCallbackState {
    pub first_error: Option<String>,
}

impl RecvCallbackState {
    pub fn new() -> (s: RecvCallbackState)
        ensures
            s.first_error is None,
    {
        RecvCallbackState { first_error: None }
    }

    /// Latches the first failure: a later one never overwrites it.
    pub fn set_first_error(&mut self, message: String)
        ensures
            old(self).first_error is None ==> final(self).first_error == Some(message),
            old(self).first_error is Some ==> final(self).first_error == old(self).first_error,
    {
        if self.first_error.is_none() {
            self.first_error = Some(message);
        }
    }

    /// The latched failure, if any invocation reported one.
    pub fn first_error(&self) -> (r: Option<String>)
        ensures
            r is Some <==> self.first_error is Some,
            r matches Some(m) ==> m@ == self.first_error->Some_0@,
    {
        match &self.first_error {
            Some(m) => Some(m.clone()),
            None => None,
        }
    }
}

/// The first latched send error over the callbacks, in callback order.
pub open spec fn spec_first_send_error(states: Seq<SendCallbackState>) -> Option<Seq<char>>
    decreases states.len(),
{
    if states.len() == 0 {
        None
    } else if states[0].first_error is Some {
        Some(states[0].first_error->Some_0@)
    } else {
        spec_first_send_error(states.drop_first())
    }
}

/// The first latched receive error over the callbacks, in callback order.
pub open spec fn spec_first_recv_error(states: Seq<RecvCallbackState>) -> Option<Seq<char>>
    decreases states.len(),
{
    if states.len() == 0 {
        None
    } else if states[0].first_error is Some {
        Some(states[0].first_error->Some_0@)
    } else {
        spec_first_recv_error(states.drop_first())
    }
}

/// Options of one execution call.
#[derive(Debug)]
pub struct PJRTExecuteRunOptions {
    pub execute_context: Option<u64>,
    pub launch_id: i32,
    pub non_donatable_input_indices: Vec<i64>,
    pub execute_device: Option<u64>,
    pub num_send_ops: usize,
    pub num_recv_ops: usize,
    pub send_callbacks: Vec<PJRTSendCallbackRegistration>,
    pub recv_callbacks: Vec<PJRTRecvCallbackRegistration>,
}

impl Default for PJRTExecuteRunOptions {
    fn default() -> (r: PJRTExecuteRunOptions)
        ensures
            r.execute_context is None,
            r.launch_id == 0,
            r.non_donatable_input_indices@.len() == 0,
            r.execute_device is None,
            r.num_send_ops == 0,
            r.num_recv_ops == 0,
            r.send_callbacks@.len() == 0,
            r.recv_callbacks@.len() == 0,
    {
        PJRTExecuteRunOptions {
            execute_context: None,
            launch_id: 0,
            non_donatable_input_indices: Vec::new(),
            execute_device: None,
            num_send_ops: 0,
            num_recv_ops: 0,
            send_callbacks: Vec::new(),
            recv_callbacks: Vec::new(),
        }
    }
}

/// The per-execution callback state: one error latch per registered
/// callback, kept alive until the completion event settles.
#[derive(Debug)]
pub struct ExecuteCallbackKeepalive {
    pub send_states: Vec<SendCallbackState>,
    pub recv_states: Vec<RecvCallbackState>,
}

impl ExecuteCallbackKeepalive {
    /// One fresh latch per registered callback, in registration order.
    pub fn new(options: &PJRTExecuteRunOptions) -> (k: ExecuteCallbackKeepalive)
        ensures
            k.send_states@.len() == options.send_callbacks@.len(),
            k.recv_states@.len() == options.recv_callbacks@.len(),
            forall|i: int|
                0 <= i < k.send_states@.len() ==> (#[trigger] k.send_states@[i]).first_error
                    is None,
            forall|i: int|
                0 <= i < k.recv_states@.len() ==> (#[trigger] k.recv_states@[i]).first_error
                    is None,
    {
        let mut send_states: Vec<SendCallbackState> = Vec::new();
        let mut i: usize = 0;
        while i < options.send_callbacks.len()
            invariant
                send_states@.len() == i,
                i <= options.send_callbacks@.len(),
                forall|j: int|
                    0 <= j < send_states@.len() ==> (#[trigger] send_states@[j]).first_error
                        is None,
            decreases options.send_callbacks@.len() - i,
        {
            send_states.push(SendCallbackState::new());
            i = i + 1;
        }
        let mut recv_states: Vec<RecvCallbackState> = Vec::new();
        let mut j: usize = 0;
        while j < options.recv_callbacks.len()
            invariant
                recv_states@.len() == j,
                j <= options.recv_callbacks@.len(),
                forall|k: int|
                    0 <= k < recv_states@.len() ==> (#[trigger] recv_states@[k]).first_error
                        is None,
            decreases options.recv_callbacks@.len() - j,
        {
            recv_states.push(RecvCallbackState::new());
            j = j + 1;
        }
        ExecuteCallbackKeepalive { send_states, recv_states }
    }

    /// Whether a non-null send-callback array must be handed to the plugin:
    /// exactly when callbacks are registered.
    pub fn send_callbacks_ptr(&self) -> (r: bool)
        ensures
            r == (self.send_states@.len() != 0),
    {
        self.send_states.len() != 0
    }

    /// Whether a non-null receive-callback array must be handed over.
    pub fn recv_callbacks_ptr(&self) -> (r: bool)
        ensures
            r == (self.recv_states@.len() != 0),
    {
        self.recv_states.len() != 0
    }

    /// The first latched send error, in callback order.
    pub fn first_send_error(&self) -> (r: Option<String>)
        ensures
            r is Some <==> spec_first_send_error(self.send_states@) is Some,
            r matches Some(m) ==> m@ == spec_first_send_error(self.send_states@)->Some_0,
    {
        let mut i: usize = 0;
        proof {
            assert(self.send_states@.skip(0) =~= self.send_states@);
        }
        while i < self.send_states.len()
            invariant
                i <= self.send_states@.len(),
                spec_first_send_error(self.send_states@.skip(i as int)) == spec_first_send_error(
                    self.send_states@,
                ),
            decreases self.send_states@.len() - i,
        {
            proof {
                assert(self.send_states@.skip(i as int)[0] == self.send_states@[i as int]);
                assert(self.send_states@.skip(i as int).drop_first() =~= self.send_states@.skip(
                    i as int + 1,
                ));
            }
            match &self.send_states[i].first_error {
                Some(m) => {
                    return Some(m.clone());
                },
                None => {},
            }
            i = i + 1;
        }
        proof {
            assert(self.send_states@.skip(i as int) =~= Seq::<SendCallbackState>::empty());
        }
        None
    }

    /// The first latched receive error, in callback order.
    pub fn first_recv_error(&self) -> (r: Option<String>)
        ensures
            r is Some <==> spec_first_recv_error(self.recv_states@) is Some,
            r matches Some(m) ==> m@ == spec_first_recv_error(self.recv_states@)->Some_0,
    {
        let mut i: usize = 0;
        proof {
            assert(self.recv_states@.skip(0) =~= self.recv_states@);
        }
        while i < self.recv_states.len()
            invariant
                i <= self.recv_states@.len(),
                spec_first_recv_error(self.recv_states@.skip(i as int)) == spec_first_recv_error(
                    self.recv_states@,
                ),
            decreases self.recv_states@.len() - i,
        {
            proof {
                assert(self.recv_states@.skip(i as int)[0] == self.recv_states@[i as int]);
                assert(self.recv_states@.skip(i as int).drop_first() =~= self.recv_states@.skip(
                    i as int + 1,
                ));
            }
            match &self.recv_states[i].first_error {
                Some(m) => {
                    return Some(m.clone());
                },
                None => {},
            }
            i = i + 1;
        }
        proof {
            assert(self.recv_states@.skip(i as int) =~= Seq::<RecvCallbackState>::empty());
        }
        None
    }
}

/// What a validated execution call hands to the plugin.
#[derive(Debug)]
pub struct ExecutePlan {
    pub num_args: usize,
    pub num_outputs: usize,
    pub effective_num_send_ops: usize,
    pub effective_num_recv_ops: usize,
    pub launch_id: i32,
    /// The execute-context address, zero when none is threaded in.
    pub context: u64,
    /// The chosen device address, zero when the plugin picks.
    pub device: u64,
    pub argument_list_present: bool,
    pub output_list_present: bool,
    pub non_donatable_present: bool,
    pub num_non_donatable: usize,
}

/// A compiled-and-loaded program bound to a client.
#[derive(Debug)]
pub struct PJRTLoadedExecutable {
    pub handle: OwnedHandle,
    pub deleted: bool,
}

/// All options of an execution call are acceptable: callback counts, when
/// requested to be derived, match the callback lists; non-donatable indices
/// are non-negative; and the optional context and device are non-null.
pub open spec fn execute_options_ok(options: PJRTExecuteRunOptions) -> bool {
    &&& (options.num_send_ops == 0 || options.num_send_ops == options.send_callbacks@.len())
    &&& (options.num_recv_ops == 0 || options.num_recv_ops == options.recv_callbacks@.len())
    &&& (forall|i: int|
        0 <= i < options.non_donatable_input_indices@.len()
            ==> #[trigger] options.non_donatable_input_indices@[i] >= 0)
    &&& options.execute_context != Some(0u64)
    &&& options.execute_device != Some(0u64)
}

impl PJRTLoadedExecutable {
    /// Wraps a loaded executable the plugin handed out.
    pub fn new(addr: u64) -> (e: PJRTLoadedExecutable)
        ensures
            e.handle.addr == addr,
            e.handle.state == HandleState::Live,
            !e.deleted,
    {
        PJRTLoadedExecutable { handle: OwnedHandle::new(addr), deleted: false }
    }

    /// The raw executable address, or a validation error when it is null.
    pub fn raw_checked(&self) -> (r: Result<u64, PJRTError>)
        ensures
            r is Ok <==> self.handle.addr != 0,
            r is Ok ==> r->Ok_0 == self.handle.addr,
            r is Err ==> r->Err_0.kind == PJRTErrorKind::LocalValidation,
    {
        self.handle.raw_checked("PJRT_LoadedExecutable is null")
    }

    /// Validates an execution call before anything crosses the boundary.
    /// Argument buffers must be non-null; a nonzero requested callback count
    /// must match its callback list; non-donatable indices must be
    /// non-negative; a supplied context or device must be non-null.
    pub fn plan_execute(
        &self,
        arguments: &Vec<u64>,
        options: &PJRTExecuteRunOptions,
        num_outputs: usize,
    ) -> (r: Result<ExecutePlan, PJRTError>)
        ensures
            r is Ok <==> (self.handle.addr != 0 && (forall|i: int|
                0 <= i < arguments@.len() ==> #[trigger] arguments@[i] != 0)
                && execute_options_ok(*options)),
            r is Ok ==> {
                let p = r->Ok_0;
                &&& p.num_args == arguments@.len()
                &&& p.num_outputs == num_outputs
                &&& p.effective_num_send_ops == options.send_callbacks@.len()
                &&& p.effective_num_recv_ops == options.recv_callbacks@.len()
                &&& p.launch_id == options.launch_id
                &&& p.context == (match options.execute_context {
                    Some(c) => c,
                    None => 0u64,
                })
                &&& p.device == (match options.execute_device {
                    Some(d) => d,
                    None => 0u64,
                })
                &&& p.argument_list_present == (arguments@.len() != 0)
                &&& p.output_list_present == (num_outputs != 0)
                &&& p.non_donatable_present == (options.non_donatable_input_indices@.len() != 0)
                &&& p.num_non_donatable == options.non_donatable_input_indices@.len()
            },
            r is Err ==> r->Err_0.kind == PJRTErrorKind::LocalValidation,
    {
        let _addr = self.raw_checked()?;
        let mut i: usize = 0;
        while i < arguments.len()
            invariant
                i <= arguments@.len(),
                forall|j: int| 0 <= j < i ==> #[trigger] arguments@[j] != 0,
            decreases arguments@.len() - i,
        {
            if arguments[i] == 0 {
                return Err(PJRTError::invalid_arg("execute arguments contain a null buffer"));
            }
            i = i + 1;
        }
        if options.num_send_ops != 0 && options.num_send_ops != options.send_callbacks.len() {
            return Err(
                PJRTError::invalid_arg("num_send_ops must match the send callback count"),
            );
        }
        if options.num_recv_ops != 0 && options.num_recv_ops != options.recv_callbacks.len() {
            return Err(
                PJRTError::invalid_arg("num_recv_ops must match the recv callback count"),
            );
        }
        let mut k: usize = 0;
        while k < options.non_donatable_input_indices.len()
            invariant
                k <= options.non_donatable_input_indices@.len(),
                forall|j: int|
                    0 <= j < k ==> #[trigger] options.non_donatable_input_indices@[j] >= 0,
            decreases options.non_donatable_input_indices@.len() - k,
        {
            if options.non_donatable_input_indices[k] < 0 {
                return Err(
                    PJRTError::invalid_arg("non_donatable_input_indices must be non-negative"),
                );
            }
            k = k + 1;
        }
        let context: u64 = match options.execute_context {
            Some(c) => {
                if c == 0 {
                    return Err(PJRTError::invalid_arg("execute_context is null"));
                }
                c
            },
            None => 0,
        };
        let device: u64 = match options.execute_device {
            Some(d) => {
                if d == 0 {
                    return Err(PJRTError::invalid_arg("execute_device is null"));
                }
                d
            },
            None => 0,
        };
        Ok(
            ExecutePlan {
                num_args: arguments.len(),
                num_outputs,
                effective_num_send_ops: options.send_callbacks.len(),
                effective_num_recv_ops: options.recv_callbacks.len(),
                launch_id: options.launch_id,
                context,
                device,
                argument_list_present: arguments.len() != 0,
                output_list_present: num_outputs != 0,
                non_donatable_present: options.non_donatable_input_indices.len() != 0,
                num_non_donatable: options.non_donatable_input_indices.len(),
            },
        )
    }

    /// Holds the finished call to its contract and assembles its results.
    /// A latched callback error is surfaced even when the plugin reported
    /// success, the send side first. The plugin must have used exactly the
    /// requested argument count and populated every output slot and the
    /// completion event; the output buffers come back in declaration order.
    pub fn interpret_execute(
        &self,
        status: Option<PluginFailure>,
        first_send_error: Option<String>,
        first_recv_error: Option<String>,
        num_args_requested: usize,
        num_args_used: usize,
        outputs: &Vec<u64>,
        completion_event: u64,
    ) -> (r: Result<(Vec<PJRTBuffer>, PJRTEvent), PJRTError>)
        ensures
            r is Ok <==> (status is None && first_send_error is None && first_recv_error is None
                && num_args_used == num_args_requested && (forall|i: int|
                0 <= i < outputs@.len() ==> #[trigger] outputs@[i] != 0) && completion_event != 0),
            r is Ok ==> r->Ok_0.0@.len() == outputs@.len(),
            r is Ok ==> (forall|i: int|
                0 <= i < outputs@.len() ==> {
                    let b = #[trigger] r->Ok_0.0@[i];
                    &&& b.handle.addr == outputs@[i]
                    &&& b.handle.state == HandleState::Live
                    &&& !b.deleted
                    &&& b.payload_bytes == 0
                }),
            r is Ok ==> (r->Ok_0.1.handle.addr == completion_event && !r->Ok_0.1.local
                && r->Ok_0.1.observed is None),
            status is Some ==> r->Err_0.kind == PJRTErrorKind::PluginReported,
            status is None && (first_send_error is Some || first_recv_error is Some) ==> r->Err_0.kind
                == PJRTErrorKind::LocalValidation,
            status is None && first_send_error is None && first_recv_error is None && r is Err
                ==> r->Err_0.kind == PJRTErrorKind::ProtocolViolation,
    {
        if status.is_some() {
            return Err(status.unwrap().into_error());
        }
        if first_send_error.is_some() {
            return Err(PJRTError::invalid_arg("send callback failed"));
        }
        if first_recv_error.is_some() {
            return Err(PJRTError::invalid_arg("recv callback failed"));
        }
        if num_args_used != num_args_requested {
            return Err(PJRTError::protocol("execute argument count mismatch"));
        }
        let mut buffers: Vec<PJRTBuffer> = Vec::new();
        let mut i: usize = 0;
        while i < outputs.len()
            invariant
                status is None,
                first_send_error is None,
                first_recv_error is None,
                num_args_used == num_args_requested,
                i <= outputs@.len(),
                buffers@.len() == i,
                forall|j: int| 0 <= j < i ==> #[trigger] outputs@[j] != 0,
                forall|j: int|
                    0 <= j < i ==> {
                        let b = #[trigger] buffers@[j];
                        &&& b.handle.addr == outputs@[j]
                        &&& b.handle.state == HandleState::Live
                        &&& !b.deleted
                        &&& b.payload_bytes == 0
                    },
            decreases outputs@.len() - i,
        {
            let addr = outputs[i];
            if addr == 0 {
                return Err(PJRTError::protocol("execution produced a null output buffer"));
            }
            buffers.push(PJRTBuffer::new(addr, BUFFER_TYPE_INVALID, Vec::new(), 0));
            i = i + 1;
        }
        if completion_event == 0 {
            return Err(PJRTError::protocol("execution returned a null completion event"));
        }
        Ok((buffers, PJRTEvent::new(completion_event)))
    }

    /// Validates loading a serialized executable into a client: the client
    /// must be non-null and the blob non-empty.
    pub fn plan_deserialize_and_load(&self, client: u64, serialized_len: usize) -> (r: Result<
        (),
        PJRTError,
    >)
        ensures
            r is Ok <==> (client != 0 && serialized_len != 0),
            r is Err ==> r->Err_0.kind == PJRTErrorKind::LocalValidation,
    {
        if client == 0 {
            return Err(PJRTError::invalid_arg("client must not be null"));
        }
        if serialized_len == 0 {
            return Err(PJRTError::invalid_arg("serialized_executable must not be empty"));
        }
        Ok(())
    }

    /// Reads the result of a call that hands back a loaded executable.
    pub fn interpret_loaded(status: Option<PluginFailure>, addr: u64) -> (r: Result<
        PJRTLoadedExecutable,
        PJRTError,
    >)
        ensures
            r is Ok <==> (status is None && addr != 0),
            r is Ok ==> (r->Ok_0.handle.addr == addr && r->Ok_0.handle.state == HandleState::Live
                && !r->Ok_0.deleted),
            status is Some ==> r->Err_0.kind == PJRTErrorKind::PluginReported,
            status is None && r is Err ==> r->Err_0.kind == PJRTErrorKind::ProtocolViolation,
    {
        match status {
            Some(failure) => Err(failure.into_error()),
            None => {
                if addr == 0 {
                    Err(PJRTError::protocol("loading returned a null executable"))
                } else {
                    Ok(PJRTLoadedExecutable::new(addr))
                }
            },
        }
    }

    /// Whether the executable's resources were released. False until a
    /// delete call succeeds, true from then on.
    pub fn is_deleted(&self) -> (d: bool)
        ensures
            d == self.deleted,
    {
        self.deleted
    }

    /// Records the outcome of the delete call.
    pub fn finish_delete(&mut self, status: Option<PluginFailure>) -> (r: Result<(), PJRTError>)
        ensures
            r is Ok <==> status is None,
            r is Ok ==> final(self).deleted,
            r is Err ==> (final(self).deleted == old(self).deleted && r->Err_0.kind
                == PJRTErrorKind::PluginReported),
            final(self).handle == old(self).handle,
    {
        match status {
            Some(failure) => Err(failure.into_error()),
            None => {
                self.deleted = true;
                Ok(())
            },
        }
    }

    /// Decides whether dropping this wrapper must issue the destroy entry
    /// point.
    pub fn begin_destroy(&mut self) -> (do_destroy: bool)
        ensures
            do_destroy == (old(self).handle.state == HandleState::Live && old(self).handle.addr
                != 0),
            final(self).handle.state != HandleState::Live,
    {
        self.handle.begin_destroy()
    }
}

/// The twelve compiled-memory counters of one executable, as the call
/// reports them.
#[derive(Debug)]
pub struct RawCompiledMemoryStats {
    pub generated_code_size_in_bytes: i64,
    pub argument_size_in_bytes: i64,
    pub output_size_in_bytes: i64,
    pub alias_size_in_bytes: i64,
    pub temp_size_in_bytes: i64,
    pub host_generated_code_size_in_bytes: i64,
    pub host_argument_size_in_bytes: i64,
    pub host_output_size_in_bytes: i64,
    pub host_alias_size_in_bytes: i64,
    pub host_temp_size_in_bytes: i64,
    pub peak_memory_in_bytes: i64,
    pub total_size_in_bytes: i64,
}

/// The fixed order in which the compiled-memory counters are surfaced.
pub open spec fn spec_memory_stats_list(s: RawCompiledMemoryStats) -> Seq<i64> {
    seq![
        s.generated_code_size_in_bytes,
        s.argument_size_in_bytes,
        s.output_size_in_bytes,
        s.alias_size_in_bytes,
        s.temp_size_in_bytes,
        s.host_generated_code_size_in_bytes,
        s.host_argument_size_in_bytes,
        s.host_output_size_in_bytes,
        s.host_alias_size_in_bytes,
        s.host_temp_size_in_bytes,
        s.peak_memory_in_bytes,
        s.total_size_in_bytes,
    ]
}

/// Surfaces the compiled-memory counters as the fixed ordered list.
pub fn decode_compiled_memory_stats(
    status: Option<PluginFailure>,
    raw: RawCompiledMemoryStats,
) -> (r: Result<Vec<i64>, PJRTError>)
    ensures
        r is Ok <==> status is None,
        r is Ok ==> r->Ok_0@ == spec_memory_stats_list(raw),
        r is Err ==> r->Err_0.kind == PJRTErrorKind::PluginReported,
{
    match status {
        Some(failure) => Err(failure.into_error()),
        None => {
            let out: Vec<i64> = vec![
                raw.generated_code_size_in_bytes,
                raw.argument_size_in_bytes,
                raw.output_size_in_bytes,
                raw.alias_size_in_bytes,
                raw.temp_size_in_bytes,
                raw.host_generated_code_size_in_bytes,
                raw.host_argument_size_in_bytes,
                raw.host_output_size_in_bytes,
                raw.host_alias_size_in_bytes,
                raw.host_temp_size_in_bytes,
                raw.peak_memory_in_bytes,
                raw.total_size_in_bytes,
            ];
            proof {
                assert(out@ =~= spec_memory_stats_list(raw));
            }
            Ok(out)
        },
    }
}

/// How a callback failure is reported back to the plugin from inside a
/// send-callback invocation.
#[derive(Debug)]
pub struct CallbackErrorReport {
    pub error_code: i32,
    pub message_present: bool,
}

/// Decides whether a failing callback can hand the plugin an error object:
/// only when the plugin supplied both the callback-error pointer and the
/// constructor behind it. The report carries the internal failure code, and
/// the message span only when the message is non-empty.
pub fn plan_callback_error(
    pointer_present: bool,
    constructor_present: bool,
    message_len: usize,
) -> (r: Option<CallbackErrorReport>)
    ensures
        r is Some <==> (pointer_present && constructor_present),
        r matches Some(p) ==> (p.error_code == ERROR_CODE_INTERNAL && p.message_present == (
        message_len != 0)),
{
    if pointer_present && constructor_present {
        Some(
            CallbackErrorReport {
                error_code: ERROR_CODE_INTERNAL,
                message_present: message_len != 0,
            },
        )
    } else {
        None
    }
}

/// The placeholder rendered for a cost-analysis property whose name pointer
/// is null.
pub open spec fn spec_null_name() -> Seq<u8> {
    seq![60u8, 110u8, 117u8, 108u8, 108u8, 62u8]
}

/// The rendered name of one cost-analysis property: its bytes, or the
/// placeholder when its pointer was null.
pub open spec fn spec_cost_name(p: RawArray<u8>) -> Seq<u8> {
    if p.present {
        p.items@
    } else {
        spec_null_name()
    }
}

/// The first `n` property names joined with commas.
pub open spec fn spec_joined_names(ps: Seq<RawArray<u8>>, n: int) -> Seq<u8>
    decreases n,
{
    if n <= 0 {
        Seq::empty()
    } else if n == 1 {
        spec_cost_name(ps[0])
    } else {
        spec_joined_names(ps, n - 1) + seq![44u8] + spec_cost_name(ps[n - 1])
    }
}

fn push_null_name(out: &mut Vec<u8>)
    ensures
        final(out)@ == old(out)@ + spec_null_name(),
{
    out.push(60);
    out.push(110);
    out.push(117);
    out.push(108);
    out.push(108);
    out.push(62);
    proof {
        assert(out@ =~= old(out)@ + spec_null_name());
    }
}

/// Reads the cost-analysis properties and joins their names with commas,
/// rendering a null name pointer as the placeholder.
pub fn decode_cost_analysis_names(
    status: Option<PluginFailure>,
    props: RawArray<RawArray<u8>>,
) -> (r: Result<Vec<u8>, PJRTError>)
    requires
        props.wf(),
        forall|i: int| 0 <= i < props.items@.len() ==> (#[trigger] props.items@[i]).wf(),
    ensures
        r is Ok <==> (status is None && (props.present || props.count == 0)),
        r is Ok ==> r->Ok_0@ == spec_joined_names(props.items@, props.items@.len() as int),
        status is Some ==> r->Err_0.kind == PJRTErrorKind::PluginReported,
        status is None && r is Err ==> r->Err_0.kind == PJRTErrorKind::ProtocolViolation,
{
    if status.is_some() {
        return Err(status.unwrap().into_error());
    }
    if !props.present && props.count != 0 {
        return Err(PJRTError::protocol("cost analysis properties are null with nonzero count"));
    }
    let mut out: Vec<u8> = Vec::new();
    let mut i: usize = 0;
    while i < props.items.len()
        invariant
            status is None,
            props.present || props.count == 0,
            i <= props.items@.len(),
            forall|j: int| 0 <= j < props.items@.len() ==> (#[trigger] props.items@[j]).wf(),
            out@ == spec_joined_names(props.items@, i as int),
        decreases props.items@.len() - i,
    {
        if i > 0 {
            out.push(44);
        }
        let p = &props.items[i];
        if p.present {
            let mut name = clone_bytes(&p.items);
            out.append(&mut name);
        } else {
            push_null_name(&mut out);
        }
        proof {
            assert(out@ =~= spec_joined_names(props.items@, i as int + 1));
        }
        i = i + 1;
    }
    Ok(out)
}

/// Reads the output-dimensions answer and surfaces the first output's
/// leading dimension: no outputs is rejected locally, and a null dimension
/// list beside a nonzero count is a protocol violation.
pub fn interpret_output_dimension(status: Option<PluginFailure>, dims: RawArray<i64>) -> (r:
    Result<i64, PJRTError>)
    requires
        dims.wf(),
    ensures
        r is Ok <==> (status is None && dims.count != 0 && dims.present),
        r is Ok ==> r->Ok_0 == dims.items@[0],
        status is Some ==> r->Err_0.kind == PJRTErrorKind::PluginReported,
        status is None && dims.count == 0 && r is Err ==> r->Err_0.kind
            == PJRTErrorKind::LocalValidation,
        status is None && dims.count != 0 && r is Err ==> r->Err_0.kind
            == PJRTErrorKind::ProtocolViolation,
{
    if status.is_some() {
        return Err(status.unwrap().into_error());
    }
    if dims.count == 0 {
        return Err(PJRTError::invalid_arg("output dimensions returned no outputs"));
    }
    if !dims.present {
        return Err(PJRTError::protocol("output dimensions are null with nonzero count"));
    }
    Ok(dims.items[0])
}

/// Reads the per-output memory-kind strings: one byte span per output, each
/// under the null-with-nonzero-size rule.
pub fn decode_memory_kinds(status: Option<PluginFailure>, kinds: RawArray<RawArray<u8>>) -> (r:
    Result<Vec<Vec<u8>>, PJRTError>)
    requires
        kinds.wf(),
        forall|i: int| 0 <= i < kinds.items@.len() ==> (#[trigger] kinds.items@[i]).wf(),
    ensures
        r is Ok <==> (status is None && (kinds.present || kinds.count == 0) && (forall|i: int|
            0 <= i < kinds.items@.len() ==> ((#[trigger] kinds.items@[i]).present
                || kinds.items@[i].count == 0))),
        r is Ok ==> r->Ok_0@.len() == kinds.items@.len(),
        r is Ok ==> (forall|i: int|
            0 <= i < kinds.items@.len() ==> (#[trigger] r->Ok_0@[i])@ == kinds.items@[i].items@),
        status is Some ==> r->Err_0.kind == PJRTErrorKind::PluginReported,
        status is None && r is Err ==> r->Err_0.kind == PJRTErrorKind::ProtocolViolation,
{
    if status.is_some() {
        return Err(status.unwrap().into_error());
    }
    if !kinds.present && kinds.count != 0 {
        return Err(PJRTError::protocol("memory kinds are null with nonzero output count"));
    }
    let mut out: Vec<Vec<u8>> = Vec::new();
    let mut i: usize = 0;
    while i < kinds.items.len()
        invariant
            status is None,
            kinds.present || kinds.count == 0,
            i <= kinds.items@.len(),
            out@.len() == i,
            forall|j: int| 0 <= j < kinds.items@.len() ==> (#[trigger] kinds.items@[j]).wf(),
            forall|j: int|
                0 <= j < i ==> ((#[trigger] kinds.items@[j]).present || kinds.items@[j].count
                    == 0),
            forall|j: int| 0 <= j < i ==> (#[trigger] out@[j])@ == kinds.items@[j].items@,
        decreases kinds.items@.len() - i,
    {
        let kind = &kinds.items[i];
        if !kind.present && kind.count != 0 {
            return Err(PJRTError::protocol("a memory kind is null with nonzero size"));
        }
        out.push(clone_bytes(&kind.items));
        i = i + 1;
    }
    Ok(out)
}

} // verus!
