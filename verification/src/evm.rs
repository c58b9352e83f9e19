//! The simulation engine: one forked snapshot, one execution context.
//!
//! The engine owns the mutable execution context and decides everything a
//! simulated call needs: it records the request's access list, names the
//! execution the backend must run (committing or not), merges account
//! overrides, and folds the backend's outcome together with the decoded
//! trace into the result the caller sees. The backend itself, which holds
//! the forked state and performs the lazy remote fetches, runs outside
//! this library and exchanges plain values with it.

use vstd::prelude::*;

use crate::overrides::AccountCommit;
use crate::overrides::AccountInfo;
use crate::overrides::BasicFetch;
use crate::overrides::OverrideError;
use crate::overrides::StorageOverride;
use crate::overrides::absent_info;
use crate::overrides::merged_commit;
use crate::overrides::opt_code_view;
use crate::overrides::opt_storage_view;
use crate::trace::TraceNode;
use crate::trace::annotated_all;
use crate::trace::decode_trace;
use crate::trace::labels_view;
use crate::trace::rendered;
use crate::trace::signatures_view;
use crate::types::Address;
use crate::types::U256;

verus! {

/// One entry of a transaction access list: an address and the storage
/// keys declared for it.
#[derive(Debug)]
pub struct AccessListItem {
    pub address: Address,
    pub storage_keys: Vec<U256>,
}

impl View for AccessListItem {
    type V = (Address, Seq<U256>);

    open spec fn view(&self) -> (Address, Seq<U256>) {
        (self.address, self.storage_keys@)
    }
}

pub open spec fn access_list_view(l: Seq<AccessListItem>) -> Seq<(Address, Seq<U256>)> {
    l.map_values(|i: AccessListItem| i@)
}

pub open spec fn opt_access_view(l: Option<Vec<AccessListItem>>) -> Option<
    Seq<(Address, Seq<U256>)>,
> {
    match l {
        Some(v) => Some(access_list_view(v@)),
        None => None,
    }
}

/// The execution context: metadata the next executed call sees. It is
/// owned by one engine and independent of the state snapshot — changing
/// it never re-forks nor refreshes fetched state.
#[derive(Debug)]
pub struct ExecutionContext {
    pub block_number: u64,
    pub block_timestamp: u64,
    pub chain_id: u64,
    pub gas_price: u64,
    pub gas_limit: u64,
    pub code_size_limit: Option<u64>,
    pub tx_access_list: Vec<AccessListItem>,
}

#[verifier::ext_equal]
pub struct ContextView {
    pub block_number: u64,
    pub block_timestamp: u64,
    pub chain_id: u64,
    pub gas_price: u64,
    pub gas_limit: u64,
    pub code_size_limit: Option<u64>,
    pub tx_access_list: Seq<(Address, Seq<U256>)>,
}

impl View for ExecutionContext {
    type V = ContextView;

    open spec fn view(&self) -> ContextView {
        ContextView {
            block_number: self.block_number,
            block_timestamp: self.block_timestamp,
            chain_id: self.chain_id,
            gas_price: self.gas_price,
            gas_limit: self.gas_limit,
            code_size_limit: self.code_size_limit,
            tx_access_list: access_list_view(self.tx_access_list@),
        }
    }
}

/// A request to simulate one call.
#[derive(Debug)]
pub struct CallRawRequest {
    pub from: Address,
    pub to: Address,
    /// Transferred value; zero when absent.
    pub value: Option<U256>,
    /// Call data; empty when absent.
    pub data: Option<Vec<u8>>,
    /// Access list declared for the call; cleared when absent.
    pub access_list: Option<Vec<AccessListItem>>,
    /// Whether the result should carry a rendered trace text.
    pub format_trace: bool,
}

#[verifier::ext_equal]
pub struct RequestView {
    pub from: Address,
    pub to: Address,
    pub value: Option<U256>,
    pub data: Option<Seq<u8>>,
    pub access_list: Option<Seq<(Address, Seq<U256>)>>,
    pub format_trace: bool,
}

impl View for CallRawRequest {
    type V = RequestView;

    open spec fn view(&self) -> RequestView {
        RequestView {
            from: self.from,
            to: self.to,
            value: self.value,
            data: match self.data {
                Some(d) => Some(d@),
                None => None,
            },
            access_list: opt_access_view(self.access_list),
            format_trace: self.format_trace,
        }
    }
}

/// The execution the backend is asked to run for a request: the call's
/// plain parameters, with the request's defaults filled in, and whether
/// the resulting state diff is to be persisted.
#[derive(Debug)]
pub struct ExecOrder {
    pub from: Address,
    pub to: Address,
    pub value: U256,
    pub data: Vec<u8>,
    pub committing: bool,
    pub format_trace: bool,
}

#[verifier::ext_equal]
pub struct OrderView {
    pub from: Address,
    pub to: Address,
    pub value: U256,
    pub data: Seq<u8>,
    pub committing: bool,
    pub format_trace: bool,
}

impl View for ExecOrder {
    type V = OrderView;

    open spec fn view(&self) -> OrderView {
        OrderView {
            from: self.from,
            to: self.to,
            value: self.value,
            data: self.data@,
            committing: self.committing,
            format_trace: self.format_trace,
        }
    }
}

/// One log record a call emitted.
#[derive(Debug)]
pub struct Log {
    pub address: Address,
    pub topics: Vec<U256>,
    pub data: Vec<u8>,
}

#[verifier::ext_equal]
pub struct LogView {
    pub address: Address,
    pub topics: Seq<U256>,
    pub data: Seq<u8>,
}

impl View for Log {
    type V = LogView;

    open spec fn view(&self) -> LogView {
        LogView { address: self.address, topics: self.topics@, data: self.data@ }
    }
}

pub open spec fn logs_view(logs: Seq<Log>) -> Seq<LogView> {
    logs.map_values(|l: Log| l@)
}

/// What the backend reports of one finished execution.
#[derive(Debug)]
pub struct Execution {
    pub gas_used: u64,
    /// The block number of the environment the call executed against.
    pub block_number: u64,
    pub reverted: bool,
    /// The backend's machine-readable exit or revert reason code.
    pub exit_reason: u8,
    pub logs: Vec<Log>,
    pub return_data: Vec<u8>,
    /// The raw trace arena; present only when tracing was enabled at
    /// construction.
    pub traces: Option<Vec<TraceNode>>,
}

#[verifier::ext_equal]
pub struct ExecutionView {
    pub gas_used: u64,
    pub block_number: u64,
    pub reverted: bool,
    pub exit_reason: u8,
    pub logs: Seq<LogView>,
    pub return_data: Seq<u8>,
    pub traces: Option<Seq<TraceNode>>,
}

impl View for Execution {
    type V = ExecutionView;

    open spec fn view(&self) -> ExecutionView {
        ExecutionView {
            gas_used: self.gas_used,
            block_number: self.block_number,
            reverted: self.reverted,
            exit_reason: self.exit_reason,
            logs: logs_view(self.logs@),
            return_data: self.return_data@,
            traces: match self.traces {
                Some(t) => Some(t@),
                None => None,
            },
        }
    }
}

/// The assembled result of one simulated call.
#[derive(Debug)]
pub struct CallRawResult {
    pub gas_used: u64,
    pub block_number: u64,
    /// Derived as "not reverted".
    pub success: bool,
    /// The raw trace arena, exactly as the backend reported it.
    pub trace: Option<Vec<TraceNode>>,
    pub logs: Vec<Log>,
    pub exit_reason: u8,
    pub return_data: Vec<u8>,
    /// The rendered trace text; present exactly when the request asked
    /// for it.
    pub formatted_trace: Option<String>,
}

#[verifier::ext_equal]
pub struct ResultView {
    pub gas_used: u64,
    pub block_number: u64,
    pub success: bool,
    pub trace: Option<Seq<TraceNode>>,
    pub logs: Seq<LogView>,
    pub exit_reason: u8,
    pub return_data: Seq<u8>,
    pub formatted_trace: Option<Seq<char>>,
}

impl View for CallRawResult {
    type V = ResultView;

    open spec fn view(&self) -> ResultView {
        ResultView {
            gas_used: self.gas_used,
            block_number: self.block_number,
            success: self.success,
            trace: match self.trace {
                Some(t) => Some(t@),
                None => None,
            },
            logs: logs_view(self.logs@),
            exit_reason: self.exit_reason,
            return_data: self.return_data@,
            formatted_trace: match self.formatted_trace {
                Some(s) => Some(s@),
                None => None,
            },
        }
    }
}

/// The backend rejected or could not complete a call.
#[derive(Debug)]
pub struct EvmError {
    pub message: String,
}

/// The block environment the fork was anchored at, as fetched when the
/// fork was established.
#[derive(Clone, Copy, PartialEq, Eq, Structural, Debug)]
pub struct ForkInfo {
    pub block_number: u64,
    pub block_timestamp: u64,
    pub chain_id: u64,
}

/// The simulation engine: the execution context of one forked session,
/// with the construction-time choices that steer call handling.
#[derive(Debug)]
pub struct Evm {
    pub context: ExecutionContext,
    /// Whether the backend was built with tracing.
    pub tracing: bool,
    /// Whether a remote-labeling credential was available, so trace
    /// decoding may attempt address labeling.
    pub labeling: bool,
    pub fork_url: String,
    pub fork_block_number: Option<u64>,
}

/// The context a fresh engine starts from when no explicit context is
/// supplied: the fork's block environment with zero gas price, maximal
/// gas limit, the default code-size limit, and an empty access list.
pub open spec fn default_context(fork: ForkInfo) -> ContextView {
    ContextView {
        block_number: fork.block_number,
        block_timestamp: fork.block_timestamp,
        chain_id: fork.chain_id,
        gas_price: 0,
        gas_limit: u64::MAX,
        code_size_limit: None,
        tx_access_list: Seq::empty(),
    }
}

/// The context after the engine records a request's access list: the
/// list replaces the context's, cleared when the request carried none;
/// every other field is untouched.
pub open spec fn with_access_list(
    ctx: ContextView,
    al: Option<Seq<(Address, Seq<U256>)>>,
) -> ContextView {
    ContextView {
        tx_access_list: match al {
            Some(l) => l,
            None => Seq::empty(),
        },
        ..ctx
    }
}

/// The execution a request names, with its defaults filled in: zero
/// value and empty data when absent, persisted exactly when `committing`.
pub open spec fn order_of(req: RequestView, committing: bool) -> OrderView {
    OrderView {
        from: req.from,
        to: req.to,
        value: match req.value {
            Some(v) => v,
            None => U256::spec_zero(),
        },
        data: match req.data {
            Some(d) => d,
            None => Seq::empty(),
        },
        committing,
        format_trace: req.format_trace,
    }
}

/// The engine state outside the context is untouched.
pub open spec fn same_shell(a: Evm, b: Evm) -> bool {
    &&& a.tracing == b.tracing
    &&& a.labeling == b.labeling
    &&& a.fork_url@ == b.fork_url@
    &&& a.fork_block_number == b.fork_block_number
}

/// The rendered text of a reported trace: the decoded arena's text, or
/// nothing at all when the backend reported no trace.
pub open spec fn formatted_of(
    traces: Option<Seq<TraceNode>>,
    labels: Seq<(Address, Seq<char>)>,
    signatures: Seq<(u32, Seq<char>)>,
) -> Seq<char> {
    match traces {
        Some(ns) => rendered(annotated_all(ns, labels, signatures)),
        None => Seq::empty(),
    }
}

/// How an assembled result relates to the backend's outcome: every field
/// carried over unchanged, success derived as "not reverted", and the
/// rendered text present exactly when the request asked for it.
pub open spec fn result_matches(
    res: ResultView,
    ex: ExecutionView,
    format_trace: bool,
    labels: Seq<(Address, Seq<char>)>,
    signatures: Seq<(u32, Seq<char>)>,
) -> bool {
    &&& res.gas_used == ex.gas_used
    &&& res.block_number == ex.block_number
    &&& res.success == !ex.reverted
    &&& res.exit_reason == ex.exit_reason
    &&& res.logs == ex.logs
    &&& res.return_data == ex.return_data
    &&& res.trace == ex.traces
    &&& res.formatted_trace == (if format_trace {
        Some(formatted_of(ex.traces, labels, signatures))
    } else {
        None::<Seq<char>>
    })
}

impl Evm {
    /// Builds an engine bound to one forked snapshot: the explicit
    /// context supersedes the defaults built from the fork's block
    /// environment; tracing is fixed at construction; labeling is
    /// attempted only when a credential was available.
    pub fn new(
        env: Option<ExecutionContext>,
        fork_url: String,
        fork_block_number: Option<u64>,
        fork: ForkInfo,
        tracing: bool,
        etherscan_key: Option<String>,
    ) -> (e: Evm)
        ensures
            e.context@ == (match env {
                Some(c) => c@,
                None => default_context(fork),
            }),
            e.tracing == tracing,
            e.labeling == etherscan_key.is_some(),
            e.fork_url@ == fork_url@,
            e.fork_block_number == fork_block_number,
    {
        let labeling = etherscan_key.is_some();
        let context = match env {
            Some(c) => c,
            None => {
                let c = ExecutionContext {
                    block_number: fork.block_number,
                    block_timestamp: fork.block_timestamp,
                    chain_id: fork.chain_id,
                    gas_price: 0,
                    gas_limit: u64::MAX,
                    code_size_limit: None,
                    tx_access_list: Vec::new(),
                };
                proof {
                    assert(c@ =~= default_context(fork));
                }
                c
            },
        };
        Evm { context, tracing, labeling, fork_url, fork_block_number }
    }

    /// Overwrites the context's access list with the request's, or
    /// clears it when the request carried none.
    fn set_access_list(&mut self, access_list: Option<Vec<AccessListItem>>)
        ensures
            final(self).context@ == with_access_list(
                old(self).context@,
                opt_access_view(access_list),
            ),
            same_shell(*old(self), *final(self)),
    {
        let list = match access_list {
            Some(l) => l,
            None => Vec::new(),
        };
        self.context.tx_access_list = list;
        proof {
            assert(access_list_view(Seq::<AccessListItem>::empty()) =~= Seq::<
                (Address, Seq<U256>),
            >::empty());
            assert(final(self).context@ =~= with_access_list(
                old(self).context@,
                opt_access_view(access_list),
            ));
        }
    }

    /// First half of a raw call: records the request's access list in
    /// the context — a persisted metadata change — and names the
    /// execution the backend must run, which persists nothing.
    pub fn call_raw(&mut self, call: CallRawRequest) -> (order: ExecOrder)
        ensures
            final(self).context@ == with_access_list(old(self).context@, call@.access_list),
            same_shell(*old(self), *final(self)),
            order@ == order_of(call@, false),
    {
        let CallRawRequest { from, to, value, data, access_list, format_trace } = call;
        self.set_access_list(access_list);
        let value = match value {
            Some(v) => v,
            None => U256::zero(),
        };
        let data = match data {
            Some(d) => d,
            None => Vec::new(),
        };
        let order = ExecOrder { from, to, value, data, committing: false, format_trace };
        proof {
            assert(order@ =~= order_of(call@, false));
        }
        order
    }

    /// First half of a committing call: identical to `call_raw` except
    /// the named execution instructs the backend to persist the
    /// resulting state diff.
    pub fn call_raw_committing(&mut self, call: CallRawRequest) -> (order: ExecOrder)
        ensures
            final(self).context@ == with_access_list(old(self).context@, call@.access_list),
            same_shell(*old(self), *final(self)),
            order@ == order_of(call@, true),
    {
        let CallRawRequest { from, to, value, data, access_list, format_trace } = call;
        self.set_access_list(access_list);
        let value = match value {
            Some(v) => v,
            None => U256::zero(),
        };
        let data = match data {
            Some(d) => d,
            None => Vec::new(),
        };
        let order = ExecOrder { from, to, value, data, committing: true, format_trace };
        proof {
            assert(order@ =~= order_of(call@, true));
        }
        order
    }

    /// Second half of either call: folds what the backend answered into
    /// the caller's result. A rejection surfaces as `EvmError` with no
    /// partial result; otherwise every reported field is carried over,
    /// and when the request asked for a formatted trace the reported
    /// arena is decoded against the resolved labels and signatures.
    pub fn finish_call(
        &self,
        format_trace: bool,
        outcome: Result<Execution, String>,
        labels: &Vec<(Address, String)>,
        signatures: &Vec<(u32, String)>,
    ) -> (r: Result<CallRawResult, EvmError>)
        ensures
            match outcome {
                Err(m) => r matches Err(e) && e.message@ == m@,
                Ok(ex) => r matches Ok(res) && result_matches(
                    res@,
                    ex@,
                    format_trace,
                    labels_view(labels@),
                    signatures_view(signatures@),
                ),
            },
    {
        let ex = match outcome {
            Ok(ex) => ex,
            Err(m) => {
                return Err(EvmError { message: m });
            },
        };
        let formatted_trace = if format_trace {
            let text = match &ex.traces {
                Some(ns) => decode_trace(ns, labels, signatures).1,
                None => String::new(),
            };
            Some(text)
        } else {
            None
        };
        let res = CallRawResult {
            gas_used: ex.gas_used,
            block_number: ex.block_number,
            success: !ex.reverted,
            trace: ex.traces,
            logs: ex.logs,
            exit_reason: ex.exit_reason,
            return_data: ex.return_data,
            formatted_trace,
        };
        Ok(res)
    }

    /// Merges an override with the account's freshly read basic info
    /// into the single atomic write for that address. Fails exactly when
    /// the basic info could not be read; executes nothing and yields no
    /// trace or log output.
    pub fn override_account(
        &self,
        address: Address,
        balance: Option<U256>,
        nonce: Option<u64>,
        code: Option<Vec<u8>>,
        storage: Option<StorageOverride>,
        current: BasicFetch,
    ) -> (r: Result<AccountCommit, OverrideError>)
        ensures
            match current {
                BasicFetch::Known(info) => r matches Ok(c) && c@ == merged_commit(
                    address,
                    info@,
                    balance,
                    nonce,
                    opt_code_view(code),
                    opt_storage_view(storage),
                ),
                BasicFetch::Absent => r matches Ok(c) && c@ == merged_commit(
                    address,
                    absent_info(),
                    balance,
                    nonce,
                    opt_code_view(code),
                    opt_storage_view(storage),
                ),
                BasicFetch::Failed => r matches Err(e) && e == OverrideError,
            },
    {
        let base = match current {
            BasicFetch::Known(info) => info,
            BasicFetch::Absent => AccountInfo::absent(),
            BasicFetch::Failed => {
                return Err(OverrideError);
            },
        };
        let info = AccountInfo {
            balance: match balance {
                Some(b) => b,
                None => base.balance,
            },
            nonce: match nonce {
                Some(n) => n,
                None => base.nonce,
            },
            code: match code {
                Some(c) => Some(c),
                None => base.code,
            },
        };
        let (slots, storage_cleared) = match storage {
            Some(s) => {
                let StorageOverride { slots, diff } = s;
                (slots, !diff)
            },
            None => (Vec::new(), false),
        };
        let commit = AccountCommit { address, info, storage: slots, storage_cleared };
        proof {
            assert(commit@ =~= merged_commit(
                address,
                match current {
                    BasicFetch::Known(info) => info@,
                    _ => absent_info(),
                },
                balance,
                nonce,
                opt_code_view(code),
                opt_storage_view(storage),
            ));
        }
        Ok(commit)
    }

    /// Sets the block number the next executed call sees; never touches
    /// the state snapshot.
    pub fn set_block(&mut self, number: u64) -> (r: Result<(), EvmError>)
        ensures
            r is Ok,
            final(self).context@ == (ContextView { block_number: number, ..old(self).context@ }),
            same_shell(*old(self), *final(self)),
    {
        self.context.block_number = number;
        proof {
            assert(final(self).context@ =~= (ContextView {
                block_number: number,
                ..old(self).context@
            }));
        }
        Ok(())
    }

    /// The block number the next executed call sees.
    pub fn get_block(&self) -> (r: u64)
        ensures
            r == self.context@.block_number,
    {
        self.context.block_number
    }

    /// Sets the block timestamp the next executed call sees; never
    /// touches the state snapshot.
    pub fn set_block_timestamp(&mut self, timestamp: u64) -> (r: Result<(), EvmError>)
        ensures
            r is Ok,
            final(self).context@ == (ContextView {
                block_timestamp: timestamp,
                ..old(self).context@
            }),
            same_shell(*old(self), *final(self)),
    {
        self.context.block_timestamp = timestamp;
        proof {
            assert(final(self).context@ =~= (ContextView {
                block_timestamp: timestamp,
                ..old(self).context@
            }));
        }
        Ok(())
    }

    /// The block timestamp the next executed call sees.
    pub fn get_block_timestamp(&self) -> (r: u64)
        ensures
            r == self.context@.block_timestamp,
    {
        self.context.block_timestamp
    }

    /// The chain id of the execution context.
    pub fn get_chain_id(&self) -> (r: u64)
        ensures
            r == self.context@.chain_id,
    {
        self.context.chain_id
    }
}

/// Raw calls are pure: the execution a raw call names never instructs
/// the backend to persist, and running the same request twice in
/// sequence is indistinguishable from running it once — the second
/// access-list overwrite repeats the first, and the named execution is
/// the same both times.
pub proof fn lemma_raw_call_pure(ctx: ContextView, req: RequestView)
    ensures
        order_of(req, false).committing == false,
        with_access_list(with_access_list(ctx, req.access_list), req.access_list)
            == with_access_list(ctx, req.access_list),
{
    assert(with_access_list(with_access_list(ctx, req.access_list), req.access_list)
        =~= with_access_list(ctx, req.access_list));
}

/// A committing call instructs the backend to persist, and only the
/// committing flag distinguishes its execution from the raw one.
pub proof fn lemma_committing_persists(req: RequestView)
    ensures
        order_of(req, true).committing == true,
        order_of(req, true) == (OrderView { committing: true, ..order_of(req, false) }),
{
    assert(order_of(req, true) =~= (OrderView { committing: true, ..order_of(req, false) }));
}

/// Context mutation is orthogonal to state: setting the block number
/// changes exactly that field of the context, so a later read of the
/// snapshot — which the context never reaches — is unaffected.
pub proof fn lemma_context_state_independent(ctx: ContextView, n: u64)
    ensures
        (ContextView { block_number: n, ..ctx }).block_number == n,
        (ContextView { block_number: n, ..ctx }).block_timestamp == ctx.block_timestamp,
        (ContextView { block_number: n, ..ctx }).chain_id == ctx.chain_id,
        (ContextView { block_number: n, ..ctx }).gas_price == ctx.gas_price,
        (ContextView { block_number: n, ..ctx }).gas_limit == ctx.gas_limit,
        (ContextView { block_number: n, ..ctx }).code_size_limit == ctx.code_size_limit,
        (ContextView { block_number: n, ..ctx }).tx_access_list == ctx.tx_access_list,
{
}

/// The formatting toggle: a result assembled from an outcome carries the
/// raw trace exactly as reported, and the rendered text exactly when the
/// request asked for it.
pub proof fn lemma_trace_toggle(
    res: ResultView,
    ex: ExecutionView,
    format_trace: bool,
    labels: Seq<(Address, Seq<char>)>,
    signatures: Seq<(u32, Seq<char>)>,
)
    requires
        result_matches(res, ex, format_trace, labels, signatures),
    ensures
        res.trace == ex.traces,
        res.formatted_trace.is_some() == format_trace,
{
}

} // verus!
