//! The loop on the worker's thread that carries out requests on the engine.

use vstd::prelude::*;
use std::collections::HashMap;
use crate::error::{message_of, Error};
use crate::worker::{
    answers, is_module_not_found, module_not_found, CommonWorker, DefaultWorkerOptions,
    DefaultWorkerQuery, DefaultWorkerResponse, ModuleId,
};

verus! {

broadcast use vstd::std_specs::hash::group_hash_axioms;

/// The module identifier that a request names, where it names one.
pub open spec fn named_module(q: DefaultWorkerQuery) -> Option<ModuleId> {
    match q {
        DefaultWorkerQuery::CallEntrypoint(id, _) => Some(id),
        DefaultWorkerQuery::CallFunction(id, _, _) => id,
        DefaultWorkerQuery::GetValue(id, _) => id,
        _ => None,
    }
}

/// `r` is a fitting reply to `q` when the modules in `loaded` are loaded: it has the right shape,
/// and a request that names a module that is not loaded fails with "module not found".
pub open spec fn reply_fits(q: DefaultWorkerQuery, r: DefaultWorkerResponse, loaded: Set<ModuleId>) -> bool {
    &&& answers(q, r)
    &&& named_module(q) is Some && !loaded.contains(named_module(q)->0) ==> r is Error
        && is_module_not_found(r->Error_0)
}

/// A request that loads a module.
pub open spec fn is_load(q: DefaultWorkerQuery) -> bool {
    q is LoadMainModule || q is LoadModule
}

/// The reply that carries an engine's value or error.
pub open spec fn value_reply_of(e: Result<serde_json::Value, Error>) -> DefaultWorkerResponse {
    match e {
        Ok(v) => DefaultWorkerResponse::Value(v),
        Err(x) => DefaultWorkerResponse::Error(x),
    }
}

/// The reply that carries the identifier of a loaded module, or the engine's error.
pub open spec fn load_reply_of<W: CommonWorker>(e: Result<W::ModuleHandle, Error>) -> DefaultWorkerResponse {
    match e {
        Ok(h) => DefaultWorkerResponse::ModuleId(W::id_of(h)),
        Err(x) => DefaultWorkerResponse::Error(x),
    }
}

/// The table of loaded modules after a load with outcome `e`.
pub open spec fn table_after_load<W: CommonWorker>(
    m: Map<ModuleId, W::ModuleHandle>,
    e: Result<W::ModuleHandle, Error>,
) -> Map<ModuleId, W::ModuleHandle> {
    match e {
        Ok(h) => m.insert(W::id_of(h), h),
        Err(_) => m,
    }
}

/// The module context that an optional identifier names in `m`.
pub open spec fn context_of<H>(m: Map<ModuleId, H>, id: Option<ModuleId>) -> Option<H> {
    match id {
        Some(i) => Some(m[i]),
        None => None,
    }
}

/// The request names a module that is not in `m`.
pub open spec fn names_unknown_module<H>(q: DefaultWorkerQuery, m: Map<ModuleId, H>) -> bool {
    named_module(q) is Some && !m.contains_key(named_module(q)->0)
}

/// Serving `q` on the engine `rt` with the table `m` may give the reply `r` and leave the engine
/// `rt2` and the table `m2`: `Stop` and a request that names a module that is not loaded leave
/// both untouched and give `Ack` or "module not found"; any other request is handed to the engine,
/// with the loaded module it names, and the reply carries the engine's outcome.
pub open spec fn served<W: CommonWorker>(
    rt: W,
    m: Map<ModuleId, W::ModuleHandle>,
    q: DefaultWorkerQuery,
    r: DefaultWorkerResponse,
    rt2: W,
    m2: Map<ModuleId, W::ModuleHandle>,
) -> bool {
    if q is Stop {
        r is Ack && rt2 == rt && m2 == m
    } else if names_unknown_module(q, m) {
        r is Error && is_module_not_found(r->Error_0) && rt2 == rt && m2 == m
    } else {
        match q {
            DefaultWorkerQuery::Eval(code) => m2 == m && exists|e| #[trigger]
                rt.evaluated(code@, e) && r == value_reply_of(e),
            DefaultWorkerQuery::LoadMainModule(module) => exists|e| #[trigger]
                rt.loaded_main(module, e) && r == load_reply_of::<W>(e) && m2 == table_after_load::<
                W,
            >(m, e),
            DefaultWorkerQuery::LoadModule(module) => exists|e| #[trigger]
                rt.loaded_side(module, e) && r == load_reply_of::<W>(e) && m2 == table_after_load::<
                W,
            >(m, e),
            DefaultWorkerQuery::CallEntrypoint(id, args) => m2 == m && exists|e| #[trigger]
                rt.entrypoint_called(m[id], args@, e) && r == value_reply_of(e),
            DefaultWorkerQuery::CallFunction(id, name, args) => m2 == m && exists|e| #[trigger]
                rt.function_called(context_of(m, id), name@, args@, e) && r == value_reply_of(e),
            DefaultWorkerQuery::GetValue(id, name) => m2 == m && exists|e| #[trigger]
                rt.value_read(context_of(m, id), name@, e) && r == value_reply_of(e),
            DefaultWorkerQuery::Stop => true,
        }
    }
}

/// The handle of the module `id`, or the "module not found" error.
fn find_module<'a, H>(modules: &'a HashMap<ModuleId, H>, id: ModuleId) -> (r: Result<&'a H, Error>)
    ensures
        r is Ok <==> modules@.contains_key(id),
        r is Ok ==> *r->Ok_0 == modules@[id],
        r is Err ==> is_module_not_found(r->Err_0),
{
    match modules.get(&id) {
        Some(h) => Ok(h),
        None => Err(module_not_found()),
    }
}

/// An optional module context: none where `id` is `None`, else the handle of that module.
fn find_context<'a, H>(modules: &'a HashMap<ModuleId, H>, id: Option<ModuleId>) -> (r: Result<
    Option<&'a H>,
    Error,
>)
    ensures
        id is None ==> r == Ok::<Option<&H>, Error>(None),
        id is Some ==> (r is Ok <==> modules@.contains_key(id->0)),
        id is Some && r is Ok ==> r->Ok_0 is Some && *r->Ok_0->0 == modules@[id->0],
        r is Err ==> is_module_not_found(r->Err_0),
{
    match id {
        None => Ok(None),
        Some(id) => match find_module(modules, id) {
            Ok(h) => Ok(Some(h)),
            Err(e) => Err(e),
        },
    }
}

/// A value or an error from the engine, as a reply.
fn value_reply(result: Result<serde_json::Value, Error>) -> (r: DefaultWorkerResponse)
    ensures
        r == value_reply_of(result),
{
    match result {
        Ok(v) => DefaultWorkerResponse::Value(v),
        Err(e) => DefaultWorkerResponse::Error(e),
    }
}

/// A loaded module, or an error from the engine, as a reply; a loaded module joins the table.
fn load_reply<W: CommonWorker>(
    modules: &mut HashMap<ModuleId, W::ModuleHandle>,
    result: Result<W::ModuleHandle, Error>,
) -> (r: DefaultWorkerResponse)
    ensures
        r == load_reply_of::<W>(result),
        final(modules)@ == table_after_load::<W>(old(modules)@, result),
{
    match result {
        Ok(handle) => {
            let id = W::module_id(&handle);
            modules.insert(id, handle);
            DefaultWorkerResponse::ModuleId(id)
        },
        Err(e) => DefaultWorkerResponse::Error(e),
    }
}

/// Carries out one request on the engine and the table of loaded modules.
pub fn handle_query<W: CommonWorker>(
    runtime: &mut W,
    modules: &mut HashMap<ModuleId, W::ModuleHandle>,
    query: DefaultWorkerQuery,
) -> (r: DefaultWorkerResponse)
    ensures
        reply_fits(query, r, old(modules)@.dom()),
        served(*old(runtime), old(modules)@, query, r, *final(runtime), final(modules)@),
{
    match query {
        DefaultWorkerQuery::Stop => DefaultWorkerResponse::Ack,
        DefaultWorkerQuery::Eval(code) => value_reply(runtime.eval(code.as_str())),
        DefaultWorkerQuery::LoadMainModule(module) => {
            let loaded = runtime.load_main_module(&module);
            load_reply::<W>(modules, loaded)
        },
        DefaultWorkerQuery::LoadModule(module) => {
            let loaded = runtime.load_module(&module);
            load_reply::<W>(modules, loaded)
        },
        DefaultWorkerQuery::CallEntrypoint(id, args) => match find_module(modules, id) {
            Ok(handle) => value_reply(runtime.call_entrypoint(handle, &args)),
            Err(e) => DefaultWorkerResponse::Error(e),
        },
        DefaultWorkerQuery::CallFunction(id, name, args) => match find_context(modules, id) {
            Ok(handle) => value_reply(runtime.call_function(handle, name.as_str(), &args)),
            Err(e) => DefaultWorkerResponse::Error(e),
        },
        DefaultWorkerQuery::GetValue(id, name) => match find_context(modules, id) {
            Ok(handle) => value_reply(runtime.get_value(handle, name.as_str())),
            Err(e) => DefaultWorkerResponse::Error(e),
        },
    }
}

} // verus!

verus! {

/// What the thread that runs a dispatcher does next.
pub enum DispatchAction {
    /// Send this reply, then wait for the next request.
    Reply(DefaultWorkerResponse),
    /// Send this reply, then end.
    ReplyAndExit(DefaultWorkerResponse),
    /// End without a reply.
    Exit,
}

/// The loop that serves requests on the worker's own thread: it owns the engine and the table of
/// loaded modules, and takes requests one at a time, in the order in which they arrive.
pub struct Dispatcher<W: CommonWorker> {
    runtime: W,
    modules: HashMap<ModuleId, W::ModuleHandle>,
    stopped: bool,
    received: Ghost<Seq<DefaultWorkerQuery>>,
    replies: Ghost<Seq<DefaultWorkerResponse>>,
    states: Ghost<Seq<(W, Map<ModuleId, W::ModuleHandle>)>>,
}

impl<W: CommonWorker> Dispatcher<W> {
    /// The requests taken so far, in order.
    pub closed spec fn received(&self) -> Seq<DefaultWorkerQuery> {
        self.received@
    }

    /// The replies given so far, in order.
    pub closed spec fn replies(&self) -> Seq<DefaultWorkerResponse> {
        self.replies@
    }

    /// The engine and the table of loaded modules before each request taken, and now.
    pub closed spec fn states(&self) -> Seq<(W, Map<ModuleId, W::ModuleHandle>)> {
        self.states@
    }

    /// The engine as it stands.
    pub closed spec fn engine(&self) -> W {
        self.runtime
    }

    /// The table of loaded modules as it stands.
    pub closed spec fn table(&self) -> Map<ModuleId, W::ModuleHandle> {
        self.modules@
    }

    /// The loop has ended: on `Stop`, or because no more requests can come.
    pub closed spec fn is_stopped(&self) -> bool {
        self.stopped
    }

    /// The identifiers of the loaded modules.
    pub closed spec fn loaded(&self) -> Set<ModuleId> {
        self.modules@.dom()
    }

    /// Each request taken has had one reply of its shape, in the same order, and that reply is
    /// what serving the request gave on the engine and table that stood before it; nothing was
    /// taken after a `Stop`, and a `Stop` ended the loop.
    pub closed spec fn wf(&self) -> bool {
        &&& self.replies@.len() == self.received@.len()
        &&& self.states@.len() == self.received@.len() + 1
        &&& self.states@.last() == (self.runtime, self.modules@)
        &&& forall|i: int|
            0 <= i < self.received@.len() ==> #[trigger] answers(self.received@[i], self.replies@[i])
        &&& forall|i: int|
            0 <= i < self.received@.len() ==> served(
                self.states@[i].0,
                self.states@[i].1,
                #[trigger] self.received@[i],
                self.replies@[i],
                self.states@[i + 1].0,
                self.states@[i + 1].1,
            )
        &&& forall|i: int|
            0 <= i < self.received@.len() - 1 ==> !(#[trigger] self.received@[i] is Stop)
        &&& self.received@.len() > 0 && self.received@.last() is Stop ==> self.stopped
    }

    /// Constructs the engine from `options`; a failure is an initialization error that carries
    /// the engine's message.
    pub fn start(options: DefaultWorkerOptions) -> (r: Result<Self, Error>)
        ensures
            exists|e: Result<W, Error>| #[trigger] W::initialized(options, e) && started_from(e, r),
    {
        let ghost opts = options;
        let built = W::init_runtime(options);
        let ghost e = built;
        let r = match built {
            Ok(runtime) => {
                let modules = HashMap::new();
                let ghost first = (runtime, modules@);
                Ok(
                    Dispatcher {
                        runtime,
                        modules,
                        stopped: false,
                        received: Ghost(Seq::empty()),
                        replies: Ghost(Seq::empty()),
                        states: Ghost(Seq::empty().push(first)),
                    },
                )
            },
            Err(x) => Err(Error::Init(x.into_message())),
        };
        assert(W::initialized(opts, e) && started_from(e, r));
        r
    }

    /// Takes the next event: a request, or `None` where the channel of requests has closed.
    pub fn on_event(&mut self, event: Option<DefaultWorkerQuery>) -> (action: DispatchAction)
        requires
            old(self).wf(),
        ensures
            final(self).wf(),
            old(self).is_stopped() || event is None ==> {
                &&& action is Exit
                &&& final(self).is_stopped()
                &&& final(self).received() == old(self).received()
                &&& final(self).replies() == old(self).replies()
                &&& final(self).states() == old(self).states()
                &&& final(self).engine() == old(self).engine()
                &&& final(self).table() == old(self).table()
            },
            !old(self).is_stopped() && event is Some ==> {
                let q = event->0;
                let r = match action {
                    DispatchAction::Reply(r) => r,
                    DispatchAction::ReplyAndExit(r) => r,
                    DispatchAction::Exit => DefaultWorkerResponse::Ack,
                };
                &&& !(action is Exit)
                &&& final(self).received() == old(self).received().push(q)
                &&& final(self).replies() == old(self).replies().push(r)
                &&& reply_fits(q, r, old(self).loaded())
                &&& served(
                    old(self).engine(),
                    old(self).table(),
                    q,
                    r,
                    final(self).engine(),
                    final(self).table(),
                )
                &&& final(self).states() == old(self).states().push(
                    (final(self).engine(), final(self).table()),
                )
                &&& (q is Stop <==> action is ReplyAndExit)
                &&& final(self).is_stopped() == (q is Stop)
                &&& is_load(q) && r is ModuleId ==> final(self).loaded() == old(self).loaded().insert(
                    r->ModuleId_0,
                )
                &&& !(is_load(q) && r is ModuleId) ==> final(self).loaded() == old(self).loaded()
            },
    {
        if self.stopped {
            return DispatchAction::Exit;
        }
        match event {
            None => {
                self.stopped = true;
                DispatchAction::Exit
            },
            Some(query) => {
                let ghost q = query;
                let is_stop = matches!(query, DefaultWorkerQuery::Stop);
                let response = handle_query(&mut self.runtime, &mut self.modules, query);
                proof {
                    self.received@ = self.received@.push(q);
                    self.replies@ = self.replies@.push(response);
                    self.states@ = self.states@.push((self.runtime, self.modules@));
                    assert(self.received@.last() == q);
                }
                if is_stop {
                    self.stopped = true;
                    DispatchAction::ReplyAndExit(response)
                } else {
                    DispatchAction::Reply(response)
                }
            },
        }
    }
}

/// The dispatcher `r` was started from the engine construction outcome `e`: a new engine gives a
/// running dispatcher over it with nothing loaded and nothing taken; a failure gives an
/// initialization error with the engine's message.
pub open spec fn started_from<W: CommonWorker>(e: Result<W, Error>, r: Result<Dispatcher<W>, Error>) -> bool {
    match e {
        Ok(rt) => r is Ok && {
            let d = r->Ok_0;
            &&& d.wf()
            &&& !d.is_stopped()
            &&& d.engine() == rt
            &&& d.table() == Map::<ModuleId, W::ModuleHandle>::empty()
            &&& d.received().len() == 0
            &&& d.states() == seq![(rt, Map::<ModuleId, W::ModuleHandle>::empty())]
        },
        Err(x) => r is Err && r->Err_0 is Init && message_of(r->Err_0) == message_of(x),
    }
}

/// Each request that a dispatcher has taken has had exactly one reply, and the replies come in
/// the order in which the requests arrived: the reply to the request at position `i` is what
/// serving it gave on the engine and table that stood after the replies before it, and serving it
/// left the engine and table from which the next request was served.
pub proof fn lemma_replies_pair_with_requests<W: CommonWorker>(d: &Dispatcher<W>)
    requires
        d.wf(),
    ensures
        d.replies().len() == d.received().len(),
        d.states().len() == d.received().len() + 1,
        d.states().last() == (d.engine(), d.table()),
        forall|i: int| 0 <= i < d.received().len() ==> answers(d.received()[i], d.replies()[i]),
        forall|i: int|
            0 <= i < d.received().len() ==> served(
                d.states()[i].0,
                d.states()[i].1,
                #[trigger] d.received()[i],
                d.replies()[i],
                d.states()[i + 1].0,
                d.states()[i + 1].1,
            ),
{
}

/// Once a dispatcher has taken `Stop`, it takes nothing more: a `Stop` can only be the last
/// request taken, and it leaves the dispatcher stopped.
pub proof fn lemma_nothing_after_stop<W: CommonWorker>(d: &Dispatcher<W>)
    requires
        d.wf(),
    ensures
        forall|i: int| 0 <= i < d.received().len() && (#[trigger] d.received()[i]) is Stop ==> i
            == d.received().len() - 1 && d.is_stopped(),
{
    assert forall|i: int| 0 <= i < d.received().len() && (#[trigger] d.received()[i]) is Stop implies i
        == d.received().len() - 1 && d.is_stopped() by {
        if i < d.received().len() - 1 {
            assert(!(d.received@[i] is Stop));
        }
    }
}

} // verus!
