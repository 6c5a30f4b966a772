//! Zeus CE coordinator: chooses which compute engine (CE) serves a reasoning
//! request, and the small runtime around the CE bridges.
//!
//! CE dispatch table (`select_ce`), by mode and complexity; in hybrid mode:
//!   Simple  -> CE.Algo   (deterministic, zero tokens)
//!   Medium  -> CE.Local
//!   Complex -> CE.Remote, or CE.Local where the configuration prefers local
//! Routing a request (`route`) also looks at what is registered and at the
//! request's size: in hybrid mode a request above `max_local_ctx` is forced to
//! the remote CE, and local is preferred for a complex request only if a local
//! CE is available. A CE that is not registered falls back:
//! Remote -> Local -> Algo, Local -> Algo.
use vstd::prelude::*;

pub mod bridges;
pub mod context;
pub mod dispatcher;
pub mod executor;
pub mod outcome;
pub mod planner;
pub mod prompt;
pub mod router;
pub mod session;
pub mod text;

verus! {

/// Which runtime serves a request, and with which model.
#[derive(Debug, Clone)]
pub struct RuntimeConfig {
    pub provider: String,
    pub model_id: Option<String>,
}

impl Default for RuntimeConfig {
    fn default() -> (c: Self)
        ensures
            c.provider@ == Seq::<char>::empty(),
            c.model_id is None,
    {
        RuntimeConfig { provider: String::new(), model_id: None }
    }
}

/// A runtime request. The sampling parameters are carried as the bit patterns
/// of the `f32` values they stand for; the runtime only passes them on.
#[derive(Debug, Clone)]
pub struct RuntimeSio {
    pub prompt: Option<String>,
    pub max_tokens: Option<u32>,
    pub temperature_bits: Option<u32>,
    pub top_p_bits: Option<u32>,
    pub runtime: RuntimeConfig,
}

impl Default for RuntimeSio {
    fn default() -> (s: Self)
        ensures
            s.prompt is None,
            s.max_tokens is None,
            s.temperature_bits is None,
            s.top_p_bits is None,
            s.runtime.provider@ == Seq::<char>::empty(),
            s.runtime.model_id is None,
    {
        RuntimeSio {
            prompt: None,
            max_tokens: None,
            temperature_bits: None,
            top_p_bits: None,
            runtime: RuntimeConfig::default(),
        }
    }
}

/// Cost figures of one runtime call.
#[derive(Debug, Clone, Copy, PartialEq, Eq, Structural)]
pub struct Telemetry {
    pub latency_ms: u64,
    pub tokens_used: u32,
}

impl Default for Telemetry {
    fn default() -> (t: Self)
        ensures
            t == (Telemetry { latency_ms: 0, tokens_used: 0 }),
    {
        Telemetry { latency_ms: 0, tokens_used: 0 }
    }
}

/// The answer of a runtime call.
#[derive(Debug, Clone)]
pub struct RuntimeOutcome {
    pub status: String,
    pub result: Vec<u32>,
    pub telemetry: Telemetry,
}

/// How the coordinator may reach reasoning backends.
#[derive(Debug, Clone, Copy, PartialEq, Eq, Structural)]
pub enum BrainMode {
    AlgoOnly,
    LocalLlm,
    RemoteLlm,
    Hybrid,
}

/// How demanding a request is, as classified before routing.
#[derive(Debug, Clone, Copy, PartialEq, Eq, Structural)]
pub enum Complexity {
    Simple,
    Medium,
    Complex,
}

/// A compute engine.
#[derive(Debug, Clone, Copy, PartialEq, Eq, Structural)]
pub enum CeId {
    Algo,
    /// CE.Hacedle or CE.Llama
    Local,
    /// CE.Remote
    Remote,
}

/// Routing configuration of the coordinator.
#[derive(Debug, Clone, Copy, PartialEq, Eq, Structural)]
pub struct ZeusConfig {
    pub mode: BrainMode,
    /// tokens; above this, force remote (in hybrid mode, where a remote CE is registered)
    pub max_local_ctx: usize,
    /// prefer the local CE for complex requests, if one is available
    pub prefer_local: bool,
}

impl Default for ZeusConfig {
    fn default() -> (c: Self)
        ensures
            c == (ZeusConfig { mode: BrainMode::Hybrid, max_local_ctx: 4096, prefer_local: true }),
    {
        ZeusConfig { mode: BrainMode::Hybrid, max_local_ctx: 4096, prefer_local: true }
    }
}

/// The CE that the routing table assigns to a request of the given complexity.
pub open spec fn spec_select_ce(config: ZeusConfig, complexity: Complexity) -> CeId {
    match config.mode {
        BrainMode::AlgoOnly => CeId::Algo,
        BrainMode::LocalLlm => if complexity == Complexity::Simple { CeId::Algo } else { CeId::Local },
        BrainMode::RemoteLlm => if complexity == Complexity::Simple { CeId::Algo } else { CeId::Remote },
        BrainMode::Hybrid => match complexity {
            Complexity::Simple => CeId::Algo,
            Complexity::Medium => CeId::Local,
            Complexity::Complex => if config.prefer_local { CeId::Local } else { CeId::Remote },
        },
    }
}

/// The CE that actually serves a request routed to `selected`, given which CEs
/// are registered: a missing local CE falls back to the algorithmic particle, a
/// missing remote CE to the local CE and then to the algorithmic particle.
pub open spec fn spec_serving_ce(selected: CeId, has_local: bool, has_remote: bool) -> CeId {
    match selected {
        CeId::Algo => CeId::Algo,
        CeId::Local => if has_local { CeId::Local } else { CeId::Algo },
        CeId::Remote => if has_remote {
            CeId::Remote
        } else if has_local {
            CeId::Local
        } else {
            CeId::Algo
        },
    }
}

/// The CE that a request is routed to, given its complexity, its size and
/// which CEs are registered. In hybrid mode a request larger than
/// `max_local_ctx` goes to the remote CE if one is registered, and a complex
/// request for which local is preferred goes to the remote CE if no local CE
/// but a remote one is registered; otherwise the routing table decides.
pub open spec fn spec_route_ce(
    config: ZeusConfig,
    complexity: Complexity,
    size: nat,
    has_local: bool,
    has_remote: bool,
) -> CeId {
    if config.mode == BrainMode::Hybrid && size > config.max_local_ctx && has_remote {
        CeId::Remote
    } else if config.mode == BrainMode::Hybrid && complexity == Complexity::Complex
        && config.prefer_local && !has_local && has_remote {
        CeId::Remote
    } else {
        spec_select_ce(config, complexity)
    }
}

/// Selects a CE from complexity and mode, and holds the CEs registered with it.
/// `K` is the handle through which a registered CE is reached.
pub struct ZeusRouter<K> {
    config: ZeusConfig,
    local_ce: Option<K>,
    remote_ce: Option<K>,
}

impl<K> ZeusRouter<K> {
    /// The routing configuration.
    pub closed spec fn spec_config(&self) -> ZeusConfig {
        self.config
    }

    /// The registered local CE, if any.
    pub closed spec fn spec_local(&self) -> Option<K> {
        self.local_ce
    }

    /// The registered remote CE, if any.
    pub closed spec fn spec_remote(&self) -> Option<K> {
        self.remote_ce
    }

    pub fn new(config: ZeusConfig) -> (r: Self)
        ensures
            r.spec_config() == config,
            r.spec_local() is None,
            r.spec_remote() is None,
    {
        ZeusRouter { config, local_ce: None, remote_ce: None }
    }

    /// Register the local CE (CE.Hacedle or CE.Llama), replacing any earlier one.
    pub fn register_local(&mut self, ce: K)
        ensures
            final(self).spec_config() == old(self).spec_config(),
            final(self).spec_local() == Some(ce),
            final(self).spec_remote() == old(self).spec_remote(),
    {
        self.local_ce = Some(ce);
    }

    /// Register the remote CE (CE.Remote), replacing any earlier one.
    pub fn register_remote(&mut self, ce: K)
        ensures
            final(self).spec_config() == old(self).spec_config(),
            final(self).spec_local() == old(self).spec_local(),
            final(self).spec_remote() == Some(ce),
    {
        self.remote_ce = Some(ce);
    }

    pub fn config(&self) -> (r: &ZeusConfig)
        ensures
            *r == self.spec_config(),
    {
        &self.config
    }

    pub fn local_ce(&self) -> (r: Option<&K>)
        ensures
            r is None <==> self.spec_local() is None,
            r matches Some(k) ==> self.spec_local() == Some(*k),
    {
        match &self.local_ce {
            Some(k) => Some(k),
            None => None,
        }
    }

    pub fn remote_ce(&self) -> (r: Option<&K>)
        ensures
            r is None <==> self.spec_remote() is None,
            r matches Some(k) ==> self.spec_remote() == Some(*k),
    {
        match &self.remote_ce {
            Some(k) => Some(k),
            None => None,
        }
    }

    /// The routing table: which CE a request of this complexity is meant for.
    pub fn select_ce(&self, complexity: Complexity) -> (r: CeId)
        ensures
            r == spec_select_ce(self.spec_config(), complexity),
    {
        match self.config.mode {
            BrainMode::AlgoOnly => CeId::Algo,
            BrainMode::LocalLlm => match complexity {
                Complexity::Simple => CeId::Algo,
                _ => CeId::Local,
            },
            BrainMode::RemoteLlm => match complexity {
                Complexity::Simple => CeId::Algo,
                _ => CeId::Remote,
            },
            BrainMode::Hybrid => match complexity {
                Complexity::Simple => CeId::Algo,
                Complexity::Medium => CeId::Local,
                Complexity::Complex => if self.config.prefer_local {
                    CeId::Local
                } else {
                    CeId::Remote
                },
            },
        }
    }

    /// The CE that serves a request routed to `selected`, falling back to a
    /// registered one where `selected` is not registered.
    pub fn serving_ce(&self, selected: CeId) -> (r: CeId)
        ensures
            r == spec_serving_ce(selected, self.spec_local() is Some, self.spec_remote() is Some),
    {
        match selected {
            CeId::Algo => CeId::Algo,
            CeId::Local => match &self.local_ce {
                Some(_) => CeId::Local,
                None => CeId::Algo,
            },
            CeId::Remote => match &self.remote_ce {
                Some(_) => CeId::Remote,
                None => match &self.local_ce {
                    Some(_) => CeId::Local,
                    None => CeId::Algo,
                },
            },
        }
    }

    /// The routing decision for one request of the given complexity and size
    /// (the size of its payload, standing for its token count): the CE it is
    /// routed to and the CE that serves it.
    pub fn route(&self, complexity: Complexity, size: usize) -> (r: (CeId, CeId))
        ensures
            r.0 == spec_route_ce(
                self.spec_config(),
                complexity,
                size as nat,
                self.spec_local() is Some,
                self.spec_remote() is Some,
            ),
            r.1 == spec_serving_ce(r.0, self.spec_local() is Some, self.spec_remote() is Some),
    {
        let hybrid = match self.config.mode {
            BrainMode::Hybrid => true,
            _ => false,
        };
        let has_local = self.local_ce.is_some();
        let has_remote = self.remote_ce.is_some();
        let complex = match complexity {
            Complexity::Complex => true,
            _ => false,
        };
        let selected = if hybrid && size > self.config.max_local_ctx && has_remote {
            CeId::Remote
        } else if hybrid && complex && self.config.prefer_local && !has_local && has_remote {
            CeId::Remote
        } else {
            self.select_ce(complexity)
        };
        (selected, self.serving_ce(selected))
    }
}

/// In algorithm-only mode the routing table sends every request to the
/// algorithmic particle.
pub proof fn lemma_algo_only_routes_to_algo(config: ZeusConfig, complexity: Complexity)
    requires
        config.mode == BrainMode::AlgoOnly,
    ensures
        spec_select_ce(config, complexity) == CeId::Algo,
{
}

/// The routing table sends a simple request to the algorithmic particle,
/// whatever the mode.
pub proof fn lemma_simple_routes_to_algo(config: ZeusConfig)
    ensures
        spec_select_ce(config, Complexity::Simple) == CeId::Algo,
{
}

/// In the routing table a mode that names one kind of LLM never picks the other
/// kind: local-LLM mode never selects the remote CE, remote-LLM mode never the
/// local one.
pub proof fn lemma_mode_keeps_its_side(config: ZeusConfig, complexity: Complexity)
    ensures
        config.mode == BrainMode::LocalLlm ==> spec_select_ce(config, complexity) != CeId::Remote,
        config.mode == BrainMode::RemoteLlm ==> spec_select_ce(config, complexity) != CeId::Local,
{
}

/// In hybrid mode the routing table sends a complex request to the local CE
/// exactly when the configuration prefers local, and a medium one to the local
/// CE always.
pub proof fn lemma_hybrid_preference(config: ZeusConfig)
    requires
        config.mode == BrainMode::Hybrid,
    ensures
        spec_select_ce(config, Complexity::Medium) == CeId::Local,
        (spec_select_ce(config, Complexity::Complex) == CeId::Local) == config.prefer_local,
        (spec_select_ce(config, Complexity::Complex) == CeId::Remote) == !config.prefer_local,
{
}

/// The serving CE is always one that can serve: the algorithmic particle, or a
/// registered local or remote CE.
pub proof fn lemma_serving_ce_is_registered(selected: CeId, has_local: bool, has_remote: bool)
    ensures
        spec_serving_ce(selected, has_local, has_remote) == CeId::Local ==> has_local,
        spec_serving_ce(selected, has_local, has_remote) == CeId::Remote ==> has_remote,
{
}

/// A selected CE that is registered (the algorithmic particle always is) serves
/// the request itself; fallback happens only for a missing CE.
pub proof fn lemma_registered_selection_serves(selected: CeId, has_local: bool, has_remote: bool)
    requires
        selected == CeId::Local ==> has_local,
        selected == CeId::Remote ==> has_remote,
    ensures
        spec_serving_ce(selected, has_local, has_remote) == selected,
{
}

/// Fallback only moves towards the algorithmic particle: a request for the
/// local CE is never served remotely, one for the algorithmic particle always
/// stays there, and with nothing registered every request is served by it.
pub proof fn lemma_fallback_never_escalates(selected: CeId, has_local: bool, has_remote: bool)
    ensures
        selected == CeId::Local ==> spec_serving_ce(selected, has_local, has_remote) != CeId::Remote,
        selected == CeId::Algo ==> spec_serving_ce(selected, has_local, has_remote) == CeId::Algo,
        !has_local && !has_remote ==> spec_serving_ce(selected, has_local, has_remote) == CeId::Algo,
{
}

/// In algorithm-only mode every request is routed to and served by the
/// algorithmic particle, whatever its size and whatever is registered.
pub proof fn lemma_algo_only_serves_algo(
    config: ZeusConfig,
    complexity: Complexity,
    size: nat,
    has_local: bool,
    has_remote: bool,
)
    requires
        config.mode == BrainMode::AlgoOnly,
    ensures
        spec_route_ce(config, complexity, size, has_local, has_remote) == CeId::Algo,
        spec_serving_ce(spec_route_ce(config, complexity, size, has_local, has_remote), has_local, has_remote)
            == CeId::Algo,
{
}

/// Local-LLM mode never reaches the remote CE, and remote-LLM mode never
/// routes to the local CE (it reaches it only as fallback for a missing
/// remote CE).
pub proof fn lemma_route_keeps_mode_side(
    config: ZeusConfig,
    complexity: Complexity,
    size: nat,
    has_local: bool,
    has_remote: bool,
)
    ensures
        config.mode == BrainMode::LocalLlm ==> spec_serving_ce(
            spec_route_ce(config, complexity, size, has_local, has_remote),
            has_local,
            has_remote,
        ) != CeId::Remote,
        config.mode == BrainMode::RemoteLlm ==> spec_route_ce(config, complexity, size, has_local, has_remote)
            != CeId::Local,
{
}

/// In hybrid mode a request above `max_local_ctx` is forced to the remote CE
/// when one is registered: it is routed to and served by the remote CE.
pub proof fn lemma_large_request_forced_remote(
    config: ZeusConfig,
    complexity: Complexity,
    size: nat,
    has_local: bool,
)
    requires
        config.mode == BrainMode::Hybrid,
        size > config.max_local_ctx,
    ensures
        spec_route_ce(config, complexity, size, has_local, true) == CeId::Remote,
        spec_serving_ce(spec_route_ce(config, complexity, size, has_local, true), has_local, true)
            == CeId::Remote,
{
}

/// In hybrid mode a complex request for which local is preferred is served by
/// the local CE if one is registered, else by the remote CE if one is
/// registered, and by the algorithmic particle only when neither is.
pub proof fn lemma_local_preferred_if_available(
    config: ZeusConfig,
    size: nat,
    has_local: bool,
    has_remote: bool,
)
    requires
        config.mode == BrainMode::Hybrid,
        config.prefer_local,
        size <= config.max_local_ctx,
    ensures
        ({
            let served = spec_serving_ce(
                spec_route_ce(config, Complexity::Complex, size, has_local, has_remote),
                has_local,
                has_remote,
            );
            &&& has_local ==> served == CeId::Local
            &&& !has_local && has_remote ==> served == CeId::Remote
            &&& !has_local && !has_remote ==> served == CeId::Algo
        }),
{
}

/// In hybrid mode a complex request for which local is not preferred is served
/// by the remote CE, or where it is missing by the local CE, or else by the
/// algorithmic particle.
pub proof fn lemma_complex_goes_remote_first(
    config: ZeusConfig,
    size: nat,
    has_local: bool,
    has_remote: bool,
)
    requires
        config.mode == BrainMode::Hybrid,
        !config.prefer_local,
    ensures
        ({
            let served = spec_serving_ce(
                spec_route_ce(config, Complexity::Complex, size, has_local, has_remote),
                has_local,
                has_remote,
            );
            &&& has_remote ==> served == CeId::Remote
            &&& !has_remote && has_local ==> served == CeId::Local
            &&& !has_remote && !has_local ==> served == CeId::Algo
        }),
{
}

/// A request that is not forced remote follows the routing table where the CE
/// it names is registered: a simple hybrid request within `max_local_ctx` is
/// served by the algorithmic particle, a medium one by a registered local CE.
pub proof fn lemma_small_hybrid_requests_follow_table(
    config: ZeusConfig,
    size: nat,
    has_local: bool,
    has_remote: bool,
)
    requires
        config.mode == BrainMode::Hybrid,
        size <= config.max_local_ctx,
    ensures
        spec_serving_ce(spec_route_ce(config, Complexity::Simple, size, has_local, has_remote), has_local, has_remote)
            == CeId::Algo,
        has_local ==> spec_serving_ce(
            spec_route_ce(config, Complexity::Medium, size, has_local, has_remote),
            has_local,
            has_remote,
        ) == CeId::Local,
        !has_local ==> spec_serving_ce(
            spec_route_ce(config, Complexity::Medium, size, has_local, has_remote),
            has_local,
            has_remote,
        ) == CeId::Algo,
{
}

/// The routing table, row by row: a simple request always goes to the
/// algorithmic particle; algorithm-only mode sends everything there; local-LLM
/// mode sends every other request to the local CE and remote-LLM mode to the
/// remote CE, whatever `prefer_local` says; hybrid mode sends a medium request
/// to the local CE and a complex one to the local CE exactly when local is
/// preferred, else to the remote CE.
pub proof fn lemma_routing_table_rows(config: ZeusConfig, complexity: Complexity)
    ensures
        complexity == Complexity::Simple ==> spec_select_ce(config, complexity) == CeId::Algo,
        config.mode == BrainMode::AlgoOnly ==> spec_select_ce(config, complexity) == CeId::Algo,
        config.mode == BrainMode::LocalLlm && complexity != Complexity::Simple
            ==> spec_select_ce(config, complexity) == CeId::Local,
        config.mode == BrainMode::RemoteLlm && complexity != Complexity::Simple
            ==> spec_select_ce(config, complexity) == CeId::Remote,
        config.mode == BrainMode::Hybrid && complexity == Complexity::Medium
            ==> spec_select_ce(config, complexity) == CeId::Local,
        config.mode == BrainMode::Hybrid && complexity == Complexity::Complex && config.prefer_local
            ==> spec_select_ce(config, complexity) == CeId::Local,
        config.mode == BrainMode::Hybrid && complexity == Complexity::Complex && !config.prefer_local
            ==> spec_select_ce(config, complexity) == CeId::Remote,
{
}

/// Outside hybrid mode a request is routed by the routing table alone, whatever
/// its size and whatever is registered; in particular a non-simple request in
/// local-LLM mode with a registered local CE is routed to and served by it, one
/// in remote-LLM mode with a registered remote CE by the remote CE, and a
/// simple request is served by the algorithmic particle.
pub proof fn lemma_route_outside_hybrid(
    config: ZeusConfig,
    complexity: Complexity,
    size: nat,
    has_local: bool,
    has_remote: bool,
)
    requires
        config.mode != BrainMode::Hybrid,
    ensures
        spec_route_ce(config, complexity, size, has_local, has_remote) == spec_select_ce(config, complexity),
        config.mode == BrainMode::LocalLlm && complexity != Complexity::Simple && has_local ==> {
            &&& spec_route_ce(config, complexity, size, has_local, has_remote) == CeId::Local
            &&& spec_serving_ce(spec_route_ce(config, complexity, size, has_local, has_remote), has_local, has_remote)
                == CeId::Local
        },
        config.mode == BrainMode::RemoteLlm && complexity != Complexity::Simple && has_remote ==> {
            &&& spec_route_ce(config, complexity, size, has_local, has_remote) == CeId::Remote
            &&& spec_serving_ce(spec_route_ce(config, complexity, size, has_local, has_remote), has_local, has_remote)
                == CeId::Remote
        },
        complexity == Complexity::Simple ==> spec_serving_ce(
            spec_route_ce(config, complexity, size, has_local, has_remote),
            has_local,
            has_remote,
        ) == CeId::Algo,
{
}

} // verus!
