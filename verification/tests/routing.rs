use hace_brain_runtime::{BrainMode, CeId, Complexity, ZeusConfig, ZeusRouter};

fn config(mode: BrainMode, prefer_local: bool) -> ZeusConfig {
    ZeusConfig { mode, max_local_ctx: 4096, prefer_local }
}

#[test]
fn select_ce_routing_table() {
    #[allow(unused_mut)]
    let mut router: ZeusRouter<()> = ZeusRouter::new(ZeusConfig::default());
    assert_eq!(router.select_ce(Complexity::Simple), CeId::Algo);
    assert_eq!(router.select_ce(Complexity::Medium), CeId::Local);
    assert_eq!(router.select_ce(Complexity::Complex), CeId::Local);
}

#[test]
fn default_config_is_hybrid_preferring_local() {
    let c = ZeusConfig::default();
    assert_eq!(c.mode, BrainMode::Hybrid);
    assert_eq!(c.max_local_ctx, 4096);
    assert!(c.prefer_local);
}

#[test]
fn hybrid_complex_goes_remote_without_local_preference() {
    let router: ZeusRouter<()> = ZeusRouter::new(config(BrainMode::Hybrid, false));
    assert_eq!(router.select_ce(Complexity::Simple), CeId::Algo);
    assert_eq!(router.select_ce(Complexity::Medium), CeId::Local);
    assert_eq!(router.select_ce(Complexity::Complex), CeId::Remote);
}

#[test]
fn algo_only_mode_always_selects_algo() {
    let router: ZeusRouter<()> = ZeusRouter::new(config(BrainMode::AlgoOnly, false));
    for c in [Complexity::Simple, Complexity::Medium, Complexity::Complex] {
        assert_eq!(router.select_ce(c), CeId::Algo);
    }
}

#[test]
fn llm_modes_keep_to_their_side() {
    let local: ZeusRouter<()> = ZeusRouter::new(config(BrainMode::LocalLlm, false));
    let remote: ZeusRouter<()> = ZeusRouter::new(config(BrainMode::RemoteLlm, true));
    assert_eq!(local.select_ce(Complexity::Simple), CeId::Algo);
    assert_eq!(local.select_ce(Complexity::Medium), CeId::Local);
    assert_eq!(local.select_ce(Complexity::Complex), CeId::Local);
    assert_eq!(remote.select_ce(Complexity::Simple), CeId::Algo);
    assert_eq!(remote.select_ce(Complexity::Medium), CeId::Remote);
    assert_eq!(remote.select_ce(Complexity::Complex), CeId::Remote);
}

#[test]
fn unregistered_ces_fall_back_to_algo() {
    let router: ZeusRouter<&str> = ZeusRouter::new(ZeusConfig::default());
    assert_eq!(router.serving_ce(CeId::Algo), CeId::Algo);
    assert_eq!(router.serving_ce(CeId::Local), CeId::Algo);
    assert_eq!(router.serving_ce(CeId::Remote), CeId::Algo);
    assert_eq!(router.route(Complexity::Medium, 10), (CeId::Local, CeId::Algo));
}

#[test]
fn missing_remote_falls_back_to_local() {
    let mut router: ZeusRouter<&str> = ZeusRouter::new(config(BrainMode::RemoteLlm, false));
    router.register_local("hacedle");
    assert_eq!(router.local_ce(), Some(&"hacedle"));
    assert_eq!(router.remote_ce(), None);
    assert_eq!(router.serving_ce(CeId::Remote), CeId::Local);
    assert_eq!(router.route(Complexity::Complex, 10), (CeId::Remote, CeId::Local));
    assert_eq!(router.route(Complexity::Simple, 10), (CeId::Algo, CeId::Algo));
}

#[test]
fn registered_ces_serve_their_own_requests() {
    let mut router: ZeusRouter<u32> = ZeusRouter::new(config(BrainMode::Hybrid, false));
    router.register_remote(7);
    router.register_local(3);
    assert_eq!(router.remote_ce(), Some(&7));
    assert_eq!(router.local_ce(), Some(&3));
    assert_eq!(router.route(Complexity::Complex, 10), (CeId::Remote, CeId::Remote));
    assert_eq!(router.route(Complexity::Medium, 10), (CeId::Local, CeId::Local));
    assert_eq!(router.config().mode, BrainMode::Hybrid);
    router.register_local(4);
    assert_eq!(router.local_ce(), Some(&4));
    assert_eq!(router.remote_ce(), Some(&7));
}

#[test]
fn only_remote_registered_local_request_goes_to_algo() {
    let mut router: ZeusRouter<u32> = ZeusRouter::new(ZeusConfig::default());
    router.register_remote(1);
    assert_eq!(router.serving_ce(CeId::Local), CeId::Algo);
    assert_eq!(router.serving_ce(CeId::Remote), CeId::Remote);
}

#[test]
fn algo_only_request_is_served_by_algo() {
    let mut router: ZeusRouter<u32> = ZeusRouter::new(config(BrainMode::AlgoOnly, true));
    router.register_local(1);
    router.register_remote(2);
    assert_eq!(router.route(Complexity::Complex, 10), (CeId::Algo, CeId::Algo));
}

#[test]
fn hybrid_simple_request_is_served_by_algo() {
    let router: ZeusRouter<u32> = ZeusRouter::new(ZeusConfig::default());
    assert_eq!(router.route(Complexity::Simple, 10), (CeId::Algo, CeId::Algo));
}

#[test]
fn hybrid_medium_without_local_ce_is_served_by_algo() {
    let mut router: ZeusRouter<u32> = ZeusRouter::new(ZeusConfig::default());
    router.register_remote(9);
    assert_eq!(router.route(Complexity::Medium, 10), (CeId::Local, CeId::Algo));
}

#[test]
fn local_preferred_only_if_available() {
    let mut router: ZeusRouter<u32> = ZeusRouter::new(ZeusConfig::default());
    router.register_remote(5);
    assert_eq!(router.select_ce(Complexity::Complex), CeId::Local);
    assert_eq!(router.route(Complexity::Complex, 10), (CeId::Remote, CeId::Remote));
    router.register_local(6);
    assert_eq!(router.route(Complexity::Complex, 10), (CeId::Local, CeId::Local));
    let bare: ZeusRouter<u32> = ZeusRouter::new(ZeusConfig::default());
    assert_eq!(bare.route(Complexity::Complex, 10), (CeId::Local, CeId::Algo));
}

#[test]
fn large_request_forced_remote_in_hybrid() {
    let mut router: ZeusRouter<u32> = ZeusRouter::new(ZeusConfig::default());
    router.register_local(1);
    assert_eq!(router.route(Complexity::Medium, 5000), (CeId::Local, CeId::Local));
    router.register_remote(2);
    for c in [Complexity::Simple, Complexity::Medium, Complexity::Complex] {
        assert_eq!(router.route(c, 4097), (CeId::Remote, CeId::Remote));
    }
    assert_eq!(router.route(Complexity::Medium, 4096), (CeId::Local, CeId::Local));
    assert_eq!(router.route(Complexity::Simple, 4096), (CeId::Algo, CeId::Algo));
}

#[test]
fn large_request_not_forced_outside_hybrid() {
    let mut router: ZeusRouter<u32> = ZeusRouter::new(config(BrainMode::LocalLlm, false));
    router.register_local(1);
    router.register_remote(2);
    assert_eq!(router.route(Complexity::Complex, 100_000), (CeId::Local, CeId::Local));
    let mut algo: ZeusRouter<u32> = ZeusRouter::new(config(BrainMode::AlgoOnly, false));
    algo.register_remote(2);
    assert_eq!(algo.route(Complexity::Complex, 100_000), (CeId::Algo, CeId::Algo));
}
