use cli_pulse::creds::{
    build_provider_creds_view, env_set, override_variables, set_provider_creds, CredsEvent,
    CredsStep, EnvVar, ProviderCreds, ProviderCredsUpdate,
};
use cli_pulse::device::Backend;

fn none() -> ProviderCreds {
    ProviderCreds {
        cursor_cookie: None,
        copilot_token: None,
        openrouter_api_key: None,
        openrouter_base_url: None,
        deepseek_api_key: None,
        zai_api_key: None,
        crof_api_key: None,
        minimax_api_key: None,
        moonshot_api_key: None,
        venice_api_key: None,
        kimi_k2_api_key: None,
        augment_cookie: None,
        perplexity_cookie: None,
        t3chat_cookie: None,
        stepfun_cookie: None,
        warp_api_key: None,
        kimi_auth_token: None,
        grok_cookie: None,
        glm_api_key: None,
        volcano_api_key: None,
        groq_api_key: None,
        mistral_cookie: None,
        deepgram_api_key: None,
        elevenlabs_api_key: None,
        kilo_api_key: None,
        alibaba_api_key: None,
        openai_admin_key: None,
        codebuff_api_key: None,
        manus_cookie: None,
        abacus_cookie: None,
    }
}

fn no_change() -> ProviderCredsUpdate {
    ProviderCredsUpdate {
        cursor_cookie: None,
        copilot_token: None,
        openrouter_api_key: None,
        openrouter_base_url: None,
        deepseek_api_key: None,
        zai_api_key: None,
        crof_api_key: None,
        minimax_api_key: None,
        moonshot_api_key: None,
        venice_api_key: None,
        kimi_k2_api_key: None,
        augment_cookie: None,
        perplexity_cookie: None,
        t3chat_cookie: None,
        stepfun_cookie: None,
        warp_api_key: None,
        kimi_auth_token: None,
        grok_cookie: None,
        glm_api_key: None,
        volcano_api_key: None,
        groq_api_key: None,
        mistral_cookie: None,
        deepgram_api_key: None,
        elevenlabs_api_key: None,
        kilo_api_key: None,
        alibaba_api_key: None,
        openai_admin_key: None,
        codebuff_api_key: None,
        manus_cookie: None,
        abacus_cookie: None,
    }
}

fn var(name: &str, value: &str) -> EnvVar {
    EnvVar { name: name.into(), value: value.into() }
}

/// Which credentials are shown as set, in the order of the settings.
fn shown(c: &ProviderCreds) -> Vec<bool> {
    let v = build_provider_creds_view(c, &vec![], Backend::File);
    vec![
        v.cursor_cookie_set,
        v.copilot_token_set,
        v.openrouter_api_key_set,
        v.deepseek_api_key_set,
        v.zai_api_key_set,
        v.crof_api_key_set,
        v.minimax_api_key_set,
        v.moonshot_api_key_set,
        v.venice_api_key_set,
        v.kimi_k2_api_key_set,
        v.augment_cookie_set,
        v.perplexity_cookie_set,
        v.t3chat_cookie_set,
        v.stepfun_cookie_set,
        v.warp_api_key_set,
        v.kimi_auth_token_set,
        v.grok_cookie_set,
        v.glm_api_key_set,
        v.volcano_api_key_set,
        v.groq_api_key_set,
        v.mistral_cookie_set,
        v.deepgram_api_key_set,
        v.elevenlabs_api_key_set,
        v.kilo_api_key_set,
        v.alibaba_api_key_set,
        v.openai_admin_key_set,
        v.codebuff_api_key_set,
        v.manus_cookie_set,
        v.abacus_cookie_set,
    ]
}

/// Which credentials are shown as overridden by this variable, in the order of the settings.
fn overridden(name: &str) -> Vec<usize> {
    let env = vec![var("HOME", "/"), var(name, "x")];
    let v = build_provider_creds_view(&none(), &env, Backend::OsKeychain);
    let flags = vec![
        v.env_override_cursor,
        v.env_override_copilot,
        v.env_override_openrouter_key,
        v.env_override_openrouter_url,
        v.env_override_deepseek,
        v.env_override_zai,
        v.env_override_crof,
        v.env_override_minimax,
        v.env_override_moonshot,
        v.env_override_venice,
        v.env_override_kimi_k2,
        v.env_override_augment,
        v.env_override_perplexity,
        v.env_override_t3chat,
        v.env_override_stepfun,
        v.env_override_warp,
        v.env_override_kimi,
        v.env_override_grok,
        v.env_override_glm,
        v.env_override_volcano,
        v.env_override_groq,
        v.env_override_mistral,
        v.env_override_deepgram,
        v.env_override_elevenlabs,
        v.env_override_kilo,
        v.env_override_alibaba,
        v.env_override_openai_admin,
        v.env_override_codebuff,
        v.env_override_manus,
        v.env_override_abacus,
    ];
    flags.iter().enumerate().filter(|(_, on)| **on).map(|(i, _)| i).collect()
}

#[test]
fn a_change_touches_the_fields_it_names() {
    let mut c = none();
    c.cursor_cookie = Some("old".into());
    c.grok_cookie = Some("kept".into());
    let mut u = no_change();
    u.cursor_cookie = Some(String::new());
    u.zai_api_key = Some("new".into());
    let c = set_provider_creds(c, u);
    assert_eq!(c.cursor_cookie, None);
    assert_eq!(c.zai_api_key.as_deref(), Some("new"));
    assert_eq!(c.grok_cookie.as_deref(), Some("kept"));
    assert_eq!(c.abacus_cookie, None);
}

#[test]
fn every_field_can_be_set_and_cleared() {
    let mut u = no_change();
    u.cursor_cookie = Some("cursor_cookie".into());
    u.copilot_token = Some("copilot_token".into());
    u.openrouter_api_key = Some("openrouter_api_key".into());
    u.openrouter_base_url = Some("openrouter_base_url".into());
    u.deepseek_api_key = Some("deepseek_api_key".into());
    u.zai_api_key = Some("zai_api_key".into());
    u.crof_api_key = Some("crof_api_key".into());
    u.minimax_api_key = Some("minimax_api_key".into());
    u.moonshot_api_key = Some("moonshot_api_key".into());
    u.venice_api_key = Some("venice_api_key".into());
    u.kimi_k2_api_key = Some("kimi_k2_api_key".into());
    u.augment_cookie = Some("augment_cookie".into());
    u.perplexity_cookie = Some("perplexity_cookie".into());
    u.t3chat_cookie = Some("t3chat_cookie".into());
    u.stepfun_cookie = Some("stepfun_cookie".into());
    u.warp_api_key = Some("warp_api_key".into());
    u.kimi_auth_token = Some("kimi_auth_token".into());
    u.grok_cookie = Some("grok_cookie".into());
    u.glm_api_key = Some("glm_api_key".into());
    u.volcano_api_key = Some("volcano_api_key".into());
    u.groq_api_key = Some("groq_api_key".into());
    u.mistral_cookie = Some("mistral_cookie".into());
    u.deepgram_api_key = Some("deepgram_api_key".into());
    u.elevenlabs_api_key = Some("elevenlabs_api_key".into());
    u.kilo_api_key = Some("kilo_api_key".into());
    u.alibaba_api_key = Some("alibaba_api_key".into());
    u.openai_admin_key = Some("openai_admin_key".into());
    u.codebuff_api_key = Some("codebuff_api_key".into());
    u.manus_cookie = Some("manus_cookie".into());
    u.abacus_cookie = Some("abacus_cookie".into());
    let c = set_provider_creds(none(), u);
    assert_eq!(c.cursor_cookie.as_deref(), Some("cursor_cookie"));
    assert_eq!(c.copilot_token.as_deref(), Some("copilot_token"));
    assert_eq!(c.openrouter_api_key.as_deref(), Some("openrouter_api_key"));
    assert_eq!(c.openrouter_base_url.as_deref(), Some("openrouter_base_url"));
    assert_eq!(c.deepseek_api_key.as_deref(), Some("deepseek_api_key"));
    assert_eq!(c.zai_api_key.as_deref(), Some("zai_api_key"));
    assert_eq!(c.crof_api_key.as_deref(), Some("crof_api_key"));
    assert_eq!(c.minimax_api_key.as_deref(), Some("minimax_api_key"));
    assert_eq!(c.moonshot_api_key.as_deref(), Some("moonshot_api_key"));
    assert_eq!(c.venice_api_key.as_deref(), Some("venice_api_key"));
    assert_eq!(c.kimi_k2_api_key.as_deref(), Some("kimi_k2_api_key"));
    assert_eq!(c.augment_cookie.as_deref(), Some("augment_cookie"));
    assert_eq!(c.perplexity_cookie.as_deref(), Some("perplexity_cookie"));
    assert_eq!(c.t3chat_cookie.as_deref(), Some("t3chat_cookie"));
    assert_eq!(c.stepfun_cookie.as_deref(), Some("stepfun_cookie"));
    assert_eq!(c.warp_api_key.as_deref(), Some("warp_api_key"));
    assert_eq!(c.kimi_auth_token.as_deref(), Some("kimi_auth_token"));
    assert_eq!(c.grok_cookie.as_deref(), Some("grok_cookie"));
    assert_eq!(c.glm_api_key.as_deref(), Some("glm_api_key"));
    assert_eq!(c.volcano_api_key.as_deref(), Some("volcano_api_key"));
    assert_eq!(c.groq_api_key.as_deref(), Some("groq_api_key"));
    assert_eq!(c.mistral_cookie.as_deref(), Some("mistral_cookie"));
    assert_eq!(c.deepgram_api_key.as_deref(), Some("deepgram_api_key"));
    assert_eq!(c.elevenlabs_api_key.as_deref(), Some("elevenlabs_api_key"));
    assert_eq!(c.kilo_api_key.as_deref(), Some("kilo_api_key"));
    assert_eq!(c.alibaba_api_key.as_deref(), Some("alibaba_api_key"));
    assert_eq!(c.openai_admin_key.as_deref(), Some("openai_admin_key"));
    assert_eq!(c.codebuff_api_key.as_deref(), Some("codebuff_api_key"));
    assert_eq!(c.manus_cookie.as_deref(), Some("manus_cookie"));
    assert_eq!(c.abacus_cookie.as_deref(), Some("abacus_cookie"));
    assert!(shown(&c).iter().all(|on| *on));
    let mut u = no_change();
    u.cursor_cookie = Some(String::new());
    u.copilot_token = Some(String::new());
    u.openrouter_api_key = Some(String::new());
    u.openrouter_base_url = Some(String::new());
    u.deepseek_api_key = Some(String::new());
    u.zai_api_key = Some(String::new());
    u.crof_api_key = Some(String::new());
    u.minimax_api_key = Some(String::new());
    u.moonshot_api_key = Some(String::new());
    u.venice_api_key = Some(String::new());
    u.kimi_k2_api_key = Some(String::new());
    u.augment_cookie = Some(String::new());
    u.perplexity_cookie = Some(String::new());
    u.t3chat_cookie = Some(String::new());
    u.stepfun_cookie = Some(String::new());
    u.warp_api_key = Some(String::new());
    u.kimi_auth_token = Some(String::new());
    u.grok_cookie = Some(String::new());
    u.glm_api_key = Some(String::new());
    u.volcano_api_key = Some(String::new());
    u.groq_api_key = Some(String::new());
    u.mistral_cookie = Some(String::new());
    u.deepgram_api_key = Some(String::new());
    u.elevenlabs_api_key = Some(String::new());
    u.kilo_api_key = Some(String::new());
    u.alibaba_api_key = Some(String::new());
    u.openai_admin_key = Some(String::new());
    u.codebuff_api_key = Some(String::new());
    u.manus_cookie = Some(String::new());
    u.abacus_cookie = Some(String::new());
    let c = set_provider_creds(c, u);
    assert!(shown(&c).iter().all(|on| !*on));
    assert_eq!(c.openrouter_base_url, None);
}

#[test]
fn no_change_keeps_all() {
    let mut c = none();
    c.warp_api_key = Some("w".into());
    let c = set_provider_creds(c, no_change());
    assert_eq!(c.warp_api_key.as_deref(), Some("w"));
    assert_eq!(shown(&c).iter().filter(|on| **on).count(), 1);
}

#[test]
fn an_empty_credential_is_not_set() {
    let mut c = none();
    c.copilot_token = Some(String::new());
    c.openrouter_base_url = Some("https://x".into());
    let v = build_provider_creds_view(&c, &vec![], Backend::File);
    assert!(!v.copilot_token_set);
    assert_eq!(v.openrouter_base_url.as_deref(), Some("https://x"));
    assert_eq!(v.storage_backend, Backend::File);
}

#[test]
fn the_environment_overrides_by_name() {
    let expected: Vec<(&str, usize)> = vec![
        ("CURSOR_COOKIE", 0),
        ("COPILOT_API_TOKEN", 1),
        ("OPENROUTER_API_KEY", 2),
        ("OPENROUTER_API_URL", 3),
        ("DEEPSEEK_API_KEY", 4),
        ("DEEPSEEK_KEY", 4),
        ("Z_AI_API_KEY", 5),
        ("CROF_API_KEY", 6),
        ("MINIMAX_API_KEY", 7),
        ("MOONSHOT_API_KEY", 8),
        ("VENICE_API_KEY", 9),
        ("VENICE_KEY", 9),
        ("KIMI_K2_API_KEY", 10),
        ("KIMI_API_KEY", 10),
        ("KIMI_KEY", 10),
        ("AUGMENT_COOKIE", 11),
        ("PERPLEXITY_SESSION_TOKEN", 12),
        ("PERPLEXITY_COOKIE", 12),
        ("T3CHAT_COOKIE", 13),
        ("STEPFUN_COOKIE", 14),
        ("STEPFUN_OASIS_TOKEN", 14),
        ("WARP_API_KEY", 15),
        ("WARP_TOKEN", 15),
        ("KIMI_AUTH_TOKEN", 16),
        ("GROK_COOKIE", 17),
        ("GROK_TOKEN", 17),
        ("GLM_API_KEY", 18),
        ("ZHIPU_API_KEY", 18),
        ("CHATGLM_API_KEY", 18),
        ("ARK_API_KEY", 19),
        ("VOLC_ACCESSKEY", 19),
        ("VOLCANO_ENGINE_API_KEY", 19),
        ("GROQ_API_KEY", 20),
        ("MISTRAL_COOKIE", 21),
        ("MISTRAL_SESSION_TOKEN", 21),
        ("DEEPGRAM_API_KEY", 22),
        ("ELEVENLABS_API_KEY", 23),
        ("XI_API_KEY", 23),
        ("KILO_API_KEY", 24),
        ("ALIBABA_CODING_PLAN_API_KEY", 25),
        ("OPENAI_ADMIN_KEY", 26),
        ("CODEBUFF_API_KEY", 27),
        ("MANUS_SESSION_TOKEN", 28),
        ("MANUS_SESSION_ID", 28),
        ("MANUS_COOKIE", 28),
        ("ABACUS_COOKIE", 29),
        ("ABACUS_SESSION_TOKEN", 29),
    ];
    let listed: Vec<&str> = expected.iter().map(|(name, _)| *name).collect();
    assert_eq!(override_variables(), listed);
    for (name, position) in expected {
        assert_eq!(overridden(name), vec![position], "{name}");
    }
    assert!(overridden("PATH").is_empty());
}

#[test]
fn an_empty_variable_overrides_nothing() {
    let env = vec![var("A", ""), var("B", "b")];
    assert!(!env_set(&env, "A"));
    assert!(env_set(&env, "B"));
    assert!(!env_set(&env, "C"));
}

fn change() -> CredsStep {
    let mut update = no_change();
    update.warp_api_key = Some("w".into());
    CredsStep::Load { update }
}

#[test]
fn a_change_is_kept_before_it_is_told() {
    let s = change().step(CredsEvent::Loaded(Ok(none())));
    match &s {
        CredsStep::Save { creds } => assert_eq!(creds.warp_api_key.as_deref(), Some("w")),
        _ => panic!("not saved"),
    }
    let s = s.step(CredsEvent::Announced);
    assert!(matches!(s, CredsStep::Save { .. }), "told of too early");
    let s = s.step(CredsEvent::Saved(Ok(())));
    assert!(matches!(s, CredsStep::Announce { .. }));
    let s = s.step(CredsEvent::Announced);
    let looked = CredsEvent::Looked { env: vec![var("WARP_TOKEN", "t")], backend: Backend::File };
    match s.step(looked) {
        CredsStep::Done(Ok(v)) => {
            assert!(v.warp_api_key_set && v.env_override_warp && !v.env_override_grok);
            assert_eq!(v.storage_backend, Backend::File);
        }
        _ => panic!("not done"),
    }
}

#[test]
fn a_change_that_is_not_kept_is_not_told() {
    match change().step(CredsEvent::Loaded(Err("unreadable".into()))) {
        CredsStep::Done(Err(e)) => assert_eq!(e, "unreadable"),
        _ => panic!("went on"),
    }
    let s = change().step(CredsEvent::Loaded(Ok(none())));
    match s.step(CredsEvent::Saved(Err("full".into()))) {
        CredsStep::Done(Err(e)) => assert_eq!(e, "full"),
        _ => panic!("went on"),
    }
}

#[test]
fn other_variables_do_not_show() {
    let listed = vec![var("GROK_TOKEN", "g"), var("XI_API_KEY", "")];
    let mut more = vec![var("PATH", "/bin"), var("LANG", "C")];
    more.push(var("GROK_TOKEN", "other"));
    let a = build_provider_creds_view(&none(), &listed, Backend::File);
    let b = build_provider_creds_view(&none(), &more, Backend::File);
    assert!(a.env_override_grok && b.env_override_grok);
    assert!(!a.env_override_elevenlabs && !b.env_override_elevenlabs);
}
