//! The credentials of the providers: what is kept, what the settings show, and how they change.

use crate::device::Backend;
use crate::text;
use vstd::prelude::*;
use vstd::string::*;

verus! {

/// The credentials that are kept. The address of OpenRouter's interface is no secret; all others
/// are.
pub struct ProviderCreds {
    pub cursor_cookie: Option<String>,
    pub copilot_token: Option<String>,
    pub openrouter_api_key: Option<String>,
    pub openrouter_base_url: Option<String>,
    pub deepseek_api_key: Option<String>,
    pub zai_api_key: Option<String>,
    pub crof_api_key: Option<String>,
    pub minimax_api_key: Option<String>,
    pub moonshot_api_key: Option<String>,
    pub venice_api_key: Option<String>,
    pub kimi_k2_api_key: Option<String>,
    pub augment_cookie: Option<String>,
    pub perplexity_cookie: Option<String>,
    pub t3chat_cookie: Option<String>,
    pub stepfun_cookie: Option<String>,
    pub warp_api_key: Option<String>,
    pub kimi_auth_token: Option<String>,
    pub grok_cookie: Option<String>,
    pub glm_api_key: Option<String>,
    pub volcano_api_key: Option<String>,
    pub groq_api_key: Option<String>,
    pub mistral_cookie: Option<String>,
    pub deepgram_api_key: Option<String>,
    pub elevenlabs_api_key: Option<String>,
    pub kilo_api_key: Option<String>,
    pub alibaba_api_key: Option<String>,
    pub openai_admin_key: Option<String>,
    pub codebuff_api_key: Option<String>,
    pub manus_cookie: Option<String>,
    pub abacus_cookie: Option<String>,
}

/// A change to the credentials: a field that is absent stays, an empty one is cleared, any other is
/// set.
pub struct ProviderCredsUpdate {
    pub cursor_cookie: Option<String>,
    pub copilot_token: Option<String>,
    pub openrouter_api_key: Option<String>,
    pub openrouter_base_url: Option<String>,
    pub deepseek_api_key: Option<String>,
    pub zai_api_key: Option<String>,
    pub crof_api_key: Option<String>,
    pub minimax_api_key: Option<String>,
    pub moonshot_api_key: Option<String>,
    pub venice_api_key: Option<String>,
    pub kimi_k2_api_key: Option<String>,
    pub augment_cookie: Option<String>,
    pub perplexity_cookie: Option<String>,
    pub t3chat_cookie: Option<String>,
    pub stepfun_cookie: Option<String>,
    pub warp_api_key: Option<String>,
    pub kimi_auth_token: Option<String>,
    pub grok_cookie: Option<String>,
    pub glm_api_key: Option<String>,
    pub volcano_api_key: Option<String>,
    pub groq_api_key: Option<String>,
    pub mistral_cookie: Option<String>,
    pub deepgram_api_key: Option<String>,
    pub elevenlabs_api_key: Option<String>,
    pub kilo_api_key: Option<String>,
    pub alibaba_api_key: Option<String>,
    pub openai_admin_key: Option<String>,
    pub codebuff_api_key: Option<String>,
    pub manus_cookie: Option<String>,
    pub abacus_cookie: Option<String>,
}

/// What the settings show of the credentials: which are set, which the environment overrides, where
/// they are kept, and the one that is no secret.
pub struct ProviderCredsView {
    pub cursor_cookie_set: bool,
    pub copilot_token_set: bool,
    pub openrouter_api_key_set: bool,
    pub deepseek_api_key_set: bool,
    pub zai_api_key_set: bool,
    pub crof_api_key_set: bool,
    pub minimax_api_key_set: bool,
    pub moonshot_api_key_set: bool,
    pub venice_api_key_set: bool,
    pub kimi_k2_api_key_set: bool,
    pub augment_cookie_set: bool,
    pub perplexity_cookie_set: bool,
    pub t3chat_cookie_set: bool,
    pub stepfun_cookie_set: bool,
    pub warp_api_key_set: bool,
    pub kimi_auth_token_set: bool,
    pub grok_cookie_set: bool,
    pub glm_api_key_set: bool,
    pub volcano_api_key_set: bool,
    pub groq_api_key_set: bool,
    pub mistral_cookie_set: bool,
    pub deepgram_api_key_set: bool,
    pub elevenlabs_api_key_set: bool,
    pub kilo_api_key_set: bool,
    pub alibaba_api_key_set: bool,
    pub openai_admin_key_set: bool,
    pub codebuff_api_key_set: bool,
    pub manus_cookie_set: bool,
    pub abacus_cookie_set: bool,
    pub openrouter_base_url: Option<String>,
    pub env_override_cursor: bool,
    pub env_override_copilot: bool,
    pub env_override_openrouter_key: bool,
    pub env_override_openrouter_url: bool,
    pub env_override_deepseek: bool,
    pub env_override_zai: bool,
    pub env_override_crof: bool,
    pub env_override_minimax: bool,
    pub env_override_moonshot: bool,
    pub env_override_venice: bool,
    pub env_override_kimi_k2: bool,
    pub env_override_augment: bool,
    pub env_override_perplexity: bool,
    pub env_override_t3chat: bool,
    pub env_override_stepfun: bool,
    pub env_override_warp: bool,
    pub env_override_kimi: bool,
    pub env_override_grok: bool,
    pub env_override_glm: bool,
    pub env_override_volcano: bool,
    pub env_override_groq: bool,
    pub env_override_mistral: bool,
    pub env_override_deepgram: bool,
    pub env_override_elevenlabs: bool,
    pub env_override_kilo: bool,
    pub env_override_alibaba: bool,
    pub env_override_openai_admin: bool,
    pub env_override_codebuff: bool,
    pub env_override_manus: bool,
    pub env_override_abacus: bool,
    pub storage_backend: Backend,
}

/// A variable of the environment.
pub struct EnvVar {
    pub name: String,
    pub value: String,
}

/// The credential is set and not empty.
pub open spec fn is_set(c: Option<String>) -> bool {
    c is Some && c->0@.len() > 0
}

/// The environment gives the variable a value that is not empty.
pub open spec fn env_set_in(env: Seq<EnvVar>, name: Seq<char>) -> bool {
    exists|i: int| 0 <= i < env.len() && #[trigger] env[i].name@ == name && env[i].value@.len() > 0
}

/// One field after a change.
pub open spec fn merged(kept: Option<String>, update: Option<String>) -> Option<String> {
    match update {
        None => kept,
        Some(v) => if v@.len() == 0 {
            None
        } else {
            Some(v)
        },
    }
}

/// The credentials after a change, field by field.
pub open spec fn all_merged(c: ProviderCreds, u: ProviderCredsUpdate) -> ProviderCreds {
    ProviderCreds {
        cursor_cookie: merged(c.cursor_cookie, u.cursor_cookie),
        copilot_token: merged(c.copilot_token, u.copilot_token),
        openrouter_api_key: merged(c.openrouter_api_key, u.openrouter_api_key),
        openrouter_base_url: merged(c.openrouter_base_url, u.openrouter_base_url),
        deepseek_api_key: merged(c.deepseek_api_key, u.deepseek_api_key),
        zai_api_key: merged(c.zai_api_key, u.zai_api_key),
        crof_api_key: merged(c.crof_api_key, u.crof_api_key),
        minimax_api_key: merged(c.minimax_api_key, u.minimax_api_key),
        moonshot_api_key: merged(c.moonshot_api_key, u.moonshot_api_key),
        venice_api_key: merged(c.venice_api_key, u.venice_api_key),
        kimi_k2_api_key: merged(c.kimi_k2_api_key, u.kimi_k2_api_key),
        augment_cookie: merged(c.augment_cookie, u.augment_cookie),
        perplexity_cookie: merged(c.perplexity_cookie, u.perplexity_cookie),
        t3chat_cookie: merged(c.t3chat_cookie, u.t3chat_cookie),
        stepfun_cookie: merged(c.stepfun_cookie, u.stepfun_cookie),
        warp_api_key: merged(c.warp_api_key, u.warp_api_key),
        kimi_auth_token: merged(c.kimi_auth_token, u.kimi_auth_token),
        grok_cookie: merged(c.grok_cookie, u.grok_cookie),
        glm_api_key: merged(c.glm_api_key, u.glm_api_key),
        volcano_api_key: merged(c.volcano_api_key, u.volcano_api_key),
        groq_api_key: merged(c.groq_api_key, u.groq_api_key),
        mistral_cookie: merged(c.mistral_cookie, u.mistral_cookie),
        deepgram_api_key: merged(c.deepgram_api_key, u.deepgram_api_key),
        elevenlabs_api_key: merged(c.elevenlabs_api_key, u.elevenlabs_api_key),
        kilo_api_key: merged(c.kilo_api_key, u.kilo_api_key),
        alibaba_api_key: merged(c.alibaba_api_key, u.alibaba_api_key),
        openai_admin_key: merged(c.openai_admin_key, u.openai_admin_key),
        codebuff_api_key: merged(c.codebuff_api_key, u.codebuff_api_key),
        manus_cookie: merged(c.manus_cookie, u.manus_cookie),
        abacus_cookie: merged(c.abacus_cookie, u.abacus_cookie),
    }
}

/// What the settings show of credentials in an environment.
pub open spec fn view_of(c: ProviderCreds, env: Seq<EnvVar>, backend: Backend) -> ProviderCredsView {
    ProviderCredsView {
        cursor_cookie_set: is_set(c.cursor_cookie),
        copilot_token_set: is_set(c.copilot_token),
        openrouter_api_key_set: is_set(c.openrouter_api_key),
        deepseek_api_key_set: is_set(c.deepseek_api_key),
        zai_api_key_set: is_set(c.zai_api_key),
        crof_api_key_set: is_set(c.crof_api_key),
        minimax_api_key_set: is_set(c.minimax_api_key),
        moonshot_api_key_set: is_set(c.moonshot_api_key),
        venice_api_key_set: is_set(c.venice_api_key),
        kimi_k2_api_key_set: is_set(c.kimi_k2_api_key),
        augment_cookie_set: is_set(c.augment_cookie),
        perplexity_cookie_set: is_set(c.perplexity_cookie),
        t3chat_cookie_set: is_set(c.t3chat_cookie),
        stepfun_cookie_set: is_set(c.stepfun_cookie),
        warp_api_key_set: is_set(c.warp_api_key),
        kimi_auth_token_set: is_set(c.kimi_auth_token),
        grok_cookie_set: is_set(c.grok_cookie),
        glm_api_key_set: is_set(c.glm_api_key),
        volcano_api_key_set: is_set(c.volcano_api_key),
        groq_api_key_set: is_set(c.groq_api_key),
        mistral_cookie_set: is_set(c.mistral_cookie),
        deepgram_api_key_set: is_set(c.deepgram_api_key),
        elevenlabs_api_key_set: is_set(c.elevenlabs_api_key),
        kilo_api_key_set: is_set(c.kilo_api_key),
        alibaba_api_key_set: is_set(c.alibaba_api_key),
        openai_admin_key_set: is_set(c.openai_admin_key),
        codebuff_api_key_set: is_set(c.codebuff_api_key),
        manus_cookie_set: is_set(c.manus_cookie),
        abacus_cookie_set: is_set(c.abacus_cookie),
        openrouter_base_url: c.openrouter_base_url,
        env_override_cursor: env_set_in(env, "CURSOR_COOKIE"@),
        env_override_copilot: env_set_in(env, "COPILOT_API_TOKEN"@),
        env_override_openrouter_key: env_set_in(env, "OPENROUTER_API_KEY"@),
        env_override_openrouter_url: env_set_in(env, "OPENROUTER_API_URL"@),
        env_override_deepseek: env_set_in(env, "DEEPSEEK_API_KEY"@)
            || env_set_in(env, "DEEPSEEK_KEY"@),
        env_override_zai: env_set_in(env, "Z_AI_API_KEY"@),
        env_override_crof: env_set_in(env, "CROF_API_KEY"@),
        env_override_minimax: env_set_in(env, "MINIMAX_API_KEY"@),
        env_override_moonshot: env_set_in(env, "MOONSHOT_API_KEY"@),
        env_override_venice: env_set_in(env, "VENICE_API_KEY"@) || env_set_in(env, "VENICE_KEY"@),
        env_override_kimi_k2: env_set_in(env, "KIMI_K2_API_KEY"@)
            || env_set_in(env, "KIMI_API_KEY"@)
            || env_set_in(env, "KIMI_KEY"@),
        env_override_augment: env_set_in(env, "AUGMENT_COOKIE"@),
        env_override_perplexity: env_set_in(env, "PERPLEXITY_SESSION_TOKEN"@)
            || env_set_in(env, "PERPLEXITY_COOKIE"@),
        env_override_t3chat: env_set_in(env, "T3CHAT_COOKIE"@),
        env_override_stepfun: env_set_in(env, "STEPFUN_COOKIE"@)
            || env_set_in(env, "STEPFUN_OASIS_TOKEN"@),
        env_override_warp: env_set_in(env, "WARP_API_KEY"@) || env_set_in(env, "WARP_TOKEN"@),
        env_override_kimi: env_set_in(env, "KIMI_AUTH_TOKEN"@),
        env_override_grok: env_set_in(env, "GROK_COOKIE"@) || env_set_in(env, "GROK_TOKEN"@),
        env_override_glm: env_set_in(env, "GLM_API_KEY"@)
            || env_set_in(env, "ZHIPU_API_KEY"@)
            || env_set_in(env, "CHATGLM_API_KEY"@),
        env_override_volcano: env_set_in(env, "ARK_API_KEY"@)
            || env_set_in(env, "VOLC_ACCESSKEY"@)
            || env_set_in(env, "VOLCANO_ENGINE_API_KEY"@),
        env_override_groq: env_set_in(env, "GROQ_API_KEY"@),
        env_override_mistral: env_set_in(env, "MISTRAL_COOKIE"@)
            || env_set_in(env, "MISTRAL_SESSION_TOKEN"@),
        env_override_deepgram: env_set_in(env, "DEEPGRAM_API_KEY"@),
        env_override_elevenlabs: env_set_in(env, "ELEVENLABS_API_KEY"@)
            || env_set_in(env, "XI_API_KEY"@),
        env_override_kilo: env_set_in(env, "KILO_API_KEY"@),
        env_override_alibaba: env_set_in(env, "ALIBABA_CODING_PLAN_API_KEY"@),
        env_override_openai_admin: env_set_in(env, "OPENAI_ADMIN_KEY"@),
        env_override_codebuff: env_set_in(env, "CODEBUFF_API_KEY"@),
        env_override_manus: env_set_in(env, "MANUS_SESSION_TOKEN"@)
            || env_set_in(env, "MANUS_SESSION_ID"@)
            || env_set_in(env, "MANUS_COOKIE"@),
        env_override_abacus: env_set_in(env, "ABACUS_COOKIE"@)
            || env_set_in(env, "ABACUS_SESSION_TOKEN"@),
        storage_backend: backend,
    }
}

fn has_value(c: &Option<String>) -> (r: bool)
    ensures
        r == is_set(*c),
{
    match c {
        Some(v) => v.as_str().unicode_len() > 0,
        None => false,
    }
}

/// Whether the environment gives the variable a value that is not empty.
pub fn env_set(env: &Vec<EnvVar>, name: &str) -> (r: bool)
    ensures
        r == env_set_in(env@, name@),
{
    let mut i: usize = 0;
    while i < env.len()
        invariant
            i <= env@.len(),
            forall|k: int|
                0 <= k < i ==> !(#[trigger] env@[k].name@ == name@ && env@[k].value@.len() > 0),
        decreases env@.len() - i,
    {
        if text::same(env[i].name.as_str(), name) && env[i].value.as_str().unicode_len() > 0 {
            assert(env@[i as int].name@ == name@);
            return true;
        }
        i = i + 1;
    }
    false
}

/// The variables of the environment that override credentials.
pub open spec fn override_names() -> Seq<Seq<char>> {
    seq![
        "CURSOR_COOKIE"@,
        "COPILOT_API_TOKEN"@,
        "OPENROUTER_API_KEY"@,
        "OPENROUTER_API_URL"@,
        "DEEPSEEK_API_KEY"@,
        "DEEPSEEK_KEY"@,
        "Z_AI_API_KEY"@,
        "CROF_API_KEY"@,
        "MINIMAX_API_KEY"@,
        "MOONSHOT_API_KEY"@,
        "VENICE_API_KEY"@,
        "VENICE_KEY"@,
        "KIMI_K2_API_KEY"@,
        "KIMI_API_KEY"@,
        "KIMI_KEY"@,
        "AUGMENT_COOKIE"@,
        "PERPLEXITY_SESSION_TOKEN"@,
        "PERPLEXITY_COOKIE"@,
        "T3CHAT_COOKIE"@,
        "STEPFUN_COOKIE"@,
        "STEPFUN_OASIS_TOKEN"@,
        "WARP_API_KEY"@,
        "WARP_TOKEN"@,
        "KIMI_AUTH_TOKEN"@,
        "GROK_COOKIE"@,
        "GROK_TOKEN"@,
        "GLM_API_KEY"@,
        "ZHIPU_API_KEY"@,
        "CHATGLM_API_KEY"@,
        "ARK_API_KEY"@,
        "VOLC_ACCESSKEY"@,
        "VOLCANO_ENGINE_API_KEY"@,
        "GROQ_API_KEY"@,
        "MISTRAL_COOKIE"@,
        "MISTRAL_SESSION_TOKEN"@,
        "DEEPGRAM_API_KEY"@,
        "ELEVENLABS_API_KEY"@,
        "XI_API_KEY"@,
        "KILO_API_KEY"@,
        "ALIBABA_CODING_PLAN_API_KEY"@,
        "OPENAI_ADMIN_KEY"@,
        "CODEBUFF_API_KEY"@,
        "MANUS_SESSION_TOKEN"@,
        "MANUS_SESSION_ID"@,
        "MANUS_COOKIE"@,
        "ABACUS_COOKIE"@,
        "ABACUS_SESSION_TOKEN"@,
    ]
}

/// The texts of a list.
pub open spec fn texts(v: Seq<&'static str>) -> Seq<Seq<char>> {
    v.map_values(|t: &'static str| t@)
}

/// The variables of the environment that override credentials, to be looked up.
pub fn override_variables() -> (r: Vec<&'static str>)
    ensures
        texts(r@) == override_names(),
{
    let r = vec![
        "CURSOR_COOKIE",
        "COPILOT_API_TOKEN",
        "OPENROUTER_API_KEY",
        "OPENROUTER_API_URL",
        "DEEPSEEK_API_KEY",
        "DEEPSEEK_KEY",
        "Z_AI_API_KEY",
        "CROF_API_KEY",
        "MINIMAX_API_KEY",
        "MOONSHOT_API_KEY",
        "VENICE_API_KEY",
        "VENICE_KEY",
        "KIMI_K2_API_KEY",
        "KIMI_API_KEY",
        "KIMI_KEY",
        "AUGMENT_COOKIE",
        "PERPLEXITY_SESSION_TOKEN",
        "PERPLEXITY_COOKIE",
        "T3CHAT_COOKIE",
        "STEPFUN_COOKIE",
        "STEPFUN_OASIS_TOKEN",
        "WARP_API_KEY",
        "WARP_TOKEN",
        "KIMI_AUTH_TOKEN",
        "GROK_COOKIE",
        "GROK_TOKEN",
        "GLM_API_KEY",
        "ZHIPU_API_KEY",
        "CHATGLM_API_KEY",
        "ARK_API_KEY",
        "VOLC_ACCESSKEY",
        "VOLCANO_ENGINE_API_KEY",
        "GROQ_API_KEY",
        "MISTRAL_COOKIE",
        "MISTRAL_SESSION_TOKEN",
        "DEEPGRAM_API_KEY",
        "ELEVENLABS_API_KEY",
        "XI_API_KEY",
        "KILO_API_KEY",
        "ALIBABA_CODING_PLAN_API_KEY",
        "OPENAI_ADMIN_KEY",
        "CODEBUFF_API_KEY",
        "MANUS_SESSION_TOKEN",
        "MANUS_SESSION_ID",
        "MANUS_COOKIE",
        "ABACUS_COOKIE",
        "ABACUS_SESSION_TOKEN",
    ];
    assert(texts(r@) =~= override_names());
    r
}

/// What the settings show of credentials in an environment.
pub fn build_provider_creds_view(c: &ProviderCreds, env: &Vec<EnvVar>, backend: Backend) -> (r:
    ProviderCredsView)
    ensures
        r == view_of(*c, env@, backend),
{
    ProviderCredsView {
        cursor_cookie_set: has_value(&c.cursor_cookie),
        copilot_token_set: has_value(&c.copilot_token),
        openrouter_api_key_set: has_value(&c.openrouter_api_key),
        deepseek_api_key_set: has_value(&c.deepseek_api_key),
        zai_api_key_set: has_value(&c.zai_api_key),
        crof_api_key_set: has_value(&c.crof_api_key),
        minimax_api_key_set: has_value(&c.minimax_api_key),
        moonshot_api_key_set: has_value(&c.moonshot_api_key),
        venice_api_key_set: has_value(&c.venice_api_key),
        kimi_k2_api_key_set: has_value(&c.kimi_k2_api_key),
        augment_cookie_set: has_value(&c.augment_cookie),
        perplexity_cookie_set: has_value(&c.perplexity_cookie),
        t3chat_cookie_set: has_value(&c.t3chat_cookie),
        stepfun_cookie_set: has_value(&c.stepfun_cookie),
        warp_api_key_set: has_value(&c.warp_api_key),
        kimi_auth_token_set: has_value(&c.kimi_auth_token),
        grok_cookie_set: has_value(&c.grok_cookie),
        glm_api_key_set: has_value(&c.glm_api_key),
        volcano_api_key_set: has_value(&c.volcano_api_key),
        groq_api_key_set: has_value(&c.groq_api_key),
        mistral_cookie_set: has_value(&c.mistral_cookie),
        deepgram_api_key_set: has_value(&c.deepgram_api_key),
        elevenlabs_api_key_set: has_value(&c.elevenlabs_api_key),
        kilo_api_key_set: has_value(&c.kilo_api_key),
        alibaba_api_key_set: has_value(&c.alibaba_api_key),
        openai_admin_key_set: has_value(&c.openai_admin_key),
        codebuff_api_key_set: has_value(&c.codebuff_api_key),
        manus_cookie_set: has_value(&c.manus_cookie),
        abacus_cookie_set: has_value(&c.abacus_cookie),
        openrouter_base_url: text::copy_opt(&c.openrouter_base_url),
        env_override_cursor: env_set(env, "CURSOR_COOKIE"),
        env_override_copilot: env_set(env, "COPILOT_API_TOKEN"),
        env_override_openrouter_key: env_set(env, "OPENROUTER_API_KEY"),
        env_override_openrouter_url: env_set(env, "OPENROUTER_API_URL"),
        env_override_deepseek: env_set(env, "DEEPSEEK_API_KEY") || env_set(env, "DEEPSEEK_KEY"),
        env_override_zai: env_set(env, "Z_AI_API_KEY"),
        env_override_crof: env_set(env, "CROF_API_KEY"),
        env_override_minimax: env_set(env, "MINIMAX_API_KEY"),
        env_override_moonshot: env_set(env, "MOONSHOT_API_KEY"),
        env_override_venice: env_set(env, "VENICE_API_KEY") || env_set(env, "VENICE_KEY"),
        env_override_kimi_k2: env_set(env, "KIMI_K2_API_KEY")
            || env_set(env, "KIMI_API_KEY")
            || env_set(env, "KIMI_KEY"),
        env_override_augment: env_set(env, "AUGMENT_COOKIE"),
        env_override_perplexity: env_set(env, "PERPLEXITY_SESSION_TOKEN")
            || env_set(env, "PERPLEXITY_COOKIE"),
        env_override_t3chat: env_set(env, "T3CHAT_COOKIE"),
        env_override_stepfun: env_set(env, "STEPFUN_COOKIE") || env_set(env, "STEPFUN_OASIS_TOKEN"),
        env_override_warp: env_set(env, "WARP_API_KEY") || env_set(env, "WARP_TOKEN"),
        env_override_kimi: env_set(env, "KIMI_AUTH_TOKEN"),
        env_override_grok: env_set(env, "GROK_COOKIE") || env_set(env, "GROK_TOKEN"),
        env_override_glm: env_set(env, "GLM_API_KEY")
            || env_set(env, "ZHIPU_API_KEY")
            || env_set(env, "CHATGLM_API_KEY"),
        env_override_volcano: env_set(env, "ARK_API_KEY")
            || env_set(env, "VOLC_ACCESSKEY")
            || env_set(env, "VOLCANO_ENGINE_API_KEY"),
        env_override_groq: env_set(env, "GROQ_API_KEY"),
        env_override_mistral: env_set(env, "MISTRAL_COOKIE")
            || env_set(env, "MISTRAL_SESSION_TOKEN"),
        env_override_deepgram: env_set(env, "DEEPGRAM_API_KEY"),
        env_override_elevenlabs: env_set(env, "ELEVENLABS_API_KEY") || env_set(env, "XI_API_KEY"),
        env_override_kilo: env_set(env, "KILO_API_KEY"),
        env_override_alibaba: env_set(env, "ALIBABA_CODING_PLAN_API_KEY"),
        env_override_openai_admin: env_set(env, "OPENAI_ADMIN_KEY"),
        env_override_codebuff: env_set(env, "CODEBUFF_API_KEY"),
        env_override_manus: env_set(env, "MANUS_SESSION_TOKEN")
            || env_set(env, "MANUS_SESSION_ID")
            || env_set(env, "MANUS_COOKIE"),
        env_override_abacus: env_set(env, "ABACUS_COOKIE") || env_set(env, "ABACUS_SESSION_TOKEN"),
        storage_backend: backend,
    }
}

fn merge(kept: Option<String>, update: Option<String>) -> (r: Option<String>)
    ensures
        r == merged(kept, update),
{
    match update {
        None => kept,
        Some(v) => {
            if v.as_str().unicode_len() == 0 {
                None
            } else {
                Some(v)
            }
        },
    }
}

/// The credentials after a change, to be kept.
pub fn set_provider_creds(c: ProviderCreds, u: ProviderCredsUpdate) -> (r: ProviderCreds)
    ensures
        r == all_merged(c, u),
{
    ProviderCreds {
        cursor_cookie: merge(c.cursor_cookie, u.cursor_cookie),
        copilot_token: merge(c.copilot_token, u.copilot_token),
        openrouter_api_key: merge(c.openrouter_api_key, u.openrouter_api_key),
        openrouter_base_url: merge(c.openrouter_base_url, u.openrouter_base_url),
        deepseek_api_key: merge(c.deepseek_api_key, u.deepseek_api_key),
        zai_api_key: merge(c.zai_api_key, u.zai_api_key),
        crof_api_key: merge(c.crof_api_key, u.crof_api_key),
        minimax_api_key: merge(c.minimax_api_key, u.minimax_api_key),
        moonshot_api_key: merge(c.moonshot_api_key, u.moonshot_api_key),
        venice_api_key: merge(c.venice_api_key, u.venice_api_key),
        kimi_k2_api_key: merge(c.kimi_k2_api_key, u.kimi_k2_api_key),
        augment_cookie: merge(c.augment_cookie, u.augment_cookie),
        perplexity_cookie: merge(c.perplexity_cookie, u.perplexity_cookie),
        t3chat_cookie: merge(c.t3chat_cookie, u.t3chat_cookie),
        stepfun_cookie: merge(c.stepfun_cookie, u.stepfun_cookie),
        warp_api_key: merge(c.warp_api_key, u.warp_api_key),
        kimi_auth_token: merge(c.kimi_auth_token, u.kimi_auth_token),
        grok_cookie: merge(c.grok_cookie, u.grok_cookie),
        glm_api_key: merge(c.glm_api_key, u.glm_api_key),
        volcano_api_key: merge(c.volcano_api_key, u.volcano_api_key),
        groq_api_key: merge(c.groq_api_key, u.groq_api_key),
        mistral_cookie: merge(c.mistral_cookie, u.mistral_cookie),
        deepgram_api_key: merge(c.deepgram_api_key, u.deepgram_api_key),
        elevenlabs_api_key: merge(c.elevenlabs_api_key, u.elevenlabs_api_key),
        kilo_api_key: merge(c.kilo_api_key, u.kilo_api_key),
        alibaba_api_key: merge(c.alibaba_api_key, u.alibaba_api_key),
        openai_admin_key: merge(c.openai_admin_key, u.openai_admin_key),
        codebuff_api_key: merge(c.codebuff_api_key, u.codebuff_api_key),
        manus_cookie: merge(c.manus_cookie, u.manus_cookie),
        abacus_cookie: merge(c.abacus_cookie, u.abacus_cookie),
    }
}

/// The change names no field.
pub open spec fn is_no_change(u: ProviderCredsUpdate) -> bool {
    &&& u.cursor_cookie is None
    &&& u.copilot_token is None
    &&& u.openrouter_api_key is None
    &&& u.openrouter_base_url is None
    &&& u.deepseek_api_key is None
    &&& u.zai_api_key is None
    &&& u.crof_api_key is None
    &&& u.minimax_api_key is None
    &&& u.moonshot_api_key is None
    &&& u.venice_api_key is None
    &&& u.kimi_k2_api_key is None
    &&& u.augment_cookie is None
    &&& u.perplexity_cookie is None
    &&& u.t3chat_cookie is None
    &&& u.stepfun_cookie is None
    &&& u.warp_api_key is None
    &&& u.kimi_auth_token is None
    &&& u.grok_cookie is None
    &&& u.glm_api_key is None
    &&& u.volcano_api_key is None
    &&& u.groq_api_key is None
    &&& u.mistral_cookie is None
    &&& u.deepgram_api_key is None
    &&& u.elevenlabs_api_key is None
    &&& u.kilo_api_key is None
    &&& u.alibaba_api_key is None
    &&& u.openai_admin_key is None
    &&& u.codebuff_api_key is None
    &&& u.manus_cookie is None
    &&& u.abacus_cookie is None
}

/// A change that names no field leaves the credentials as they are.
pub proof fn lemma_no_change_keeps_all(c: ProviderCreds, u: ProviderCredsUpdate)
    requires
        is_no_change(u),
    ensures
        all_merged(c, u) == c,
{
}

proof fn lemma_field_is_kept(kept: Option<String>, update: Option<String>)
    ensures
        merged(merged(kept, update), update) == merged(kept, update),
{
}

/// The same change once more changes nothing.
pub proof fn lemma_change_is_idempotent(c: ProviderCreds, u: ProviderCredsUpdate)
    ensures
        all_merged(all_merged(c, u), u) == all_merged(c, u),
{
    lemma_field_is_kept(c.cursor_cookie, u.cursor_cookie);
    lemma_field_is_kept(c.copilot_token, u.copilot_token);
    lemma_field_is_kept(c.openrouter_api_key, u.openrouter_api_key);
    lemma_field_is_kept(c.openrouter_base_url, u.openrouter_base_url);
    lemma_field_is_kept(c.deepseek_api_key, u.deepseek_api_key);
    lemma_field_is_kept(c.zai_api_key, u.zai_api_key);
    lemma_field_is_kept(c.crof_api_key, u.crof_api_key);
    lemma_field_is_kept(c.minimax_api_key, u.minimax_api_key);
    lemma_field_is_kept(c.moonshot_api_key, u.moonshot_api_key);
    lemma_field_is_kept(c.venice_api_key, u.venice_api_key);
    lemma_field_is_kept(c.kimi_k2_api_key, u.kimi_k2_api_key);
    lemma_field_is_kept(c.augment_cookie, u.augment_cookie);
    lemma_field_is_kept(c.perplexity_cookie, u.perplexity_cookie);
    lemma_field_is_kept(c.t3chat_cookie, u.t3chat_cookie);
    lemma_field_is_kept(c.stepfun_cookie, u.stepfun_cookie);
    lemma_field_is_kept(c.warp_api_key, u.warp_api_key);
    lemma_field_is_kept(c.kimi_auth_token, u.kimi_auth_token);
    lemma_field_is_kept(c.grok_cookie, u.grok_cookie);
    lemma_field_is_kept(c.glm_api_key, u.glm_api_key);
    lemma_field_is_kept(c.volcano_api_key, u.volcano_api_key);
    lemma_field_is_kept(c.groq_api_key, u.groq_api_key);
    lemma_field_is_kept(c.mistral_cookie, u.mistral_cookie);
    lemma_field_is_kept(c.deepgram_api_key, u.deepgram_api_key);
    lemma_field_is_kept(c.elevenlabs_api_key, u.elevenlabs_api_key);
    lemma_field_is_kept(c.kilo_api_key, u.kilo_api_key);
    lemma_field_is_kept(c.alibaba_api_key, u.alibaba_api_key);
    lemma_field_is_kept(c.openai_admin_key, u.openai_admin_key);
    lemma_field_is_kept(c.codebuff_api_key, u.codebuff_api_key);
    lemma_field_is_kept(c.manus_cookie, u.manus_cookie);
    lemma_field_is_kept(c.abacus_cookie, u.abacus_cookie);
}

/// A field after a change: left alone it shows as before, emptied it shows as not set, given a value
/// it shows as set.
pub proof fn lemma_change_shows(kept: Option<String>, update: Option<String>)
    ensures
        update is None ==> is_set(merged(kept, update)) == is_set(kept),
        update is Some ==> is_set(merged(kept, update)) == (update->0@.len() > 0),
{
}

/// The same credentials are set, whatever their values are.
pub open spec fn set_alike(a: ProviderCreds, b: ProviderCreds) -> bool {
    &&& is_set(a.cursor_cookie) == is_set(b.cursor_cookie)
    &&& is_set(a.copilot_token) == is_set(b.copilot_token)
    &&& is_set(a.openrouter_api_key) == is_set(b.openrouter_api_key)
    &&& is_set(a.deepseek_api_key) == is_set(b.deepseek_api_key)
    &&& is_set(a.zai_api_key) == is_set(b.zai_api_key)
    &&& is_set(a.crof_api_key) == is_set(b.crof_api_key)
    &&& is_set(a.minimax_api_key) == is_set(b.minimax_api_key)
    &&& is_set(a.moonshot_api_key) == is_set(b.moonshot_api_key)
    &&& is_set(a.venice_api_key) == is_set(b.venice_api_key)
    &&& is_set(a.kimi_k2_api_key) == is_set(b.kimi_k2_api_key)
    &&& is_set(a.augment_cookie) == is_set(b.augment_cookie)
    &&& is_set(a.perplexity_cookie) == is_set(b.perplexity_cookie)
    &&& is_set(a.t3chat_cookie) == is_set(b.t3chat_cookie)
    &&& is_set(a.stepfun_cookie) == is_set(b.stepfun_cookie)
    &&& is_set(a.warp_api_key) == is_set(b.warp_api_key)
    &&& is_set(a.kimi_auth_token) == is_set(b.kimi_auth_token)
    &&& is_set(a.grok_cookie) == is_set(b.grok_cookie)
    &&& is_set(a.glm_api_key) == is_set(b.glm_api_key)
    &&& is_set(a.volcano_api_key) == is_set(b.volcano_api_key)
    &&& is_set(a.groq_api_key) == is_set(b.groq_api_key)
    &&& is_set(a.mistral_cookie) == is_set(b.mistral_cookie)
    &&& is_set(a.deepgram_api_key) == is_set(b.deepgram_api_key)
    &&& is_set(a.elevenlabs_api_key) == is_set(b.elevenlabs_api_key)
    &&& is_set(a.kilo_api_key) == is_set(b.kilo_api_key)
    &&& is_set(a.alibaba_api_key) == is_set(b.alibaba_api_key)
    &&& is_set(a.openai_admin_key) == is_set(b.openai_admin_key)
    &&& is_set(a.codebuff_api_key) == is_set(b.codebuff_api_key)
    &&& is_set(a.manus_cookie) == is_set(b.manus_cookie)
    &&& is_set(a.abacus_cookie) == is_set(b.abacus_cookie)
}

/// The settings show of a secret no more than whether it is set.
pub proof fn lemma_view_hides_the_values(
    a: ProviderCreds,
    b: ProviderCreds,
    env: Seq<EnvVar>,
    backend: Backend,
)
    requires
        set_alike(a, b),
        a.openrouter_base_url == b.openrouter_base_url,
    ensures
        view_of(a, env, backend) == view_of(b, env, backend),
{
}

/// The two environments override the same credentials.
pub open spec fn override_alike(a: Seq<EnvVar>, b: Seq<EnvVar>) -> bool {
    forall|i: int|
        0 <= i < override_names().len() ==> env_set_in(a, #[trigger] override_names()[i])
            == env_set_in(b, override_names()[i])
}

/// Of the environment, the settings depend on the variables to be looked up alone.
pub proof fn lemma_view_rests_on_the_listed_variables(
    c: ProviderCreds,
    a: Seq<EnvVar>,
    b: Seq<EnvVar>,
    backend: Backend,
)
    requires
        override_alike(a, b),
    ensures
        view_of(c, a, backend) == view_of(c, b, backend),
{
    assert(override_names()[0] == "CURSOR_COOKIE"@);
    assert(override_names()[1] == "COPILOT_API_TOKEN"@);
    assert(override_names()[2] == "OPENROUTER_API_KEY"@);
    assert(override_names()[3] == "OPENROUTER_API_URL"@);
    assert(override_names()[4] == "DEEPSEEK_API_KEY"@);
    assert(override_names()[5] == "DEEPSEEK_KEY"@);
    assert(override_names()[6] == "Z_AI_API_KEY"@);
    assert(override_names()[7] == "CROF_API_KEY"@);
    assert(override_names()[8] == "MINIMAX_API_KEY"@);
    assert(override_names()[9] == "MOONSHOT_API_KEY"@);
    assert(override_names()[10] == "VENICE_API_KEY"@);
    assert(override_names()[11] == "VENICE_KEY"@);
    assert(override_names()[12] == "KIMI_K2_API_KEY"@);
    assert(override_names()[13] == "KIMI_API_KEY"@);
    assert(override_names()[14] == "KIMI_KEY"@);
    assert(override_names()[15] == "AUGMENT_COOKIE"@);
    assert(override_names()[16] == "PERPLEXITY_SESSION_TOKEN"@);
    assert(override_names()[17] == "PERPLEXITY_COOKIE"@);
    assert(override_names()[18] == "T3CHAT_COOKIE"@);
    assert(override_names()[19] == "STEPFUN_COOKIE"@);
    assert(override_names()[20] == "STEPFUN_OASIS_TOKEN"@);
    assert(override_names()[21] == "WARP_API_KEY"@);
    assert(override_names()[22] == "WARP_TOKEN"@);
    assert(override_names()[23] == "KIMI_AUTH_TOKEN"@);
    assert(override_names()[24] == "GROK_COOKIE"@);
    assert(override_names()[25] == "GROK_TOKEN"@);
    assert(override_names()[26] == "GLM_API_KEY"@);
    assert(override_names()[27] == "ZHIPU_API_KEY"@);
    assert(override_names()[28] == "CHATGLM_API_KEY"@);
    assert(override_names()[29] == "ARK_API_KEY"@);
    assert(override_names()[30] == "VOLC_ACCESSKEY"@);
    assert(override_names()[31] == "VOLCANO_ENGINE_API_KEY"@);
    assert(override_names()[32] == "GROQ_API_KEY"@);
    assert(override_names()[33] == "MISTRAL_COOKIE"@);
    assert(override_names()[34] == "MISTRAL_SESSION_TOKEN"@);
    assert(override_names()[35] == "DEEPGRAM_API_KEY"@);
    assert(override_names()[36] == "ELEVENLABS_API_KEY"@);
    assert(override_names()[37] == "XI_API_KEY"@);
    assert(override_names()[38] == "KILO_API_KEY"@);
    assert(override_names()[39] == "ALIBABA_CODING_PLAN_API_KEY"@);
    assert(override_names()[40] == "OPENAI_ADMIN_KEY"@);
    assert(override_names()[41] == "CODEBUFF_API_KEY"@);
    assert(override_names()[42] == "MANUS_SESSION_TOKEN"@);
    assert(override_names()[43] == "MANUS_SESSION_ID"@);
    assert(override_names()[44] == "MANUS_COOKIE"@);
    assert(override_names()[45] == "ABACUS_COOKIE"@);
    assert(override_names()[46] == "ABACUS_SESSION_TOKEN"@);
}

/// What a change of the credentials does next.
pub enum CredsStep {
    /// Read the credentials that are kept.
    Load { update: ProviderCredsUpdate },
    /// Keep these.
    Save { creds: ProviderCreds },
    /// Tell the windows that the credentials changed.
    Announce { creds: ProviderCreds },
    /// Look up the variables of the environment and where credentials are kept.
    Look { creds: ProviderCreds },
    /// The change is over.
    Done(Result<ProviderCredsView, String>),
}

/// What became of a change's last action.
pub enum CredsEvent {
    Loaded(Result<ProviderCreds, String>),
    Saved(Result<(), String>),
    Announced,
    Looked { env: Vec<EnvVar>, backend: Backend },
}

/// The change as the event leaves it. An event that its action cannot bring changes nothing.
pub open spec fn creds_next(before: CredsStep, event: CredsEvent) -> CredsStep {
    match (before, event) {
        (CredsStep::Load { update }, CredsEvent::Loaded(r)) => match r {
            Ok(kept) => CredsStep::Save { creds: all_merged(kept, update) },
            Err(e) => CredsStep::Done(Err(e)),
        },
        (CredsStep::Save { creds }, CredsEvent::Saved(r)) => match r {
            Ok(_) => CredsStep::Announce { creds },
            Err(e) => CredsStep::Done(Err(e)),
        },
        (CredsStep::Announce { creds }, CredsEvent::Announced) => CredsStep::Look { creds },
        (CredsStep::Look { creds }, CredsEvent::Looked { env, backend }) => CredsStep::Done(
            Ok(view_of(creds, env@, backend)),
        ),
        _ => before,
    }
}

impl CredsStep {
    /// What the event makes of a change.
    pub fn step(self, event: CredsEvent) -> (r: CredsStep)
        ensures
            r == creds_next(self, event),
    {
        match (self, event) {
            (CredsStep::Load { update }, CredsEvent::Loaded(r)) => match r {
                Ok(kept) => CredsStep::Save { creds: set_provider_creds(kept, update) },
                Err(e) => CredsStep::Done(Err(e)),
            },
            (CredsStep::Save { creds }, CredsEvent::Saved(r)) => match r {
                Ok(_) => CredsStep::Announce { creds },
                Err(e) => CredsStep::Done(Err(e)),
            },
            (CredsStep::Announce { creds }, CredsEvent::Announced) => CredsStep::Look { creds },
            (CredsStep::Look { creds }, CredsEvent::Looked { env, backend }) => CredsStep::Done(
                Ok(build_provider_creds_view(&creds, &env, backend)),
            ),
            (step, _) => step,
        }
    }
}

/// A change is told of only after it was kept, and what is shown then is what was kept.
pub proof fn lemma_change_is_kept_before_it_is_told(before: CredsStep, event: CredsEvent)
    ensures
        ({
            let after = creds_next(before, event);
            &&& after is Announce && after != before ==> before is Save && event is Saved
                && event->Saved_0 is Ok && after->Announce_creds == before->Save_creds
            &&& after is Look && after != before ==> before is Announce && after->Look_creds
                == before->Announce_creds
            &&& after is Done && after->Done_0 is Ok && after != before ==> before is Look
            &&& before is Save && event is Saved && event->Saved_0 is Err ==> after is Done
                && after->Done_0 is Err
        }),
{
}

/// A field that is given a text holds exactly that text afterwards, whatever was kept; an empty text
/// clears it; a field that the change leaves out stays as it was.
pub open spec fn takes_over(
    kept: Option<String>,
    update: Option<String>,
    after: Option<String>,
) -> bool {
    &&& update is None ==> after == kept
    &&& update is Some && update->0@.len() == 0 ==> after is None
    &&& update is Some && update->0@.len() > 0 ==> after == update
}

/// Whatever was kept, a change that names a field with a text sets that text, one that names it with
/// none clears it, and one that does not name it leaves it.
pub proof fn lemma_field_takes_what_it_is_given(kept: Option<String>, given: String)
    ensures
        given@.len() > 0 ==> merged(kept, Some(given)) == Some(given),
        given@.len() == 0 ==> merged(kept, Some(given)) is None,
        merged(kept, None) == kept,
{
}

/// A change reaches each field by its own name: every credential takes over what the change says of
/// it, and nothing of what it says of another.
pub proof fn lemma_change_reaches_each_field(c: ProviderCreds, u: ProviderCredsUpdate)
    ensures
        takes_over(c.cursor_cookie, u.cursor_cookie, all_merged(c, u).cursor_cookie),
        takes_over(c.copilot_token, u.copilot_token, all_merged(c, u).copilot_token),
        takes_over(c.openrouter_api_key, u.openrouter_api_key, all_merged(c, u).openrouter_api_key),
        takes_over(c.openrouter_base_url, u.openrouter_base_url, all_merged(c, u).openrouter_base_url),
        takes_over(c.deepseek_api_key, u.deepseek_api_key, all_merged(c, u).deepseek_api_key),
        takes_over(c.zai_api_key, u.zai_api_key, all_merged(c, u).zai_api_key),
        takes_over(c.crof_api_key, u.crof_api_key, all_merged(c, u).crof_api_key),
        takes_over(c.minimax_api_key, u.minimax_api_key, all_merged(c, u).minimax_api_key),
        takes_over(c.moonshot_api_key, u.moonshot_api_key, all_merged(c, u).moonshot_api_key),
        takes_over(c.venice_api_key, u.venice_api_key, all_merged(c, u).venice_api_key),
        takes_over(c.kimi_k2_api_key, u.kimi_k2_api_key, all_merged(c, u).kimi_k2_api_key),
        takes_over(c.augment_cookie, u.augment_cookie, all_merged(c, u).augment_cookie),
        takes_over(c.perplexity_cookie, u.perplexity_cookie, all_merged(c, u).perplexity_cookie),
        takes_over(c.t3chat_cookie, u.t3chat_cookie, all_merged(c, u).t3chat_cookie),
        takes_over(c.stepfun_cookie, u.stepfun_cookie, all_merged(c, u).stepfun_cookie),
        takes_over(c.warp_api_key, u.warp_api_key, all_merged(c, u).warp_api_key),
        takes_over(c.kimi_auth_token, u.kimi_auth_token, all_merged(c, u).kimi_auth_token),
        takes_over(c.grok_cookie, u.grok_cookie, all_merged(c, u).grok_cookie),
        takes_over(c.glm_api_key, u.glm_api_key, all_merged(c, u).glm_api_key),
        takes_over(c.volcano_api_key, u.volcano_api_key, all_merged(c, u).volcano_api_key),
        takes_over(c.groq_api_key, u.groq_api_key, all_merged(c, u).groq_api_key),
        takes_over(c.mistral_cookie, u.mistral_cookie, all_merged(c, u).mistral_cookie),
        takes_over(c.deepgram_api_key, u.deepgram_api_key, all_merged(c, u).deepgram_api_key),
        takes_over(c.elevenlabs_api_key, u.elevenlabs_api_key, all_merged(c, u).elevenlabs_api_key),
        takes_over(c.kilo_api_key, u.kilo_api_key, all_merged(c, u).kilo_api_key),
        takes_over(c.alibaba_api_key, u.alibaba_api_key, all_merged(c, u).alibaba_api_key),
        takes_over(c.openai_admin_key, u.openai_admin_key, all_merged(c, u).openai_admin_key),
        takes_over(c.codebuff_api_key, u.codebuff_api_key, all_merged(c, u).codebuff_api_key),
        takes_over(c.manus_cookie, u.manus_cookie, all_merged(c, u).manus_cookie),
        takes_over(c.abacus_cookie, u.abacus_cookie, all_merged(c, u).abacus_cookie),
{
}

/// Of two changes to a field the later one counts: what a field is given last is what it holds.
pub proof fn lemma_last_change_counts(kept: Option<String>, first: Option<String>, last: String)
    ensures
        merged(merged(kept, first), Some(last)) == merged(kept, Some(last)),
        last@.len() > 0 ==> merged(merged(kept, first), Some(last)) == Some(last),
{
}

/// The settings say of each secret whether a text is kept for it, by its own name and whatever the
/// environment holds, and show the address of OpenRouter's interface as it is kept.
pub proof fn lemma_view_tells_what_is_kept(c: ProviderCreds, env: Seq<EnvVar>, backend: Backend)
    ensures
        view_of(c, env, backend).cursor_cookie_set <==> c.cursor_cookie is Some && c.cursor_cookie->0@.len() > 0,
        view_of(c, env, backend).copilot_token_set <==> c.copilot_token is Some && c.copilot_token->0@.len() > 0,
        view_of(c, env, backend).openrouter_api_key_set <==> c.openrouter_api_key is Some && c.openrouter_api_key->0@.len() > 0,
        view_of(c, env, backend).deepseek_api_key_set <==> c.deepseek_api_key is Some && c.deepseek_api_key->0@.len() > 0,
        view_of(c, env, backend).zai_api_key_set <==> c.zai_api_key is Some && c.zai_api_key->0@.len() > 0,
        view_of(c, env, backend).crof_api_key_set <==> c.crof_api_key is Some && c.crof_api_key->0@.len() > 0,
        view_of(c, env, backend).minimax_api_key_set <==> c.minimax_api_key is Some && c.minimax_api_key->0@.len() > 0,
        view_of(c, env, backend).moonshot_api_key_set <==> c.moonshot_api_key is Some && c.moonshot_api_key->0@.len() > 0,
        view_of(c, env, backend).venice_api_key_set <==> c.venice_api_key is Some && c.venice_api_key->0@.len() > 0,
        view_of(c, env, backend).kimi_k2_api_key_set <==> c.kimi_k2_api_key is Some && c.kimi_k2_api_key->0@.len() > 0,
        view_of(c, env, backend).augment_cookie_set <==> c.augment_cookie is Some && c.augment_cookie->0@.len() > 0,
        view_of(c, env, backend).perplexity_cookie_set <==> c.perplexity_cookie is Some && c.perplexity_cookie->0@.len() > 0,
        view_of(c, env, backend).t3chat_cookie_set <==> c.t3chat_cookie is Some && c.t3chat_cookie->0@.len() > 0,
        view_of(c, env, backend).stepfun_cookie_set <==> c.stepfun_cookie is Some && c.stepfun_cookie->0@.len() > 0,
        view_of(c, env, backend).warp_api_key_set <==> c.warp_api_key is Some && c.warp_api_key->0@.len() > 0,
        view_of(c, env, backend).kimi_auth_token_set <==> c.kimi_auth_token is Some && c.kimi_auth_token->0@.len() > 0,
        view_of(c, env, backend).grok_cookie_set <==> c.grok_cookie is Some && c.grok_cookie->0@.len() > 0,
        view_of(c, env, backend).glm_api_key_set <==> c.glm_api_key is Some && c.glm_api_key->0@.len() > 0,
        view_of(c, env, backend).volcano_api_key_set <==> c.volcano_api_key is Some && c.volcano_api_key->0@.len() > 0,
        view_of(c, env, backend).groq_api_key_set <==> c.groq_api_key is Some && c.groq_api_key->0@.len() > 0,
        view_of(c, env, backend).mistral_cookie_set <==> c.mistral_cookie is Some && c.mistral_cookie->0@.len() > 0,
        view_of(c, env, backend).deepgram_api_key_set <==> c.deepgram_api_key is Some && c.deepgram_api_key->0@.len() > 0,
        view_of(c, env, backend).elevenlabs_api_key_set <==> c.elevenlabs_api_key is Some && c.elevenlabs_api_key->0@.len() > 0,
        view_of(c, env, backend).kilo_api_key_set <==> c.kilo_api_key is Some && c.kilo_api_key->0@.len() > 0,
        view_of(c, env, backend).alibaba_api_key_set <==> c.alibaba_api_key is Some && c.alibaba_api_key->0@.len() > 0,
        view_of(c, env, backend).openai_admin_key_set <==> c.openai_admin_key is Some && c.openai_admin_key->0@.len() > 0,
        view_of(c, env, backend).codebuff_api_key_set <==> c.codebuff_api_key is Some && c.codebuff_api_key->0@.len() > 0,
        view_of(c, env, backend).manus_cookie_set <==> c.manus_cookie is Some && c.manus_cookie->0@.len() > 0,
        view_of(c, env, backend).abacus_cookie_set <==> c.abacus_cookie is Some && c.abacus_cookie->0@.len() > 0,
        view_of(c, env, backend).openrouter_base_url == c.openrouter_base_url,
        view_of(c, env, backend).storage_backend == backend,
{
}

/// The settings say of each credential whether one of its variables has a value that is not empty,
/// whatever is kept.
pub proof fn lemma_view_tells_what_is_overridden(
    c: ProviderCreds,
    env: Seq<EnvVar>,
    backend: Backend,
)
    ensures
        view_of(c, env, backend).env_override_cursor <==> env_set_in(env, "CURSOR_COOKIE"@),
        view_of(c, env, backend).env_override_copilot <==> env_set_in(env, "COPILOT_API_TOKEN"@),
        view_of(c, env, backend).env_override_openrouter_key <==> env_set_in(env, "OPENROUTER_API_KEY"@),
        view_of(c, env, backend).env_override_openrouter_url <==> env_set_in(env, "OPENROUTER_API_URL"@),
        view_of(c, env, backend).env_override_deepseek <==> env_set_in(env, "DEEPSEEK_API_KEY"@) || env_set_in(env, "DEEPSEEK_KEY"@),
        view_of(c, env, backend).env_override_zai <==> env_set_in(env, "Z_AI_API_KEY"@),
        view_of(c, env, backend).env_override_crof <==> env_set_in(env, "CROF_API_KEY"@),
        view_of(c, env, backend).env_override_minimax <==> env_set_in(env, "MINIMAX_API_KEY"@),
        view_of(c, env, backend).env_override_moonshot <==> env_set_in(env, "MOONSHOT_API_KEY"@),
        view_of(c, env, backend).env_override_venice <==> env_set_in(env, "VENICE_API_KEY"@) || env_set_in(env, "VENICE_KEY"@),
        view_of(c, env, backend).env_override_kimi_k2 <==> env_set_in(env, "KIMI_K2_API_KEY"@) || env_set_in(env, "KIMI_API_KEY"@) || env_set_in(env, "KIMI_KEY"@),
        view_of(c, env, backend).env_override_augment <==> env_set_in(env, "AUGMENT_COOKIE"@),
        view_of(c, env, backend).env_override_perplexity <==> env_set_in(env, "PERPLEXITY_SESSION_TOKEN"@) || env_set_in(env, "PERPLEXITY_COOKIE"@),
        view_of(c, env, backend).env_override_t3chat <==> env_set_in(env, "T3CHAT_COOKIE"@),
        view_of(c, env, backend).env_override_stepfun <==> env_set_in(env, "STEPFUN_COOKIE"@) || env_set_in(env, "STEPFUN_OASIS_TOKEN"@),
        view_of(c, env, backend).env_override_warp <==> env_set_in(env, "WARP_API_KEY"@) || env_set_in(env, "WARP_TOKEN"@),
        view_of(c, env, backend).env_override_kimi <==> env_set_in(env, "KIMI_AUTH_TOKEN"@),
        view_of(c, env, backend).env_override_grok <==> env_set_in(env, "GROK_COOKIE"@) || env_set_in(env, "GROK_TOKEN"@),
        view_of(c, env, backend).env_override_glm <==> env_set_in(env, "GLM_API_KEY"@) || env_set_in(env, "ZHIPU_API_KEY"@) || env_set_in(env, "CHATGLM_API_KEY"@),
        view_of(c, env, backend).env_override_volcano <==> env_set_in(env, "ARK_API_KEY"@) || env_set_in(env, "VOLC_ACCESSKEY"@) || env_set_in(env, "VOLCANO_ENGINE_API_KEY"@),
        view_of(c, env, backend).env_override_groq <==> env_set_in(env, "GROQ_API_KEY"@),
        view_of(c, env, backend).env_override_mistral <==> env_set_in(env, "MISTRAL_COOKIE"@) || env_set_in(env, "MISTRAL_SESSION_TOKEN"@),
        view_of(c, env, backend).env_override_deepgram <==> env_set_in(env, "DEEPGRAM_API_KEY"@),
        view_of(c, env, backend).env_override_elevenlabs <==> env_set_in(env, "ELEVENLABS_API_KEY"@) || env_set_in(env, "XI_API_KEY"@),
        view_of(c, env, backend).env_override_kilo <==> env_set_in(env, "KILO_API_KEY"@),
        view_of(c, env, backend).env_override_alibaba <==> env_set_in(env, "ALIBABA_CODING_PLAN_API_KEY"@),
        view_of(c, env, backend).env_override_openai_admin <==> env_set_in(env, "OPENAI_ADMIN_KEY"@),
        view_of(c, env, backend).env_override_codebuff <==> env_set_in(env, "CODEBUFF_API_KEY"@),
        view_of(c, env, backend).env_override_manus <==> env_set_in(env, "MANUS_SESSION_TOKEN"@) || env_set_in(env, "MANUS_SESSION_ID"@) || env_set_in(env, "MANUS_COOKIE"@),
        view_of(c, env, backend).env_override_abacus <==> env_set_in(env, "ABACUS_COOKIE"@) || env_set_in(env, "ABACUS_SESSION_TOKEN"@),
{
}

/// A variable overrides where it has a value: one that is set to a text counts under its own name,
/// one that is empty under none, and neither changes what the others do.
pub proof fn lemma_variable_counts_by_its_name(env: Seq<EnvVar>, v: EnvVar, name: Seq<char>)
    ensures
        env_set_in(env.push(v), name) <==> env_set_in(env, name) || (v.name@ == name && v.value@.len()
            > 0),
        !(env_set_in(Seq::<EnvVar>::empty(), name)),
{
    let more = env.push(v);
    if env_set_in(env, name) {
        let i = choose|i: int|
            0 <= i < env.len() && #[trigger] env[i].name@ == name && env[i].value@.len() > 0;
        assert(more[i].name@ == name);
    }
    if v.name@ == name && v.value@.len() > 0 {
        assert(more[env.len() as int].name@ == name);
    }
    if env_set_in(more, name) {
        let i = choose|i: int|
            0 <= i < more.len() && #[trigger] more[i].name@ == name && more[i].value@.len() > 0;
        if i < env.len() {
            assert(env[i].name@ == name);
        }
    }
}

/// A change from its beginning to its end: what is kept is what was read with the change taken over,
/// field by field; a failure on the way is handed on as it is; and what is shown at the end is what
/// was kept.
pub proof fn lemma_change_from_end_to_end(
    update: ProviderCredsUpdate,
    kept: ProviderCreds,
    creds: ProviderCreds,
    e: String,
    env: Vec<EnvVar>,
    backend: Backend,
)
    ensures
        creds_next(CredsStep::Load { update }, CredsEvent::Loaded(Err(e))) == CredsStep::Done(Err(e)),
        creds_next(CredsStep::Load { update }, CredsEvent::Loaded(Ok(kept))) matches CredsStep::Save {
            creds: saved,
        } && saved
            == all_merged(kept, update),
        creds_next(CredsStep::Save { creds }, CredsEvent::Saved(Err(e))) == CredsStep::Done(Err(e)),
        creds_next(CredsStep::Save { creds }, CredsEvent::Saved(Ok(()))) == (CredsStep::Announce {
            creds,
        }),
        creds_next(CredsStep::Announce { creds }, CredsEvent::Announced) == (CredsStep::Look {
            creds,
        }),
        creds_next(CredsStep::Look { creds }, CredsEvent::Looked { env, backend }) == CredsStep::Done(
            Ok(view_of(creds, env@, backend)),
        ),
{
}

} // verus!
