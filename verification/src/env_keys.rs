//! Finding a provider's API key in the environment. The environment is given
//! as its variables, name and value, and whether a credentials file exists.
use vstd::prelude::*;

use crate::text::{ends_with, str_eq, str_pairs};

verus! {

/// The value of the first variable of a name.
pub open spec fn env_get(env: Seq<(Seq<char>, Seq<char>)>, name: Seq<char>) -> Option<Seq<char>>
    decreases env.len(),
{
    if env.len() == 0 {
        None
    } else if env[0].0 == name {
        Some(env[0].1)
    } else {
        env_get(env.drop_first(), name)
    }
}

pub open spec fn env_has(env: Seq<(Seq<char>, Seq<char>)>, name: Seq<char>) -> bool {
    env_get(env, name) is Some
}

/// The value of a variable, if set.
pub fn env_var(env: &Vec<(String, String)>, name: &str) -> (r: Option<String>)
    ensures
        match r {
            Some(v) => env_get(str_pairs(env@), name@) == Some(v@),
            None => env_get(str_pairs(env@), name@) is None,
        },
{
    let ghost all = str_pairs(env@);
    let mut i: usize = 0;
    assert(all.skip(0) == all);
    while i < env.len()
        invariant
            i <= env@.len(),
            all == str_pairs(env@),
            env_get(all, name@) == env_get(all.skip(i as int), name@),
        decreases env@.len() - i,
    {
        assert(all.skip(i as int)[0] == all[i as int]);
        assert(all.skip(i as int).drop_first() == all.skip(i + 1));
        if str_eq(env[i].0.as_str(), name) {
            return Some(env[i].1.clone());
        }
        i = i + 1;
    }
    None
}

/// The variable that holds the key of a provider looked up by a single name.
pub open spec fn spec_key_var(provider: Seq<char>) -> Option<Seq<char>> {
    if provider == "openai"@ {
        Some("OPENAI_API_KEY"@)
    } else if provider == "azure-openai-responses"@ {
        Some("AZURE_OPENAI_API_KEY"@)
    } else if provider == "google"@ {
        Some("GEMINI_API_KEY"@)
    } else if provider == "groq"@ {
        Some("GROQ_API_KEY"@)
    } else if provider == "cerebras"@ {
        Some("CEREBRAS_API_KEY"@)
    } else if provider == "xai"@ {
        Some("XAI_API_KEY"@)
    } else if provider == "openrouter"@ {
        Some("OPENROUTER_API_KEY"@)
    } else if provider == "vercel-ai-gateway"@ {
        Some("AI_GATEWAY_API_KEY"@)
    } else if provider == "zai"@ {
        Some("ZAI_API_KEY"@)
    } else if provider == "mistral"@ {
        Some("MISTRAL_API_KEY"@)
    } else if provider == "minimax"@ {
        Some("MINIMAX_API_KEY"@)
    } else if provider == "minimax-cn"@ {
        Some("MINIMAX_CN_API_KEY"@)
    } else if provider == "huggingface"@ {
        Some("HF_TOKEN"@)
    } else if provider == "opencode"@ || provider == "opencode-go"@ {
        Some("OPENCODE_API_KEY"@)
    } else if provider == "kimi-coding"@ {
        Some("KIMI_API_KEY"@)
    } else {
        None
    }
}

fn key_var(provider: &str) -> (r: Option<&'static str>)
    ensures
        match r {
            Some(v) => spec_key_var(provider@) == Some(v@),
            None => spec_key_var(provider@) is None,
        },
{
    if str_eq(provider, "openai") {
        Some("OPENAI_API_KEY")
    } else if str_eq(provider, "azure-openai-responses") {
        Some("AZURE_OPENAI_API_KEY")
    } else if str_eq(provider, "google") {
        Some("GEMINI_API_KEY")
    } else if str_eq(provider, "groq") {
        Some("GROQ_API_KEY")
    } else if str_eq(provider, "cerebras") {
        Some("CEREBRAS_API_KEY")
    } else if str_eq(provider, "xai") {
        Some("XAI_API_KEY")
    } else if str_eq(provider, "openrouter") {
        Some("OPENROUTER_API_KEY")
    } else if str_eq(provider, "vercel-ai-gateway") {
        Some("AI_GATEWAY_API_KEY")
    } else if str_eq(provider, "zai") {
        Some("ZAI_API_KEY")
    } else if str_eq(provider, "mistral") {
        Some("MISTRAL_API_KEY")
    } else if str_eq(provider, "minimax") {
        Some("MINIMAX_API_KEY")
    } else if str_eq(provider, "minimax-cn") {
        Some("MINIMAX_CN_API_KEY")
    } else if str_eq(provider, "huggingface") {
        Some("HF_TOKEN")
    } else if str_eq(provider, "opencode") || str_eq(provider, "opencode-go") {
        Some("OPENCODE_API_KEY")
    } else if str_eq(provider, "kimi-coding") {
        Some("KIMI_API_KEY")
    } else {
        None
    }
}

/// The first set variable among two or three names.
pub open spec fn first_set(env: Seq<(Seq<char>, Seq<char>)>, names: Seq<Seq<char>>) -> Option<Seq<char>>
    decreases names.len(),
{
    if names.len() == 0 {
        None
    } else {
        match env_get(env, names[0]) {
            Some(v) => Some(v),
            None => first_set(env, names.drop_first()),
        }
    }
}

/// Where the application-default credentials of Google Cloud are looked for:
/// the file `GOOGLE_APPLICATION_CREDENTIALS` names, else the gcloud default
/// under the home directory (`HOME`, else `USERPROFILE`), else nowhere.
pub open spec fn spec_adc_path(env: Seq<(Seq<char>, Seq<char>)>) -> Option<Seq<char>> {
    match env_get(env, "GOOGLE_APPLICATION_CREDENTIALS"@) {
        Some(p) => Some(p),
        None => match first_set(env, seq!["HOME"@, "USERPROFILE"@]) {
            Some(home) => Some(join_path(home, ".config/gcloud/application_default_credentials.json"@)),
            None => None,
        },
    }
}

/// `Path::join` of a relative path: a separator goes between, unless the base
/// is empty or already ends in one.
pub open spec fn join_path(base: Seq<char>, rel: Seq<char>) -> Seq<char> {
    if base.len() == 0 || base.last() == '/' {
        base + rel
    } else {
        base + "/"@ + rel
    }
}

/// Joins a relative path to a base path.
pub fn join_path_str(base: &str, rel: &str) -> (r: String)
    ensures
        r@ == join_path(base@, rel@),
{
    if base.is_empty() {
        assert(base@ + rel@ =~= rel@);
        return rel.to_owned();
    }
    if ends_with(base, "/") {
        proof {
            reveal_strlit("/");
            let t = base@.subrange(base@.len() - 1, base@.len() as int);
            assert(t == "/"@);
            assert(t[0] == base@.last());
        }
        base.to_owned().concat(rel)
    } else {
        proof {
            reveal_strlit("/");
            if base@.last() == '/' {
                assert(crate::text::is_suffix("/"@, base@)) by {
                    assert(base@.subrange(base@.len() - 1, base@.len() as int) =~= "/"@);
                }
            }
        }
        base.to_owned().concat("/").concat(rel)
    }
}

/// The credentials file to check for Google Cloud, if any.
pub fn adc_path(env: &Vec<(String, String)>) -> (r: Option<String>)
    ensures
        match r {
            Some(p) => spec_adc_path(str_pairs(env@)) == Some(p@),
            None => spec_adc_path(str_pairs(env@)) is None,
        },
{
    match env_var(env, "GOOGLE_APPLICATION_CREDENTIALS") {
        Some(p) => Some(p),
        None => {
            let home = match env_var(env, "HOME") {
                Some(h) => Some(h),
                None => env_var(env, "USERPROFILE"),
            };
            proof {
                reveal_with_fuel(first_set, 3);
                let e = str_pairs(env@);
                assert(seq!["HOME"@, "USERPROFILE"@][0] == "HOME"@);
                assert(seq!["HOME"@, "USERPROFILE"@].drop_first() =~= seq!["USERPROFILE"@]);
                assert(seq!["USERPROFILE"@].drop_first() =~= Seq::<Seq<char>>::empty());
            }
            match home {
                Some(h) => Some(join_path_str(h.as_str(), ".config/gcloud/application_default_credentials.json")),
                None => None,
            }
        },
    }
}

/// The key of a provider found in the environment. GitHub Copilot and
/// Anthropic take the first of their variables that is set; Google Vertex
/// counts as authenticated where credentials, a project and a location are
/// all there; Amazon Bedrock where a profile, a key pair, a bearer token or
/// container or web-identity credentials are; other providers read their one
/// variable; unknown providers have none.
pub open spec fn spec_env_api_key(provider: Seq<char>, env: Seq<(Seq<char>, Seq<char>)>, adc_exists: bool) -> Option<Seq<char>> {
    if provider == "github-copilot"@ {
        first_set(env, seq!["COPILOT_GITHUB_TOKEN"@, "GH_TOKEN"@, "GITHUB_TOKEN"@])
    } else if provider == "anthropic"@ {
        first_set(env, seq!["ANTHROPIC_OAUTH_TOKEN"@, "ANTHROPIC_API_KEY"@])
    } else if provider == "google-vertex"@ {
        let has_project = env_has(env, "GOOGLE_CLOUD_PROJECT"@) || env_has(env, "GCLOUD_PROJECT"@);
        let has_location = env_has(env, "GOOGLE_CLOUD_LOCATION"@);
        if adc_exists && has_project && has_location {
            Some("<authenticated>"@)
        } else {
            None
        }
    } else if provider == "amazon-bedrock"@ {
        if env_has(env, "AWS_PROFILE"@) || (env_has(env, "AWS_ACCESS_KEY_ID"@) && env_has(
            env,
            "AWS_SECRET_ACCESS_KEY"@,
        )) || env_has(env, "AWS_BEARER_TOKEN_BEDROCK"@) || env_has(env, "AWS_CONTAINER_CREDENTIALS_RELATIVE_URI"@)
            || env_has(env, "AWS_CONTAINER_CREDENTIALS_FULL_URI"@) || env_has(env, "AWS_WEB_IDENTITY_TOKEN_FILE"@) {
            Some("<authenticated>"@)
        } else {
            None
        }
    } else {
        match spec_key_var(provider) {
            Some(var) => env_get(env, var),
            None => None,
        }
    }
}

/// The variables each provider's key is read from: GitHub Copilot takes the
/// first set of `COPILOT_GITHUB_TOKEN`, `GH_TOKEN`, `GITHUB_TOKEN`; Anthropic
/// the first of `ANTHROPIC_OAUTH_TOKEN`, `ANTHROPIC_API_KEY`; Google reads
/// `GEMINI_API_KEY`, OpenAI `OPENAI_API_KEY`, and so on for each provider with
/// one variable.
pub proof fn lemma_key_variables(env: Seq<(Seq<char>, Seq<char>)>, adc_exists: bool)
    ensures
        spec_env_api_key("github-copilot"@, env, adc_exists) == (match env_get(env, "COPILOT_GITHUB_TOKEN"@) {
            Some(v) => Some(v),
            None => match env_get(env, "GH_TOKEN"@) {
                Some(v) => Some(v),
                None => env_get(env, "GITHUB_TOKEN"@),
            },
        }),
        spec_env_api_key("anthropic"@, env, adc_exists) == (match env_get(env, "ANTHROPIC_OAUTH_TOKEN"@) {
            Some(v) => Some(v),
            None => env_get(env, "ANTHROPIC_API_KEY"@),
        }),
        spec_env_api_key("openai"@, env, adc_exists) == env_get(env, "OPENAI_API_KEY"@),
        spec_env_api_key("azure-openai-responses"@, env, adc_exists) == env_get(env, "AZURE_OPENAI_API_KEY"@),
        spec_env_api_key("google"@, env, adc_exists) == env_get(env, "GEMINI_API_KEY"@),
        spec_env_api_key("groq"@, env, adc_exists) == env_get(env, "GROQ_API_KEY"@),
        spec_env_api_key("cerebras"@, env, adc_exists) == env_get(env, "CEREBRAS_API_KEY"@),
        spec_env_api_key("xai"@, env, adc_exists) == env_get(env, "XAI_API_KEY"@),
        spec_env_api_key("openrouter"@, env, adc_exists) == env_get(env, "OPENROUTER_API_KEY"@),
        spec_env_api_key("vercel-ai-gateway"@, env, adc_exists) == env_get(env, "AI_GATEWAY_API_KEY"@),
        spec_env_api_key("zai"@, env, adc_exists) == env_get(env, "ZAI_API_KEY"@),
        spec_env_api_key("mistral"@, env, adc_exists) == env_get(env, "MISTRAL_API_KEY"@),
        spec_env_api_key("minimax"@, env, adc_exists) == env_get(env, "MINIMAX_API_KEY"@),
        spec_env_api_key("minimax-cn"@, env, adc_exists) == env_get(env, "MINIMAX_CN_API_KEY"@),
        spec_env_api_key("huggingface"@, env, adc_exists) == env_get(env, "HF_TOKEN"@),
        spec_env_api_key("opencode"@, env, adc_exists) == env_get(env, "OPENCODE_API_KEY"@),
        spec_env_api_key("opencode-go"@, env, adc_exists) == env_get(env, "OPENCODE_API_KEY"@),
        spec_env_api_key("kimi-coding"@, env, adc_exists) == env_get(env, "KIMI_API_KEY"@),
{
    lemma_key_var_github_copilot(env, adc_exists);
    lemma_key_var_anthropic(env, adc_exists);
    lemma_key_var_openai(env, adc_exists);
    lemma_key_var_azure_openai_responses(env, adc_exists);
    lemma_key_var_google(env, adc_exists);
    lemma_key_var_groq(env, adc_exists);
    lemma_key_var_cerebras(env, adc_exists);
    lemma_key_var_xai(env, adc_exists);
    lemma_key_var_openrouter(env, adc_exists);
    lemma_key_var_vercel_ai_gateway(env, adc_exists);
    lemma_key_var_zai(env, adc_exists);
    lemma_key_var_mistral(env, adc_exists);
    lemma_key_var_minimax(env, adc_exists);
    lemma_key_var_minimax_cn(env, adc_exists);
    lemma_key_var_huggingface(env, adc_exists);
    lemma_key_var_opencode(env, adc_exists);
    lemma_key_var_opencode_go(env, adc_exists);
    lemma_key_var_kimi_coding(env, adc_exists);
}

proof fn lemma_key_var_github_copilot(env: Seq<(Seq<char>, Seq<char>)>, adc_exists: bool)
    ensures
        spec_env_api_key("github-copilot"@, env, adc_exists) == (match env_get(env, "COPILOT_GITHUB_TOKEN"@) {
            Some(v) => Some(v),
            None => match env_get(env, "GH_TOKEN"@) {
                Some(v) => Some(v),
                None => env_get(env, "GITHUB_TOKEN"@),
            },
        }),
{
    reveal_with_fuel(first_set, 4);
    let names = seq!["COPILOT_GITHUB_TOKEN"@, "GH_TOKEN"@, "GITHUB_TOKEN"@];
    assert(names.drop_first() =~= seq!["GH_TOKEN"@, "GITHUB_TOKEN"@]);
    assert(names.drop_first().drop_first() =~= seq!["GITHUB_TOKEN"@]);
    assert(names.drop_first().drop_first().drop_first() =~= Seq::<Seq<char>>::empty());
}

proof fn lemma_key_var_anthropic(env: Seq<(Seq<char>, Seq<char>)>, adc_exists: bool)
    ensures
        spec_env_api_key("anthropic"@, env, adc_exists) == (match env_get(env, "ANTHROPIC_OAUTH_TOKEN"@) {
            Some(v) => Some(v),
            None => env_get(env, "ANTHROPIC_API_KEY"@),
        }),
{
    reveal_strlit("anthropic");
    reveal_strlit("github-copilot");
    assert("anthropic"@ != "github-copilot"@) by {
        assert("anthropic"@.len() != "github-copilot"@.len());
    }
    reveal_with_fuel(first_set, 3);
    let names = seq!["ANTHROPIC_OAUTH_TOKEN"@, "ANTHROPIC_API_KEY"@];
    assert(names.drop_first() =~= seq!["ANTHROPIC_API_KEY"@]);
    assert(names.drop_first().drop_first() =~= Seq::<Seq<char>>::empty());
}

proof fn lemma_key_var_openai(env: Seq<(Seq<char>, Seq<char>)>, adc_exists: bool)
    ensures
        spec_env_api_key("openai"@, env, adc_exists) == env_get(env, "OPENAI_API_KEY"@),
{
    reveal_strlit("openai");
    reveal_strlit("github-copilot");
    reveal_strlit("anthropic");
    reveal_strlit("google-vertex");
    reveal_strlit("amazon-bedrock");
    assert("openai"@ != "github-copilot"@) by {
        assert("openai"@.len() != "github-copilot"@.len());
    }
    assert("openai"@ != "anthropic"@) by {
        assert("openai"@.len() != "anthropic"@.len());
    }
    assert("openai"@ != "google-vertex"@) by {
        assert("openai"@.len() != "google-vertex"@.len());
    }
    assert("openai"@ != "amazon-bedrock"@) by {
        assert("openai"@.len() != "amazon-bedrock"@.len());
    }
}

proof fn lemma_key_var_azure_openai_responses(env: Seq<(Seq<char>, Seq<char>)>, adc_exists: bool)
    ensures
        spec_env_api_key("azure-openai-responses"@, env, adc_exists) == env_get(env, "AZURE_OPENAI_API_KEY"@),
{
    reveal_strlit("azure-openai-responses");
    reveal_strlit("github-copilot");
    reveal_strlit("anthropic");
    reveal_strlit("google-vertex");
    reveal_strlit("amazon-bedrock");
    reveal_strlit("openai");
    assert("azure-openai-responses"@ != "github-copilot"@) by {
        assert("azure-openai-responses"@.len() != "github-copilot"@.len());
    }
    assert("azure-openai-responses"@ != "anthropic"@) by {
        assert("azure-openai-responses"@.len() != "anthropic"@.len());
    }
    assert("azure-openai-responses"@ != "google-vertex"@) by {
        assert("azure-openai-responses"@.len() != "google-vertex"@.len());
    }
    assert("azure-openai-responses"@ != "amazon-bedrock"@) by {
        assert("azure-openai-responses"@.len() != "amazon-bedrock"@.len());
    }
    assert("azure-openai-responses"@ != "openai"@) by {
        assert("azure-openai-responses"@.len() != "openai"@.len());
    }
}

proof fn lemma_key_var_google(env: Seq<(Seq<char>, Seq<char>)>, adc_exists: bool)
    ensures
        spec_env_api_key("google"@, env, adc_exists) == env_get(env, "GEMINI_API_KEY"@),
{
    reveal_strlit("google");
    reveal_strlit("github-copilot");
    reveal_strlit("anthropic");
    reveal_strlit("google-vertex");
    reveal_strlit("amazon-bedrock");
    reveal_strlit("openai");
    reveal_strlit("azure-openai-responses");
    assert("google"@ != "github-copilot"@) by {
        assert("google"@.len() != "github-copilot"@.len());
    }
    assert("google"@ != "anthropic"@) by {
        assert("google"@.len() != "anthropic"@.len());
    }
    assert("google"@ != "google-vertex"@) by {
        assert("google"@.len() != "google-vertex"@.len());
    }
    assert("google"@ != "amazon-bedrock"@) by {
        assert("google"@.len() != "amazon-bedrock"@.len());
    }
    assert("google"@ != "openai"@) by {
        assert("google"@[0] != "openai"@[0]);
    }
    assert("google"@ != "azure-openai-responses"@) by {
        assert("google"@.len() != "azure-openai-responses"@.len());
    }
}

proof fn lemma_key_var_groq(env: Seq<(Seq<char>, Seq<char>)>, adc_exists: bool)
    ensures
        spec_env_api_key("groq"@, env, adc_exists) == env_get(env, "GROQ_API_KEY"@),
{
    reveal_strlit("groq");
    reveal_strlit("github-copilot");
    reveal_strlit("anthropic");
    reveal_strlit("google-vertex");
    reveal_strlit("amazon-bedrock");
    reveal_strlit("openai");
    reveal_strlit("azure-openai-responses");
    reveal_strlit("google");
    assert("groq"@ != "github-copilot"@) by {
        assert("groq"@.len() != "github-copilot"@.len());
    }
    assert("groq"@ != "anthropic"@) by {
        assert("groq"@.len() != "anthropic"@.len());
    }
    assert("groq"@ != "google-vertex"@) by {
        assert("groq"@.len() != "google-vertex"@.len());
    }
    assert("groq"@ != "amazon-bedrock"@) by {
        assert("groq"@.len() != "amazon-bedrock"@.len());
    }
    assert("groq"@ != "openai"@) by {
        assert("groq"@.len() != "openai"@.len());
    }
    assert("groq"@ != "azure-openai-responses"@) by {
        assert("groq"@.len() != "azure-openai-responses"@.len());
    }
    assert("groq"@ != "google"@) by {
        assert("groq"@.len() != "google"@.len());
    }
}

proof fn lemma_key_var_cerebras(env: Seq<(Seq<char>, Seq<char>)>, adc_exists: bool)
    ensures
        spec_env_api_key("cerebras"@, env, adc_exists) == env_get(env, "CEREBRAS_API_KEY"@),
{
    reveal_strlit("cerebras");
    reveal_strlit("github-copilot");
    reveal_strlit("anthropic");
    reveal_strlit("google-vertex");
    reveal_strlit("amazon-bedrock");
    reveal_strlit("openai");
    reveal_strlit("azure-openai-responses");
    reveal_strlit("google");
    reveal_strlit("groq");
    assert("cerebras"@ != "github-copilot"@) by {
        assert("cerebras"@.len() != "github-copilot"@.len());
    }
    assert("cerebras"@ != "anthropic"@) by {
        assert("cerebras"@.len() != "anthropic"@.len());
    }
    assert("cerebras"@ != "google-vertex"@) by {
        assert("cerebras"@.len() != "google-vertex"@.len());
    }
    assert("cerebras"@ != "amazon-bedrock"@) by {
        assert("cerebras"@.len() != "amazon-bedrock"@.len());
    }
    assert("cerebras"@ != "openai"@) by {
        assert("cerebras"@.len() != "openai"@.len());
    }
    assert("cerebras"@ != "azure-openai-responses"@) by {
        assert("cerebras"@.len() != "azure-openai-responses"@.len());
    }
    assert("cerebras"@ != "google"@) by {
        assert("cerebras"@.len() != "google"@.len());
    }
    assert("cerebras"@ != "groq"@) by {
        assert("cerebras"@.len() != "groq"@.len());
    }
}

proof fn lemma_key_var_xai(env: Seq<(Seq<char>, Seq<char>)>, adc_exists: bool)
    ensures
        spec_env_api_key("xai"@, env, adc_exists) == env_get(env, "XAI_API_KEY"@),
{
    reveal_strlit("xai");
    reveal_strlit("github-copilot");
    reveal_strlit("anthropic");
    reveal_strlit("google-vertex");
    reveal_strlit("amazon-bedrock");
    reveal_strlit("openai");
    reveal_strlit("azure-openai-responses");
    reveal_strlit("google");
    reveal_strlit("groq");
    reveal_strlit("cerebras");
    assert("xai"@ != "github-copilot"@) by {
        assert("xai"@.len() != "github-copilot"@.len());
    }
    assert("xai"@ != "anthropic"@) by {
        assert("xai"@.len() != "anthropic"@.len());
    }
    assert("xai"@ != "google-vertex"@) by {
        assert("xai"@.len() != "google-vertex"@.len());
    }
    assert("xai"@ != "amazon-bedrock"@) by {
        assert("xai"@.len() != "amazon-bedrock"@.len());
    }
    assert("xai"@ != "openai"@) by {
        assert("xai"@.len() != "openai"@.len());
    }
    assert("xai"@ != "azure-openai-responses"@) by {
        assert("xai"@.len() != "azure-openai-responses"@.len());
    }
    assert("xai"@ != "google"@) by {
        assert("xai"@.len() != "google"@.len());
    }
    assert("xai"@ != "groq"@) by {
        assert("xai"@.len() != "groq"@.len());
    }
    assert("xai"@ != "cerebras"@) by {
        assert("xai"@.len() != "cerebras"@.len());
    }
}

proof fn lemma_key_var_openrouter(env: Seq<(Seq<char>, Seq<char>)>, adc_exists: bool)
    ensures
        spec_env_api_key("openrouter"@, env, adc_exists) == env_get(env, "OPENROUTER_API_KEY"@),
{
    reveal_strlit("openrouter");
    reveal_strlit("github-copilot");
    reveal_strlit("anthropic");
    reveal_strlit("google-vertex");
    reveal_strlit("amazon-bedrock");
    reveal_strlit("openai");
    reveal_strlit("azure-openai-responses");
    reveal_strlit("google");
    reveal_strlit("groq");
    reveal_strlit("cerebras");
    reveal_strlit("xai");
    assert("openrouter"@ != "github-copilot"@) by {
        assert("openrouter"@.len() != "github-copilot"@.len());
    }
    assert("openrouter"@ != "anthropic"@) by {
        assert("openrouter"@.len() != "anthropic"@.len());
    }
    assert("openrouter"@ != "google-vertex"@) by {
        assert("openrouter"@.len() != "google-vertex"@.len());
    }
    assert("openrouter"@ != "amazon-bedrock"@) by {
        assert("openrouter"@.len() != "amazon-bedrock"@.len());
    }
    assert("openrouter"@ != "openai"@) by {
        assert("openrouter"@.len() != "openai"@.len());
    }
    assert("openrouter"@ != "azure-openai-responses"@) by {
        assert("openrouter"@.len() != "azure-openai-responses"@.len());
    }
    assert("openrouter"@ != "google"@) by {
        assert("openrouter"@.len() != "google"@.len());
    }
    assert("openrouter"@ != "groq"@) by {
        assert("openrouter"@.len() != "groq"@.len());
    }
    assert("openrouter"@ != "cerebras"@) by {
        assert("openrouter"@.len() != "cerebras"@.len());
    }
    assert("openrouter"@ != "xai"@) by {
        assert("openrouter"@.len() != "xai"@.len());
    }
}

proof fn lemma_key_var_vercel_ai_gateway(env: Seq<(Seq<char>, Seq<char>)>, adc_exists: bool)
    ensures
        spec_env_api_key("vercel-ai-gateway"@, env, adc_exists) == env_get(env, "AI_GATEWAY_API_KEY"@),
{
    reveal_strlit("vercel-ai-gateway");
    reveal_strlit("github-copilot");
    reveal_strlit("anthropic");
    reveal_strlit("google-vertex");
    reveal_strlit("amazon-bedrock");
    reveal_strlit("openai");
    reveal_strlit("azure-openai-responses");
    reveal_strlit("google");
    reveal_strlit("groq");
    reveal_strlit("cerebras");
    reveal_strlit("xai");
    reveal_strlit("openrouter");
    assert("vercel-ai-gateway"@ != "github-copilot"@) by {
        assert("vercel-ai-gateway"@.len() != "github-copilot"@.len());
    }
    assert("vercel-ai-gateway"@ != "anthropic"@) by {
        assert("vercel-ai-gateway"@.len() != "anthropic"@.len());
    }
    assert("vercel-ai-gateway"@ != "google-vertex"@) by {
        assert("vercel-ai-gateway"@.len() != "google-vertex"@.len());
    }
    assert("vercel-ai-gateway"@ != "amazon-bedrock"@) by {
        assert("vercel-ai-gateway"@.len() != "amazon-bedrock"@.len());
    }
    assert("vercel-ai-gateway"@ != "openai"@) by {
        assert("vercel-ai-gateway"@.len() != "openai"@.len());
    }
    assert("vercel-ai-gateway"@ != "azure-openai-responses"@) by {
        assert("vercel-ai-gateway"@.len() != "azure-openai-responses"@.len());
    }
    assert("vercel-ai-gateway"@ != "google"@) by {
        assert("vercel-ai-gateway"@.len() != "google"@.len());
    }
    assert("vercel-ai-gateway"@ != "groq"@) by {
        assert("vercel-ai-gateway"@.len() != "groq"@.len());
    }
    assert("vercel-ai-gateway"@ != "cerebras"@) by {
        assert("vercel-ai-gateway"@.len() != "cerebras"@.len());
    }
    assert("vercel-ai-gateway"@ != "xai"@) by {
        assert("vercel-ai-gateway"@.len() != "xai"@.len());
    }
    assert("vercel-ai-gateway"@ != "openrouter"@) by {
        assert("vercel-ai-gateway"@.len() != "openrouter"@.len());
    }
}

proof fn lemma_key_var_zai(env: Seq<(Seq<char>, Seq<char>)>, adc_exists: bool)
    ensures
        spec_env_api_key("zai"@, env, adc_exists) == env_get(env, "ZAI_API_KEY"@),
{
    reveal_strlit("zai");
    reveal_strlit("github-copilot");
    reveal_strlit("anthropic");
    reveal_strlit("google-vertex");
    reveal_strlit("amazon-bedrock");
    reveal_strlit("openai");
    reveal_strlit("azure-openai-responses");
    reveal_strlit("google");
    reveal_strlit("groq");
    reveal_strlit("cerebras");
    reveal_strlit("xai");
    reveal_strlit("openrouter");
    reveal_strlit("vercel-ai-gateway");
    assert("zai"@ != "github-copilot"@) by {
        assert("zai"@.len() != "github-copilot"@.len());
    }
    assert("zai"@ != "anthropic"@) by {
        assert("zai"@.len() != "anthropic"@.len());
    }
    assert("zai"@ != "google-vertex"@) by {
        assert("zai"@.len() != "google-vertex"@.len());
    }
    assert("zai"@ != "amazon-bedrock"@) by {
        assert("zai"@.len() != "amazon-bedrock"@.len());
    }
    assert("zai"@ != "openai"@) by {
        assert("zai"@.len() != "openai"@.len());
    }
    assert("zai"@ != "azure-openai-responses"@) by {
        assert("zai"@.len() != "azure-openai-responses"@.len());
    }
    assert("zai"@ != "google"@) by {
        assert("zai"@.len() != "google"@.len());
    }
    assert("zai"@ != "groq"@) by {
        assert("zai"@.len() != "groq"@.len());
    }
    assert("zai"@ != "cerebras"@) by {
        assert("zai"@.len() != "cerebras"@.len());
    }
    assert("zai"@ != "xai"@) by {
        assert("zai"@[0] != "xai"@[0]);
    }
    assert("zai"@ != "openrouter"@) by {
        assert("zai"@.len() != "openrouter"@.len());
    }
    assert("zai"@ != "vercel-ai-gateway"@) by {
        assert("zai"@.len() != "vercel-ai-gateway"@.len());
    }
}

proof fn lemma_key_var_mistral(env: Seq<(Seq<char>, Seq<char>)>, adc_exists: bool)
    ensures
        spec_env_api_key("mistral"@, env, adc_exists) == env_get(env, "MISTRAL_API_KEY"@),
{
    reveal_strlit("mistral");
    reveal_strlit("github-copilot");
    reveal_strlit("anthropic");
    reveal_strlit("google-vertex");
    reveal_strlit("amazon-bedrock");
    reveal_strlit("openai");
    reveal_strlit("azure-openai-responses");
    reveal_strlit("google");
    reveal_strlit("groq");
    reveal_strlit("cerebras");
    reveal_strlit("xai");
    reveal_strlit("openrouter");
    reveal_strlit("vercel-ai-gateway");
    reveal_strlit("zai");
    assert("mistral"@ != "github-copilot"@) by {
        assert("mistral"@.len() != "github-copilot"@.len());
    }
    assert("mistral"@ != "anthropic"@) by {
        assert("mistral"@.len() != "anthropic"@.len());
    }
    assert("mistral"@ != "google-vertex"@) by {
        assert("mistral"@.len() != "google-vertex"@.len());
    }
    assert("mistral"@ != "amazon-bedrock"@) by {
        assert("mistral"@.len() != "amazon-bedrock"@.len());
    }
    assert("mistral"@ != "openai"@) by {
        assert("mistral"@.len() != "openai"@.len());
    }
    assert("mistral"@ != "azure-openai-responses"@) by {
        assert("mistral"@.len() != "azure-openai-responses"@.len());
    }
    assert("mistral"@ != "google"@) by {
        assert("mistral"@.len() != "google"@.len());
    }
    assert("mistral"@ != "groq"@) by {
        assert("mistral"@.len() != "groq"@.len());
    }
    assert("mistral"@ != "cerebras"@) by {
        assert("mistral"@.len() != "cerebras"@.len());
    }
    assert("mistral"@ != "xai"@) by {
        assert("mistral"@.len() != "xai"@.len());
    }
    assert("mistral"@ != "openrouter"@) by {
        assert("mistral"@.len() != "openrouter"@.len());
    }
    assert("mistral"@ != "vercel-ai-gateway"@) by {
        assert("mistral"@.len() != "vercel-ai-gateway"@.len());
    }
    assert("mistral"@ != "zai"@) by {
        assert("mistral"@.len() != "zai"@.len());
    }
}

proof fn lemma_key_var_minimax(env: Seq<(Seq<char>, Seq<char>)>, adc_exists: bool)
    ensures
        spec_env_api_key("minimax"@, env, adc_exists) == env_get(env, "MINIMAX_API_KEY"@),
{
    reveal_strlit("minimax");
    reveal_strlit("github-copilot");
    reveal_strlit("anthropic");
    reveal_strlit("google-vertex");
    reveal_strlit("amazon-bedrock");
    reveal_strlit("openai");
    reveal_strlit("azure-openai-responses");
    reveal_strlit("google");
    reveal_strlit("groq");
    reveal_strlit("cerebras");
    reveal_strlit("xai");
    reveal_strlit("openrouter");
    reveal_strlit("vercel-ai-gateway");
    reveal_strlit("zai");
    reveal_strlit("mistral");
    assert("minimax"@ != "github-copilot"@) by {
        assert("minimax"@.len() != "github-copilot"@.len());
    }
    assert("minimax"@ != "anthropic"@) by {
        assert("minimax"@.len() != "anthropic"@.len());
    }
    assert("minimax"@ != "google-vertex"@) by {
        assert("minimax"@.len() != "google-vertex"@.len());
    }
    assert("minimax"@ != "amazon-bedrock"@) by {
        assert("minimax"@.len() != "amazon-bedrock"@.len());
    }
    assert("minimax"@ != "openai"@) by {
        assert("minimax"@.len() != "openai"@.len());
    }
    assert("minimax"@ != "azure-openai-responses"@) by {
        assert("minimax"@.len() != "azure-openai-responses"@.len());
    }
    assert("minimax"@ != "google"@) by {
        assert("minimax"@.len() != "google"@.len());
    }
    assert("minimax"@ != "groq"@) by {
        assert("minimax"@.len() != "groq"@.len());
    }
    assert("minimax"@ != "cerebras"@) by {
        assert("minimax"@.len() != "cerebras"@.len());
    }
    assert("minimax"@ != "xai"@) by {
        assert("minimax"@.len() != "xai"@.len());
    }
    assert("minimax"@ != "openrouter"@) by {
        assert("minimax"@.len() != "openrouter"@.len());
    }
    assert("minimax"@ != "vercel-ai-gateway"@) by {
        assert("minimax"@.len() != "vercel-ai-gateway"@.len());
    }
    assert("minimax"@ != "zai"@) by {
        assert("minimax"@.len() != "zai"@.len());
    }
    assert("minimax"@ != "mistral"@) by {
        assert("minimax"@[2] != "mistral"@[2]);
    }
}

proof fn lemma_key_var_minimax_cn(env: Seq<(Seq<char>, Seq<char>)>, adc_exists: bool)
    ensures
        spec_env_api_key("minimax-cn"@, env, adc_exists) == env_get(env, "MINIMAX_CN_API_KEY"@),
{
    reveal_strlit("minimax-cn");
    reveal_strlit("github-copilot");
    reveal_strlit("anthropic");
    reveal_strlit("google-vertex");
    reveal_strlit("amazon-bedrock");
    reveal_strlit("openai");
    reveal_strlit("azure-openai-responses");
    reveal_strlit("google");
    reveal_strlit("groq");
    reveal_strlit("cerebras");
    reveal_strlit("xai");
    reveal_strlit("openrouter");
    reveal_strlit("vercel-ai-gateway");
    reveal_strlit("zai");
    reveal_strlit("mistral");
    reveal_strlit("minimax");
    assert("minimax-cn"@ != "github-copilot"@) by {
        assert("minimax-cn"@.len() != "github-copilot"@.len());
    }
    assert("minimax-cn"@ != "anthropic"@) by {
        assert("minimax-cn"@.len() != "anthropic"@.len());
    }
    assert("minimax-cn"@ != "google-vertex"@) by {
        assert("minimax-cn"@.len() != "google-vertex"@.len());
    }
    assert("minimax-cn"@ != "amazon-bedrock"@) by {
        assert("minimax-cn"@.len() != "amazon-bedrock"@.len());
    }
    assert("minimax-cn"@ != "openai"@) by {
        assert("minimax-cn"@.len() != "openai"@.len());
    }
    assert("minimax-cn"@ != "azure-openai-responses"@) by {
        assert("minimax-cn"@.len() != "azure-openai-responses"@.len());
    }
    assert("minimax-cn"@ != "google"@) by {
        assert("minimax-cn"@.len() != "google"@.len());
    }
    assert("minimax-cn"@ != "groq"@) by {
        assert("minimax-cn"@.len() != "groq"@.len());
    }
    assert("minimax-cn"@ != "cerebras"@) by {
        assert("minimax-cn"@.len() != "cerebras"@.len());
    }
    assert("minimax-cn"@ != "xai"@) by {
        assert("minimax-cn"@.len() != "xai"@.len());
    }
    assert("minimax-cn"@ != "openrouter"@) by {
        assert("minimax-cn"@[0] != "openrouter"@[0]);
    }
    assert("minimax-cn"@ != "vercel-ai-gateway"@) by {
        assert("minimax-cn"@.len() != "vercel-ai-gateway"@.len());
    }
    assert("minimax-cn"@ != "zai"@) by {
        assert("minimax-cn"@.len() != "zai"@.len());
    }
    assert("minimax-cn"@ != "mistral"@) by {
        assert("minimax-cn"@.len() != "mistral"@.len());
    }
    assert("minimax-cn"@ != "minimax"@) by {
        assert("minimax-cn"@.len() != "minimax"@.len());
    }
}

proof fn lemma_key_var_huggingface(env: Seq<(Seq<char>, Seq<char>)>, adc_exists: bool)
    ensures
        spec_env_api_key("huggingface"@, env, adc_exists) == env_get(env, "HF_TOKEN"@),
{
    reveal_strlit("huggingface");
    reveal_strlit("github-copilot");
    reveal_strlit("anthropic");
    reveal_strlit("google-vertex");
    reveal_strlit("amazon-bedrock");
    reveal_strlit("openai");
    reveal_strlit("azure-openai-responses");
    reveal_strlit("google");
    reveal_strlit("groq");
    reveal_strlit("cerebras");
    reveal_strlit("xai");
    reveal_strlit("openrouter");
    reveal_strlit("vercel-ai-gateway");
    reveal_strlit("zai");
    reveal_strlit("mistral");
    reveal_strlit("minimax");
    reveal_strlit("minimax-cn");
    assert("huggingface"@ != "github-copilot"@) by {
        assert("huggingface"@.len() != "github-copilot"@.len());
    }
    assert("huggingface"@ != "anthropic"@) by {
        assert("huggingface"@.len() != "anthropic"@.len());
    }
    assert("huggingface"@ != "google-vertex"@) by {
        assert("huggingface"@.len() != "google-vertex"@.len());
    }
    assert("huggingface"@ != "amazon-bedrock"@) by {
        assert("huggingface"@.len() != "amazon-bedrock"@.len());
    }
    assert("huggingface"@ != "openai"@) by {
        assert("huggingface"@.len() != "openai"@.len());
    }
    assert("huggingface"@ != "azure-openai-responses"@) by {
        assert("huggingface"@.len() != "azure-openai-responses"@.len());
    }
    assert("huggingface"@ != "google"@) by {
        assert("huggingface"@.len() != "google"@.len());
    }
    assert("huggingface"@ != "groq"@) by {
        assert("huggingface"@.len() != "groq"@.len());
    }
    assert("huggingface"@ != "cerebras"@) by {
        assert("huggingface"@.len() != "cerebras"@.len());
    }
    assert("huggingface"@ != "xai"@) by {
        assert("huggingface"@.len() != "xai"@.len());
    }
    assert("huggingface"@ != "openrouter"@) by {
        assert("huggingface"@.len() != "openrouter"@.len());
    }
    assert("huggingface"@ != "vercel-ai-gateway"@) by {
        assert("huggingface"@.len() != "vercel-ai-gateway"@.len());
    }
    assert("huggingface"@ != "zai"@) by {
        assert("huggingface"@.len() != "zai"@.len());
    }
    assert("huggingface"@ != "mistral"@) by {
        assert("huggingface"@.len() != "mistral"@.len());
    }
    assert("huggingface"@ != "minimax"@) by {
        assert("huggingface"@.len() != "minimax"@.len());
    }
    assert("huggingface"@ != "minimax-cn"@) by {
        assert("huggingface"@.len() != "minimax-cn"@.len());
    }
}

proof fn lemma_key_var_opencode(env: Seq<(Seq<char>, Seq<char>)>, adc_exists: bool)
    ensures
        spec_env_api_key("opencode"@, env, adc_exists) == env_get(env, "OPENCODE_API_KEY"@),
{
    reveal_strlit("opencode");
    reveal_strlit("github-copilot");
    reveal_strlit("anthropic");
    reveal_strlit("google-vertex");
    reveal_strlit("amazon-bedrock");
    reveal_strlit("openai");
    reveal_strlit("azure-openai-responses");
    reveal_strlit("google");
    reveal_strlit("groq");
    reveal_strlit("cerebras");
    reveal_strlit("xai");
    reveal_strlit("openrouter");
    reveal_strlit("vercel-ai-gateway");
    reveal_strlit("zai");
    reveal_strlit("mistral");
    reveal_strlit("minimax");
    reveal_strlit("minimax-cn");
    reveal_strlit("huggingface");
    assert("opencode"@ != "github-copilot"@) by {
        assert("opencode"@.len() != "github-copilot"@.len());
    }
    assert("opencode"@ != "anthropic"@) by {
        assert("opencode"@.len() != "anthropic"@.len());
    }
    assert("opencode"@ != "google-vertex"@) by {
        assert("opencode"@.len() != "google-vertex"@.len());
    }
    assert("opencode"@ != "amazon-bedrock"@) by {
        assert("opencode"@.len() != "amazon-bedrock"@.len());
    }
    assert("opencode"@ != "openai"@) by {
        assert("opencode"@.len() != "openai"@.len());
    }
    assert("opencode"@ != "azure-openai-responses"@) by {
        assert("opencode"@.len() != "azure-openai-responses"@.len());
    }
    assert("opencode"@ != "google"@) by {
        assert("opencode"@.len() != "google"@.len());
    }
    assert("opencode"@ != "groq"@) by {
        assert("opencode"@.len() != "groq"@.len());
    }
    assert("opencode"@ != "cerebras"@) by {
        assert("opencode"@[0] != "cerebras"@[0]);
    }
    assert("opencode"@ != "xai"@) by {
        assert("opencode"@.len() != "xai"@.len());
    }
    assert("opencode"@ != "openrouter"@) by {
        assert("opencode"@.len() != "openrouter"@.len());
    }
    assert("opencode"@ != "vercel-ai-gateway"@) by {
        assert("opencode"@.len() != "vercel-ai-gateway"@.len());
    }
    assert("opencode"@ != "zai"@) by {
        assert("opencode"@.len() != "zai"@.len());
    }
    assert("opencode"@ != "mistral"@) by {
        assert("opencode"@.len() != "mistral"@.len());
    }
    assert("opencode"@ != "minimax"@) by {
        assert("opencode"@.len() != "minimax"@.len());
    }
    assert("opencode"@ != "minimax-cn"@) by {
        assert("opencode"@.len() != "minimax-cn"@.len());
    }
    assert("opencode"@ != "huggingface"@) by {
        assert("opencode"@.len() != "huggingface"@.len());
    }
}

proof fn lemma_key_var_opencode_go(env: Seq<(Seq<char>, Seq<char>)>, adc_exists: bool)
    ensures
        spec_env_api_key("opencode-go"@, env, adc_exists) == env_get(env, "OPENCODE_API_KEY"@),
{
    reveal_strlit("opencode-go");
    reveal_strlit("github-copilot");
    reveal_strlit("anthropic");
    reveal_strlit("google-vertex");
    reveal_strlit("amazon-bedrock");
    reveal_strlit("openai");
    reveal_strlit("azure-openai-responses");
    reveal_strlit("google");
    reveal_strlit("groq");
    reveal_strlit("cerebras");
    reveal_strlit("xai");
    reveal_strlit("openrouter");
    reveal_strlit("vercel-ai-gateway");
    reveal_strlit("zai");
    reveal_strlit("mistral");
    reveal_strlit("minimax");
    reveal_strlit("minimax-cn");
    reveal_strlit("huggingface");
    assert("opencode-go"@ != "github-copilot"@) by {
        assert("opencode-go"@.len() != "github-copilot"@.len());
    }
    assert("opencode-go"@ != "anthropic"@) by {
        assert("opencode-go"@.len() != "anthropic"@.len());
    }
    assert("opencode-go"@ != "google-vertex"@) by {
        assert("opencode-go"@.len() != "google-vertex"@.len());
    }
    assert("opencode-go"@ != "amazon-bedrock"@) by {
        assert("opencode-go"@.len() != "amazon-bedrock"@.len());
    }
    assert("opencode-go"@ != "openai"@) by {
        assert("opencode-go"@.len() != "openai"@.len());
    }
    assert("opencode-go"@ != "azure-openai-responses"@) by {
        assert("opencode-go"@.len() != "azure-openai-responses"@.len());
    }
    assert("opencode-go"@ != "google"@) by {
        assert("opencode-go"@.len() != "google"@.len());
    }
    assert("opencode-go"@ != "groq"@) by {
        assert("opencode-go"@.len() != "groq"@.len());
    }
    assert("opencode-go"@ != "cerebras"@) by {
        assert("opencode-go"@.len() != "cerebras"@.len());
    }
    assert("opencode-go"@ != "xai"@) by {
        assert("opencode-go"@.len() != "xai"@.len());
    }
    assert("opencode-go"@ != "openrouter"@) by {
        assert("opencode-go"@.len() != "openrouter"@.len());
    }
    assert("opencode-go"@ != "vercel-ai-gateway"@) by {
        assert("opencode-go"@.len() != "vercel-ai-gateway"@.len());
    }
    assert("opencode-go"@ != "zai"@) by {
        assert("opencode-go"@.len() != "zai"@.len());
    }
    assert("opencode-go"@ != "mistral"@) by {
        assert("opencode-go"@.len() != "mistral"@.len());
    }
    assert("opencode-go"@ != "minimax"@) by {
        assert("opencode-go"@.len() != "minimax"@.len());
    }
    assert("opencode-go"@ != "minimax-cn"@) by {
        assert("opencode-go"@.len() != "minimax-cn"@.len());
    }
    assert("opencode-go"@ != "huggingface"@) by {
        assert("opencode-go"@[0] != "huggingface"@[0]);
    }
}

proof fn lemma_key_var_kimi_coding(env: Seq<(Seq<char>, Seq<char>)>, adc_exists: bool)
    ensures
        spec_env_api_key("kimi-coding"@, env, adc_exists) == env_get(env, "KIMI_API_KEY"@),
{
    reveal_strlit("kimi-coding");
    reveal_strlit("github-copilot");
    reveal_strlit("anthropic");
    reveal_strlit("google-vertex");
    reveal_strlit("amazon-bedrock");
    reveal_strlit("openai");
    reveal_strlit("azure-openai-responses");
    reveal_strlit("google");
    reveal_strlit("groq");
    reveal_strlit("cerebras");
    reveal_strlit("xai");
    reveal_strlit("openrouter");
    reveal_strlit("vercel-ai-gateway");
    reveal_strlit("zai");
    reveal_strlit("mistral");
    reveal_strlit("minimax");
    reveal_strlit("minimax-cn");
    reveal_strlit("huggingface");
    reveal_strlit("opencode");
    reveal_strlit("opencode-go");
    assert("kimi-coding"@ != "github-copilot"@) by {
        assert("kimi-coding"@.len() != "github-copilot"@.len());
    }
    assert("kimi-coding"@ != "anthropic"@) by {
        assert("kimi-coding"@.len() != "anthropic"@.len());
    }
    assert("kimi-coding"@ != "google-vertex"@) by {
        assert("kimi-coding"@.len() != "google-vertex"@.len());
    }
    assert("kimi-coding"@ != "amazon-bedrock"@) by {
        assert("kimi-coding"@.len() != "amazon-bedrock"@.len());
    }
    assert("kimi-coding"@ != "openai"@) by {
        assert("kimi-coding"@.len() != "openai"@.len());
    }
    assert("kimi-coding"@ != "azure-openai-responses"@) by {
        assert("kimi-coding"@.len() != "azure-openai-responses"@.len());
    }
    assert("kimi-coding"@ != "google"@) by {
        assert("kimi-coding"@.len() != "google"@.len());
    }
    assert("kimi-coding"@ != "groq"@) by {
        assert("kimi-coding"@.len() != "groq"@.len());
    }
    assert("kimi-coding"@ != "cerebras"@) by {
        assert("kimi-coding"@.len() != "cerebras"@.len());
    }
    assert("kimi-coding"@ != "xai"@) by {
        assert("kimi-coding"@.len() != "xai"@.len());
    }
    assert("kimi-coding"@ != "openrouter"@) by {
        assert("kimi-coding"@.len() != "openrouter"@.len());
    }
    assert("kimi-coding"@ != "vercel-ai-gateway"@) by {
        assert("kimi-coding"@.len() != "vercel-ai-gateway"@.len());
    }
    assert("kimi-coding"@ != "zai"@) by {
        assert("kimi-coding"@.len() != "zai"@.len());
    }
    assert("kimi-coding"@ != "mistral"@) by {
        assert("kimi-coding"@.len() != "mistral"@.len());
    }
    assert("kimi-coding"@ != "minimax"@) by {
        assert("kimi-coding"@.len() != "minimax"@.len());
    }
    assert("kimi-coding"@ != "minimax-cn"@) by {
        assert("kimi-coding"@.len() != "minimax-cn"@.len());
    }
    assert("kimi-coding"@ != "huggingface"@) by {
        assert("kimi-coding"@[0] != "huggingface"@[0]);
    }
    assert("kimi-coding"@ != "opencode"@) by {
        assert("kimi-coding"@.len() != "opencode"@.len());
    }
    assert("kimi-coding"@ != "opencode-go"@) by {
        assert("kimi-coding"@[0] != "opencode-go"@[0]);
    }
}

fn env_set(env: &Vec<(String, String)>, name: &str) -> (r: bool)
    ensures
        r == env_has(str_pairs(env@), name@),
{
    env_var(env, name).is_some()
}

/// Finds a provider's API key in the environment; `adc_exists` tells whether
/// the credentials file of `adc_path` exists.
pub fn get_env_api_key(provider: &str, env: &Vec<(String, String)>, adc_exists: bool) -> (r: Option<String>)
    ensures
        match r {
            Some(k) => spec_env_api_key(provider@, str_pairs(env@), adc_exists) == Some(k@),
            None => spec_env_api_key(provider@, str_pairs(env@), adc_exists) is None,
        },
{
    let ghost e = str_pairs(env@);
    if str_eq(provider, "github-copilot") {
        proof {
            reveal_with_fuel(first_set, 4);
            let names = seq!["COPILOT_GITHUB_TOKEN"@, "GH_TOKEN"@, "GITHUB_TOKEN"@];
            assert(names[0] == "COPILOT_GITHUB_TOKEN"@);
            assert(names.drop_first() =~= seq!["GH_TOKEN"@, "GITHUB_TOKEN"@]);
            assert(names.drop_first().drop_first() =~= seq!["GITHUB_TOKEN"@]);
            assert(names.drop_first().drop_first().drop_first() =~= Seq::<Seq<char>>::empty());
        }
        match env_var(env, "COPILOT_GITHUB_TOKEN") {
            Some(v) => Some(v),
            None => match env_var(env, "GH_TOKEN") {
                Some(v) => Some(v),
                None => env_var(env, "GITHUB_TOKEN"),
            },
        }
    } else if str_eq(provider, "anthropic") {
        proof {
            reveal_with_fuel(first_set, 3);
            let names = seq!["ANTHROPIC_OAUTH_TOKEN"@, "ANTHROPIC_API_KEY"@];
            assert(names[0] == "ANTHROPIC_OAUTH_TOKEN"@);
            assert(names.drop_first() =~= seq!["ANTHROPIC_API_KEY"@]);
            assert(names.drop_first().drop_first() =~= Seq::<Seq<char>>::empty());
        }
        match env_var(env, "ANTHROPIC_OAUTH_TOKEN") {
            Some(v) => Some(v),
            None => env_var(env, "ANTHROPIC_API_KEY"),
        }
    } else if str_eq(provider, "google-vertex") {
        let has_project = env_set(env, "GOOGLE_CLOUD_PROJECT") || env_set(env, "GCLOUD_PROJECT");
        let has_location = env_set(env, "GOOGLE_CLOUD_LOCATION");
        if adc_exists && has_project && has_location {
            Some("<authenticated>".to_owned())
        } else {
            None
        }
    } else if str_eq(provider, "amazon-bedrock") {
        if env_set(env, "AWS_PROFILE") || (env_set(env, "AWS_ACCESS_KEY_ID") && env_set(
            env,
            "AWS_SECRET_ACCESS_KEY",
        )) || env_set(env, "AWS_BEARER_TOKEN_BEDROCK") || env_set(env, "AWS_CONTAINER_CREDENTIALS_RELATIVE_URI")
            || env_set(env, "AWS_CONTAINER_CREDENTIALS_FULL_URI") || env_set(env, "AWS_WEB_IDENTITY_TOKEN_FILE") {
            Some("<authenticated>".to_owned())
        } else {
            None
        }
    } else {
        match key_var(provider) {
            Some(var) => env_var(env, var),
            None => None,
        }
    }
}

} // verus!
