use vstd::prelude::*;
use vstd::string::StringExecFns;

verus! {

/// The model that text turns are sent to.
pub const MODEL_OPENAI: &'static str = "gpt-4o-mini";

/// The credential that enables the text model.
pub const OPENAI_ENV_NAME: &'static str = "OPENAI_API_KEY";

/// The credential that enables speech synthesis.
pub const SPEECH_KEY_ENV_NAME: &'static str = "ELEVENLABS_API_KEY";

/// The setting that names the synthesized voice.
pub const SPEECH_VOICE_ENV_NAME: &'static str = "ELEVEN_VOICE_ID";

/// The endpoint that a voice id is appended to.
pub const SPEECH_ENDPOINT: &'static str = "https://api.elevenlabs.io/v1/text-to-speech/";

/// Why a provider produced nothing.
#[derive(Clone, Copy, Debug, PartialEq, Eq, Structural)]
pub enum GatewayError {
    /// The provider's credential is absent; no call was made.
    ProviderUnavailable,
    /// The call failed, timed out, or returned empty output.
    ProviderError,
}

/// A provider is enabled when it needs no credential or its credential is set.
pub open spec fn is_enabled(env_name: Seq<char>, present: bool) -> bool {
    env_name.len() == 0 || present
}

/// Whether a provider whose credential is `env_name` may be called, given
/// whether that credential is present.
pub fn credential_enabled(env_name: &str, present: bool) -> (r: bool)
    ensures
        r == is_enabled(env_name@, present),
{
    env_name.unicode_len() == 0 || present
}

/// The capability probe made before every provider call.
pub fn probe_credential(env_name: &str, present: bool) -> (r: Result<(), GatewayError>)
    ensures
        r is Ok <==> is_enabled(env_name@, present),
        r is Err ==> r == Err::<(), GatewayError>(GatewayError::ProviderUnavailable),
{
    if credential_enabled(env_name, present) {
        Ok(())
    } else {
        Err(GatewayError::ProviderUnavailable)
    }
}

/// Turns the text a model call returned into a reply: missing or empty text
/// is a provider error.
pub fn accept_reply(content: Option<String>) -> (r: Result<String, GatewayError>)
    ensures
        match content {
            Some(t) => if t@.len() > 0 {
                r is Ok && r->Ok_0@ == t@
            } else {
                r == Err::<String, GatewayError>(GatewayError::ProviderError)
            },
            None => r == Err::<String, GatewayError>(GatewayError::ProviderError),
        },
{
    match content {
        Some(t) => {
            if t.as_str().unicode_len() > 0 {
                Ok(t)
            } else {
                Err(GatewayError::ProviderError)
            }
        },
        None => Err(GatewayError::ProviderError),
    }
}

/// The indices, in order, of the first `n` providers that are enabled.
pub open spec fn enabled_indices(env_names: Seq<Seq<char>>, present: Seq<bool>, n: nat) -> Seq<usize>
    decreases n,
{
    if n == 0 {
        Seq::empty()
    } else {
        let rest = enabled_indices(env_names, present, (n - 1) as nat);
        if is_enabled(env_names[n - 1], present[n - 1]) {
            rest.push((n - 1) as usize)
        } else {
            rest
        }
    }
}

/// The mathematical names of a list of credentials.
pub open spec fn names_view(v: Seq<String>) -> Seq<Seq<char>> {
    v.map_values(|s: String| s@)
}

/// The providers to fan a turn out to: of the candidates listed in priority
/// order, those whose credential is present or not needed, in that order.
pub fn enabled_providers(env_names: &Vec<String>, present: &Vec<bool>) -> (r: Vec<usize>)
    requires
        env_names@.len() == present@.len(),
    ensures
        r@ == enabled_indices(names_view(env_names@), present@, env_names@.len()),
{
    let mut r: Vec<usize> = Vec::new();
    let mut i: usize = 0;
    while i < env_names.len()
        invariant
            i <= env_names@.len(),
            env_names@.len() == present@.len(),
            r@ == enabled_indices(names_view(env_names@), present@, i as nat),
        decreases env_names@.len() - i,
    {
        if credential_enabled(env_names[i].as_str(), present[i]) {
            r.push(i);
        }
        i = i + 1;
    }
    r
}

/// The address that speech for the voice `voice_id` is requested from.
pub fn speech_url(voice_id: &str) -> (r: String)
    ensures
        r@ == SPEECH_ENDPOINT@ + voice_id@,
{
    String::from_str(SPEECH_ENDPOINT).concat(voice_id)
}

} // verus!
