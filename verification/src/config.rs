//! The bot's settings: credentials, model choice, prompt, the external
//! HTTP integrations the assistant may call, and the switches that steer
//! the webhook flow.
use vstd::prelude::*;

verus! {

/// One HTTP header sent to an external integration.
#[derive(Debug)]
pub struct ExternalApiHeader {
    pub key: String,
    pub value: String,
}

/// An external HTTP API that the assistant may call.
#[derive(Debug)]
pub struct ExternalApiIntegration {
    pub id: String,
    pub name: String,
    pub base_url: String,
    pub headers: Vec<ExternalApiHeader>,
    pub documentation: String,
    pub enabled: bool,
}

/// The settings of the bot.
#[derive(Debug)]
pub struct AppConfig {
    pub bot_enabled: bool,
    pub admin_username: String,
    pub admin_password: String,
    pub gemini_api_key: String,
    pub gemini_model: String,
    pub utalk_api_token: String,
    pub utalk_organization_id: String,
    pub utalk_api_url: String,
    pub system_prompt: String,
    pub external_apis: Vec<ExternalApiIntegration>,
    /// Key for the DeepSeek chat API (empty: taken from the environment).
    pub deepseek_api_key: String,
    /// When set, only the phones of `test_allowed_phones` are answered.
    pub test_mode_enabled: bool,
    /// Phones of the testers, in any notation (only digits count).
    pub test_allowed_phones: Vec<String>,
    /// Whether a reply holding `rotation_trigger_keyword` hands the chat
    /// over to a human attendant.
    pub rotation_enabled: bool,
    pub rotation_trigger_keyword: String,
    /// Attendants that take part in the rotation, in order.
    pub rotation_operator_ids: Vec<String>,
}

pub const DEFAULT_ADMIN_USERNAME: &'static str = "admin";

pub const DEFAULT_ADMIN_PASSWORD: &'static str = "admin123";

pub const DEFAULT_GEMINI_MODEL: &'static str = "gemini-3.1-flash-lite";

pub const DEFAULT_UTALK_API_URL: &'static str = "https://app-utalk.umbler.com/api/v1";

pub const DEFAULT_SYSTEM_PROMPT: &'static str = "Você é um assistente virtual atencioso e eficiente da empresa Tubarão Bombas. Seu objetivo é sanar dúvidas de clientes com clareza, consultar sistemas externos quando necessário e oferecer um atendimento excelente.";

pub const DEFAULT_TRIGGER_KEYWORD: &'static str = "[TRANSFERIR]";

pub const EXAMPLE_API_ID: &'static str = "api_exemplo_1";

pub const EXAMPLE_API_NAME: &'static str = "Consulta de Estoque e Produtos";

pub const EXAMPLE_API_BASE_URL: &'static str = "https://api.exemplo.com/v1";

pub const EXAMPLE_API_HEADER_KEY: &'static str = "Authorization";

pub const EXAMPLE_API_HEADER_VALUE: &'static str = "Bearer SEU_TOKEN_AQUI";

pub const EXAMPLE_API_DOCUMENTATION: &'static str = "Permite consultar a disponibilidade de bombas d'água e preços por código do produto ou nome. Endpoint: GET /produtos?busca=nome";

/// The value of an environment variable, or `default` when it is unset.
pub open spec fn env_or(v: Option<String>, default: Seq<char>) -> Seq<char> {
    match v {
        Some(s) => s@,
        None => default,
    }
}

/// The integration that a fresh configuration lists as an example.
pub open spec fn is_example_integration(api: ExternalApiIntegration) -> bool {
    &&& api.id@ == EXAMPLE_API_ID@
    &&& api.name@ == EXAMPLE_API_NAME@
    &&& api.base_url@ == EXAMPLE_API_BASE_URL@
    &&& api.headers@.len() == 1
    &&& api.headers@[0].key@ == EXAMPLE_API_HEADER_KEY@
    &&& api.headers@[0].value@ == EXAMPLE_API_HEADER_VALUE@
    &&& api.documentation@ == EXAMPLE_API_DOCUMENTATION@
    &&& api.enabled
}

fn value_or(v: Option<String>, default: &str) -> (r: String)
    ensures
        r@ == env_or(v, default@),
{
    match v {
        Some(s) => s,
        None => default.to_owned(),
    }
}

impl AppConfig {
    /// The configuration used when none is stored: the bot is on, the
    /// credentials and endpoints come from the environment variables
    /// `ADMIN_USERNAME`, `ADMIN_PASSWORD`, `GEMINI_API_KEY`, `GEMINI_MODEL`,
    /// `UTALK_API_TOKEN`, `UTALK_ORGANIZATION_ID` and `UTALK_API_URL`
    /// (passed here as read, `None` when unset), with their defaults
    /// otherwise, and one example integration is listed.
    pub fn from_env_values(
        admin_username: Option<String>,
        admin_password: Option<String>,
        gemini_api_key: Option<String>,
        gemini_model: Option<String>,
        utalk_api_token: Option<String>,
        utalk_organization_id: Option<String>,
        utalk_api_url: Option<String>,
    ) -> (c: AppConfig)
        ensures
            c.bot_enabled,
            c.admin_username@ == env_or(admin_username, DEFAULT_ADMIN_USERNAME@),
            c.admin_password@ == env_or(admin_password, DEFAULT_ADMIN_PASSWORD@),
            c.gemini_api_key@ == env_or(gemini_api_key, Seq::empty()),
            c.gemini_model@ == env_or(gemini_model, DEFAULT_GEMINI_MODEL@),
            c.utalk_api_token@ == env_or(utalk_api_token, Seq::empty()),
            c.utalk_organization_id@ == env_or(utalk_organization_id, Seq::empty()),
            c.utalk_api_url@ == env_or(utalk_api_url, DEFAULT_UTALK_API_URL@),
            c.system_prompt@ == DEFAULT_SYSTEM_PROMPT@,
            c.external_apis@.len() == 1,
            is_example_integration(c.external_apis@[0]),
            c.deepseek_api_key@ == Seq::<char>::empty(),
            !c.test_mode_enabled,
            c.test_allowed_phones@.len() == 0,
            !c.rotation_enabled,
            c.rotation_trigger_keyword@ == DEFAULT_TRIGGER_KEYWORD@,
            c.rotation_operator_ids@.len() == 0,
    {
        proof {
            reveal_strlit("");
        }
        let mut headers: Vec<ExternalApiHeader> = Vec::new();
        headers.push(
            ExternalApiHeader {
                key: EXAMPLE_API_HEADER_KEY.to_owned(),
                value: EXAMPLE_API_HEADER_VALUE.to_owned(),
            },
        );
        let mut apis: Vec<ExternalApiIntegration> = Vec::new();
        apis.push(
            ExternalApiIntegration {
                id: EXAMPLE_API_ID.to_owned(),
                name: EXAMPLE_API_NAME.to_owned(),
                base_url: EXAMPLE_API_BASE_URL.to_owned(),
                headers,
                documentation: EXAMPLE_API_DOCUMENTATION.to_owned(),
                enabled: true,
            },
        );
        AppConfig {
            bot_enabled: true,
            admin_username: value_or(admin_username, DEFAULT_ADMIN_USERNAME),
            admin_password: value_or(admin_password, DEFAULT_ADMIN_PASSWORD),
            gemini_api_key: value_or(gemini_api_key, ""),
            gemini_model: value_or(gemini_model, DEFAULT_GEMINI_MODEL),
            utalk_api_token: value_or(utalk_api_token, ""),
            utalk_organization_id: value_or(utalk_organization_id, ""),
            utalk_api_url: value_or(utalk_api_url, DEFAULT_UTALK_API_URL),
            system_prompt: DEFAULT_SYSTEM_PROMPT.to_owned(),
            external_apis: apis,
            deepseek_api_key: String::new(),
            test_mode_enabled: false,
            test_allowed_phones: Vec::new(),
            rotation_enabled: false,
            rotation_trigger_keyword: DEFAULT_TRIGGER_KEYWORD.to_owned(),
            rotation_operator_ids: Vec::new(),
        }
    }
}

} // verus!
