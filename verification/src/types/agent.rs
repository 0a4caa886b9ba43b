//! The agent card and what it declares: interfaces, capabilities, skills,
//! extensions and the provider.

use vstd::prelude::*;
use super::Metadata;
use super::security::{SecurityRequirement, SecurityScheme};

verus! {

/// The version of the A2A protocol that interfaces expose by default.
pub const PROTOCOL_VERSION: &'static str = "1.0";

/// A transport protocol identifier; any string is allowed, and three are
/// well known.
#[derive(Debug, Default)]
pub struct TransportProtocol(pub String);

impl View for TransportProtocol {
    type V = Seq<char>;

    open spec fn view(&self) -> Seq<char> {
        self.0@
    }
}

impl Clone for TransportProtocol {
    fn clone(&self) -> (r: Self)
        ensures
            r@ == self@,
    {
        TransportProtocol(self.0.clone())
    }
}

impl TransportProtocol {
    /// JSON-RPC over HTTP.
    pub const JSONRPC: &'static str = "JSONRPC";
    /// gRPC transport.
    pub const GRPC: &'static str = "GRPC";
    /// HTTP+JSON (REST-like).
    pub const HTTP_JSON: &'static str = "HTTP+JSON";

    /// A protocol with the given name.
    pub fn new(protocol: &str) -> (r: Self)
        ensures
            r@ == protocol@,
    {
        TransportProtocol(protocol.to_owned())
    }

    /// The protocol's name.
    pub fn as_str(&self) -> (r: &str)
        ensures
            r@ == self@,
    {
        self.0.as_str()
    }

    /// Whether this is JSON-RPC.
    pub fn is_jsonrpc(&self) -> (r: bool)
        ensures
            r == (self@ == "JSONRPC"@),
    {
        crate::text::str_eq(self.0.as_str(), Self::JSONRPC)
    }

    /// Whether this is gRPC.
    pub fn is_grpc(&self) -> (r: bool)
        ensures
            r == (self@ == "GRPC"@),
    {
        crate::text::str_eq(self.0.as_str(), Self::GRPC)
    }

    /// Whether this is HTTP+JSON.
    pub fn is_http_json(&self) -> (r: bool)
        ensures
            r == (self@ == "HTTP+JSON"@),
    {
        crate::text::str_eq(self.0.as_str(), Self::HTTP_JSON)
    }
}

impl<'a> From<&'a str> for TransportProtocol {
    fn from(s: &'a str) -> (r: Self)
        ensures
            r@ == s@,
    {
        TransportProtocol(s.to_owned())
    }
}

/// Conversions from text are specified on `from` itself (the protocol has
/// the text's characters), not through `from_spec`: the `String` they
/// build cannot be singled out among strings with the same characters.
impl<'a> vstd::std_specs::convert::FromSpecImpl<&'a str> for TransportProtocol {
    open spec fn obeys_from_spec() -> bool {
        false
    }

    open spec fn from_spec(s: &'a str) -> Self {
        choose|r: TransportProtocol| #[trigger] r@ == s@
    }
}

impl From<String> for TransportProtocol {
    fn from(s: String) -> (r: Self) {
        TransportProtocol(s)
    }
}

impl vstd::std_specs::convert::FromSpecImpl<String> for TransportProtocol {
    open spec fn obeys_from_spec() -> bool {
        true
    }

    open spec fn from_spec(s: String) -> Self {
        TransportProtocol(s)
    }
}

/// An endpoint of the agent: URL, transport and protocol version.
#[derive(Debug)]
pub struct AgentInterface {
    /// Where the interface is available.
    pub url: String,
    /// The protocol binding at this URL.
    pub protocol_binding: TransportProtocol,
    /// Tenant to set in requests to the agent, if any.
    pub tenant: Option<String>,
    /// The A2A protocol version the interface exposes.
    pub protocol_version: String,
}

impl Clone for AgentInterface {
    fn clone(&self) -> (r: Self)
        ensures
            r.url@ == self.url@,
            r.protocol_binding@ == self.protocol_binding@,
            r.tenant == self.tenant,
            r.protocol_version@ == self.protocol_version@,
    {
        AgentInterface {
            url: self.url.clone(),
            protocol_binding: self.protocol_binding.clone(),
            tenant: super::clone_opt_string(&self.tenant),
            protocol_version: self.protocol_version.clone(),
        }
    }
}

impl AgentInterface {
    /// An interface at `url` with the given binding, no tenant, and the
    /// current protocol version.
    pub fn new(url: &str, protocol_binding: TransportProtocol) -> (r: Self)
        ensures
            r.url@ == url@,
            r.protocol_binding == protocol_binding,
            r.tenant is None,
            r.protocol_version@ == PROTOCOL_VERSION@,
    {
        AgentInterface {
            url: url.to_owned(),
            protocol_binding,
            tenant: None,
            protocol_version: PROTOCOL_VERSION.to_owned(),
        }
    }
}

/// Optional capabilities of an agent.
#[derive(Debug, Default)]
pub struct AgentCapabilities {
    /// Whether the agent streams responses.
    pub streaming: Option<bool>,
    /// Whether the agent sends push notifications.
    pub push_notifications: Option<bool>,
    /// Protocol extensions the agent supports.
    pub extensions: Vec<AgentExtension>,
    /// Whether the agent gives an extended card to authenticated callers.
    pub extended_agent_card: Option<bool>,
}

/// A capability of an agent, with examples and the media types it takes.
#[derive(Debug)]
pub struct AgentSkill {
    /// Unique identifier of the skill.
    pub id: String,
    /// Human-readable name.
    pub name: String,
    /// Detailed description.
    pub description: String,
    /// Keywords describing the skill.
    pub tags: Vec<String>,
    /// Example prompts or scenarios.
    pub examples: Vec<String>,
    /// Accepted input media types (overriding the agent's defaults).
    pub input_modes: Vec<String>,
    /// Produced output media types (overriding the agent's defaults).
    pub output_modes: Vec<String>,
    /// Security requirements for this skill.
    pub security_requirements: Vec<SecurityRequirement>,
}

impl AgentSkill {
    /// A skill with the given fields and nothing else.
    pub fn new(id: &str, name: &str, description: &str, tags: Vec<String>) -> (r: Self)
        ensures
            r.id@ == id@,
            r.name@ == name@,
            r.description@ == description@,
            r.tags == tags,
            r.examples@.len() == 0,
            r.input_modes@.len() == 0,
            r.output_modes@.len() == 0,
            r.security_requirements@.len() == 0,
    {
        AgentSkill {
            id: id.to_owned(),
            name: name.to_owned(),
            description: description.to_owned(),
            tags,
            examples: Vec::new(),
            input_modes: Vec::new(),
            output_modes: Vec::new(),
            security_requirements: Vec::new(),
        }
    }

    /// Sets the examples.
    pub fn with_examples(self, examples: Vec<String>) -> (r: Self)
        ensures
            r == (AgentSkill { examples, ..self }),
    {
        AgentSkill { examples, ..self }
    }
}

/// A protocol extension the agent supports.
#[derive(Debug)]
pub struct AgentExtension {
    /// The URI identifying the extension.
    pub uri: String,
    /// How the agent uses the extension.
    pub description: Option<String>,
    /// Whether clients must understand the extension.
    pub required: bool,
    /// Extension-specific parameters.
    pub params: Option<Metadata>,
}

/// The organization that provides an agent.
#[derive(Debug)]
pub struct AgentProvider {
    /// The organization's name.
    pub organization: String,
    /// The organization's website.
    pub url: String,
}

impl AgentProvider {
    /// A provider with the given name and website.
    pub fn new(organization: &str, url: &str) -> (r: Self)
        ensures
            r.organization@ == organization@,
            r.url@ == url@,
    {
        AgentProvider { organization: organization.to_owned(), url: url.to_owned() }
    }
}

/// A JWS signature of an agent card.
#[derive(Debug)]
pub struct AgentCardSignature {
    /// The protected header (Base64url-encoded JSON).
    pub protected: String,
    /// The signature (Base64url-encoded).
    pub signature: String,
    /// The unprotected header values.
    pub header: Option<Metadata>,
}

/// The self-description an agent publishes.
#[derive(Debug)]
pub struct AgentCard {
    /// Human-readable name.
    pub name: String,
    /// Human-readable description.
    pub description: String,
    /// Supported interfaces; the first is preferred.
    pub supported_interfaces: Vec<AgentInterface>,
    /// The service provider.
    pub provider: Option<AgentProvider>,
    /// The agent's own version.
    pub version: String,
    /// Documentation URL.
    pub documentation_url: Option<String>,
    /// Supported capabilities.
    pub capabilities: AgentCapabilities,
    /// Security schemes by name.
    pub security_schemes: Vec<(String, SecurityScheme)>,
    /// Security requirements for contacting the agent.
    pub security_requirements: Vec<SecurityRequirement>,
    /// Default accepted input media types.
    pub default_input_modes: Vec<String>,
    /// Default produced output media types.
    pub default_output_modes: Vec<String>,
    /// The agent's skills.
    pub skills: Vec<AgentSkill>,
    /// Signatures of the card.
    pub signatures: Vec<AgentCardSignature>,
    /// Icon URL.
    pub icon_url: Option<String>,
}

/// `i` is the first position of a skill with id `id`.
pub open spec fn is_first_skill(skills: Seq<AgentSkill>, id: Seq<char>, i: int) -> bool {
    &&& 0 <= i < skills.len()
    &&& skills[i].id@ == id
    &&& forall|j: int| 0 <= j < i ==> skills[j].id@ != id
}

/// `i` is the first position of an interface with binding `p`.
pub open spec fn is_first_interface(ifs: Seq<AgentInterface>, p: Seq<char>, i: int) -> bool {
    &&& 0 <= i < ifs.len()
    &&& ifs[i].protocol_binding@ == p
    &&& forall|j: int| 0 <= j < i ==> ifs[j].protocol_binding@ != p
}

impl AgentCard {
    /// A card with the given name, description and interfaces, version
    /// `1.0.0`, default capabilities, `text/plain` as input and output mode,
    /// and nothing else.
    pub fn new(name: &str, description: &str, interfaces: Vec<AgentInterface>) -> (r: Self)
        ensures
            r.name@ == name@,
            r.description@ == description@,
            r.supported_interfaces == interfaces,
            r.provider is None,
            r.version@ == "1.0.0"@,
            r.documentation_url is None,
            r.capabilities.streaming is None,
            r.capabilities.push_notifications is None,
            r.capabilities.extensions@.len() == 0,
            r.capabilities.extended_agent_card is None,
            r.security_schemes@.len() == 0,
            r.security_requirements@.len() == 0,
            r.default_input_modes.deep_view() == seq!["text/plain"@],
            r.default_output_modes.deep_view() == seq!["text/plain"@],
            r.skills@.len() == 0,
            r.signatures@.len() == 0,
            r.icon_url is None,
    {
        let mut input_modes: Vec<String> = Vec::new();
        input_modes.push("text/plain".to_owned());
        let mut output_modes: Vec<String> = Vec::new();
        output_modes.push("text/plain".to_owned());
        assert(input_modes.deep_view() =~= seq!["text/plain"@]);
        assert(output_modes.deep_view() =~= seq!["text/plain"@]);
        AgentCard {
            name: name.to_owned(),
            description: description.to_owned(),
            supported_interfaces: interfaces,
            provider: None,
            version: "1.0.0".to_owned(),
            documentation_url: None,
            capabilities: AgentCapabilities {
                streaming: None,
                push_notifications: None,
                extensions: Vec::new(),
                extended_agent_card: None,
            },
            security_schemes: Vec::new(),
            security_requirements: Vec::new(),
            default_input_modes: input_modes,
            default_output_modes: output_modes,
            skills: Vec::new(),
            signatures: Vec::new(),
            icon_url: None,
        }
    }

    /// Whether the agent streams responses (false when unsaid).
    pub fn supports_streaming(&self) -> (r: bool)
        ensures
            r == (self.capabilities.streaming == Some(true)),
    {
        match self.capabilities.streaming {
            Some(b) => b,
            None => false,
        }
    }

    /// Whether the agent sends push notifications (false when unsaid).
    pub fn supports_push_notifications(&self) -> (r: bool)
        ensures
            r == (self.capabilities.push_notifications == Some(true)),
    {
        match self.capabilities.push_notifications {
            Some(b) => b,
            None => false,
        }
    }

    /// Whether the agent gives an extended card (false when unsaid).
    pub fn supports_extended_card(&self) -> (r: bool)
        ensures
            r == (self.capabilities.extended_agent_card == Some(true)),
    {
        match self.capabilities.extended_agent_card {
            Some(b) => b,
            None => false,
        }
    }

    /// The first skill with the given id.
    pub fn find_skill(&self, skill_id: &str) -> (r: Option<&AgentSkill>)
        ensures
            match r {
                Some(s) => exists|i: int| is_first_skill(self.skills@, skill_id@, i) && self.skills@[i] == *s,
                None => forall|i: int| 0 <= i < self.skills@.len() ==> self.skills@[i].id@ != skill_id@,
            },
    {
        let mut i: usize = 0;
        while i < self.skills.len()
            invariant
                i <= self.skills.len(),
                forall|j: int| 0 <= j < i ==> self.skills@[j].id@ != skill_id@,
            decreases self.skills.len() - i,
        {
            if crate::text::str_eq(self.skills[i].id.as_str(), skill_id) {
                assert(is_first_skill(self.skills@, skill_id@, i as int));
                return Some(&self.skills[i]);
            }
            i = i + 1;
        }
        None
    }

    /// The preferred (first) interface.
    pub fn preferred_interface(&self) -> (r: Option<&AgentInterface>)
        ensures
            self.supported_interfaces@.len() == 0 ==> r is None,
            self.supported_interfaces@.len() > 0 ==> r == Some(&self.supported_interfaces@[0]),
    {
        if self.supported_interfaces.len() == 0 {
            None
        } else {
            Some(&self.supported_interfaces[0])
        }
    }

    /// The first interface with the given binding.
    pub fn find_interface(&self, protocol: &TransportProtocol) -> (r: Option<&AgentInterface>)
        ensures
            match r {
                Some(x) => exists|i: int| is_first_interface(self.supported_interfaces@, protocol@, i)
                    && self.supported_interfaces@[i] == *x,
                None => forall|i: int| 0 <= i < self.supported_interfaces@.len()
                    ==> self.supported_interfaces@[i].protocol_binding@ != protocol@,
            },
    {
        let mut i: usize = 0;
        while i < self.supported_interfaces.len()
            invariant
                i <= self.supported_interfaces.len(),
                forall|j: int| 0 <= j < i ==> self.supported_interfaces@[j].protocol_binding@ != protocol@,
            decreases self.supported_interfaces.len() - i,
        {
            if crate::text::str_eq(self.supported_interfaces[i].protocol_binding.as_str(), protocol.as_str()) {
                assert(is_first_interface(self.supported_interfaces@, protocol@, i as int));
                return Some(&self.supported_interfaces[i]);
            }
            i = i + 1;
        }
        None
    }
}

} // verus!
