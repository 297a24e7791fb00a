//! The handle through which every command reaches the agent.

use vstd::prelude::*;
use vstd::string::*;
use crate::utils::text::{optional_str, optional_text};

verus! {

/// The kinds of agent that can be talked to. One handle is built for each
/// run, for one of these.
#[derive(Debug, Clone, Copy, PartialEq, Eq, Structural)]
pub enum SupportedAgent {
    /// An ACA-Py agent, reached over HTTP.
    AriesCloudagentPython,
}

/// What becomes of a command's output.
#[derive(Debug, Clone, Copy, PartialEq, Eq, Structural)]
pub enum OutputMode {
    /// Nothing is shown.
    Suppressed,
    /// The output goes to the clipboard.
    CopyToClipboard,
    /// The output is printed.
    Normal,
}

/// The output mode that the two flags ask for: `--copy` sends the output to
/// the clipboard, whatever `--suppress-output` says; without it,
/// `--suppress-output` silences the output.
pub open spec fn output_mode_of(copy: bool, suppress_output: bool) -> OutputMode {
    if copy {
        OutputMode::CopyToClipboard
    } else if suppress_output {
        OutputMode::Suppressed
    } else {
        OutputMode::Normal
    }
}

/// Chooses the output mode from the two flags.
pub fn output_mode(copy: bool, suppress_output: bool) -> (mode: OutputMode)
    ensures
        mode == output_mode_of(copy, suppress_output),
{
    if copy {
        OutputMode::CopyToClipboard
    } else if suppress_output {
        OutputMode::Suppressed
    } else {
        OutputMode::Normal
    }
}

/// What one invocation runs with: where the agent is, the key it expects,
/// if any, and what becomes of the output.
#[derive(Debug, PartialEq, Eq)]
pub struct RunConfiguration {
    pub endpoint: String,
    pub api_key: Option<String>,
    pub output: OutputMode,
}

/// A run configuration as contracts see it.
pub struct RunConfigurationView {
    pub endpoint: Seq<char>,
    pub api_key: Option<Seq<char>>,
    pub output: OutputMode,
}

impl View for RunConfiguration {
    type V = RunConfigurationView;

    open spec fn view(&self) -> RunConfigurationView {
        RunConfigurationView {
            endpoint: self.endpoint@,
            api_key: optional_text(self.api_key),
            output: self.output,
        }
    }
}

/// An agent handle as contracts see it.
pub struct AgentView {
    pub backend: SupportedAgent,
    pub endpoint: Seq<char>,
    pub api_key: Option<Seq<char>>,
    pub output: OutputMode,
}

/// The one object through which commands reach the agent. It is built once,
/// from the kind of agent and the run configuration, and cannot be changed
/// afterwards.
#[derive(Debug, PartialEq, Eq)]
pub struct AgentHandle {
    backend: SupportedAgent,
    endpoint: String,
    api_key: Option<String>,
    output: OutputMode,
}

impl View for AgentHandle {
    type V = AgentView;

    closed spec fn view(&self) -> AgentView {
        AgentView {
            backend: self.backend,
            endpoint: self.endpoint@,
            api_key: optional_text(self.api_key),
            output: self.output,
        }
    }
}

/// The handle that `backend` and `configuration` make.
pub open spec fn agent_of(backend: SupportedAgent, configuration: RunConfigurationView) -> AgentView {
    AgentView {
        backend,
        endpoint: configuration.endpoint,
        api_key: configuration.api_key,
        output: configuration.output,
    }
}

/// The HTTP methods that commands use.
#[derive(Debug, Clone, Copy, PartialEq, Eq, Structural)]
pub enum Method {
    Get,
    Post,
    Put,
    Delete,
}

/// The name of a method as HTTP writes it.
pub open spec fn method_name(method: Method) -> Seq<char> {
    match method {
        Method::Get => "GET"@,
        Method::Post => "POST"@,
        Method::Put => "PUT"@,
        Method::Delete => "DELETE"@,
    }
}

impl Method {
    /// The name of this method as HTTP writes it.
    pub fn as_str(self) -> (name: &'static str)
        ensures
            name@ == method_name(self),
    {
        match self {
            Method::Get => "GET",
            Method::Post => "POST",
            Method::Put => "PUT",
            Method::Delete => "DELETE",
        }
    }
}

/// One call to the agent, ready to be sent.
#[derive(Debug, PartialEq, Eq)]
pub struct Request {
    pub method: Method,
    pub url: String,
    pub api_key: Option<String>,
    pub body: Option<String>,
}

/// A request as contracts see it.
pub struct RequestView {
    pub method: Method,
    pub url: Seq<char>,
    pub api_key: Option<Seq<char>>,
    pub body: Option<Seq<char>>,
}

impl View for Request {
    type V = RequestView;

    open spec fn view(&self) -> RequestView {
        RequestView {
            method: self.method,
            url: self.url@,
            api_key: optional_text(self.api_key),
            body: optional_text(self.body),
        }
    }
}

/// The request that `agent` makes of a method, a path and a body: the path
/// is put behind the endpoint, and the agent's key, if it has one, goes with
/// the request.
pub open spec fn request_of(
    agent: AgentView,
    method: Method,
    path: Seq<char>,
    body: Option<Seq<char>>,
) -> RequestView {
    RequestView { method, url: agent.endpoint + path, api_key: agent.api_key, body }
}

/// A copy of an optional string.
pub fn copy_optional(text: &Option<String>) -> (copy: Option<String>)
    ensures
        copy == *text,
{
    match text {
        Some(t) => Some(t.clone()),
        None => None,
    }
}

impl AgentHandle {
    /// Builds the handle for one run.
    pub fn new(backend: SupportedAgent, configuration: RunConfiguration) -> (agent: AgentHandle)
        ensures
            agent@ == agent_of(backend, configuration@),
    {
        AgentHandle {
            backend,
            endpoint: configuration.endpoint,
            api_key: configuration.api_key,
            output: configuration.output,
        }
    }

    /// The kind of agent behind the handle.
    pub fn backend(&self) -> (backend: SupportedAgent)
        ensures
            backend == self@.backend,
    {
        self.backend
    }

    /// Where the agent is.
    pub fn endpoint(&self) -> (endpoint: &str)
        ensures
            endpoint@ == self@.endpoint,
    {
        self.endpoint.as_str()
    }

    /// The key that the agent expects, if any.
    pub fn api_key(&self) -> (api_key: Option<&str>)
        ensures
            optional_str(api_key) == self@.api_key,
    {
        match &self.api_key {
            Some(key) => Some(key.as_str()),
            None => None,
        }
    }

    /// What becomes of the output.
    pub fn output(&self) -> (output: OutputMode)
        ensures
            output == self@.output,
    {
        self.output
    }

    /// Makes a call to the agent ready: `path` below the endpoint, with the
    /// agent's key where it has one.
    pub fn request(&self, method: Method, path: &str, body: Option<String>) -> (request: Request)
        ensures
            request@ == request_of(self@, method, path@, optional_text(body)),
    {
        let mut url = self.endpoint.clone();
        url.append(path);
        Request { method, url, api_key: copy_optional(&self.api_key), body }
    }

    /// The call that probes whether the agent can be reached: a `GET` of the
    /// endpoint itself.
    pub fn probe(&self) -> (request: Request)
        ensures
            request@ == request_of(self@, Method::Get, Seq::empty(), None),
    {
        proof {
            reveal_strlit("");
        }
        self.request(Method::Get, "", None)
    }
}

} // verus!
