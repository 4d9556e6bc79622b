//! Tool servers: which of the configured extensions the agent is told of, and how.
use vstd::prelude::*;

use crate::deep::DeepClone;
use crate::json::{JsonValue, JsonView};

verus! {

/// A header of the requests to a server that is reached over HTTP.
#[derive(Debug, PartialEq, Eq)]
pub struct HttpHeader {
    pub name: String,
    pub value: String,
    pub meta: Option<JsonValue>,
}

/// A variable in the environment of a server that is started as a process.
#[derive(Debug, PartialEq, Eq)]
pub struct EnvVariable {
    pub name: String,
    pub value: String,
    pub meta: Option<JsonValue>,
}

/// A server that is reached over HTTP.
#[derive(Debug, PartialEq, Eq)]
pub struct McpServerHttp {
    pub name: String,
    pub url: String,
    pub headers: Vec<HttpHeader>,
    pub meta: Option<JsonValue>,
}

/// A server that is reached over server-sent events.
#[derive(Debug, PartialEq, Eq)]
pub struct McpServerSse {
    pub name: String,
    pub url: String,
    pub headers: Vec<HttpHeader>,
    pub meta: Option<JsonValue>,
}

/// A server that the agent starts as a process.
#[derive(Debug, PartialEq, Eq)]
pub struct McpServerStdio {
    pub name: String,
    pub command: String,
    pub args: Vec<String>,
    pub env: Vec<EnvVariable>,
    pub meta: Option<JsonValue>,
}

/// A server whose tools the agent may use.
#[derive(Debug, PartialEq, Eq)]
pub enum McpServer {
    Http(McpServerHttp),
    Sse(McpServerSse),
    Stdio(McpServerStdio),
}

/// What an [`HttpHeader`] or an [`EnvVariable`] stands for.
pub struct SettingView {
    pub name: Seq<char>,
    pub value: Seq<char>,
    pub meta: Option<JsonView>,
}

/// What an [`McpServer`] stands for.
pub enum McpServerView {
    Http {
        name: Seq<char>,
        url: Seq<char>,
        headers: Seq<SettingView>,
        meta: Option<JsonView>,
    },
    Sse { name: Seq<char>, url: Seq<char>, headers: Seq<SettingView>, meta: Option<JsonView> },
    Stdio {
        name: Seq<char>,
        command: Seq<char>,
        args: Seq<Seq<char>>,
        env: Seq<SettingView>,
        meta: Option<JsonView>,
    },
}

impl DeepView for HttpHeader {
    type V = SettingView;

    open spec fn deep_view(&self) -> Self::V {
        SettingView { name: self.name@, value: self.value@, meta: self.meta.deep_view() }
    }
}

impl DeepView for EnvVariable {
    type V = SettingView;

    open spec fn deep_view(&self) -> Self::V {
        SettingView { name: self.name@, value: self.value@, meta: self.meta.deep_view() }
    }
}

impl DeepView for McpServer {
    type V = McpServerView;

    open spec fn deep_view(&self) -> Self::V {
        match self {
            McpServer::Http(http) => McpServerView::Http {
                name: http.name@,
                url: http.url@,
                headers: http.headers.deep_view(),
                meta: http.meta.deep_view(),
            },
            McpServer::Sse(sse) => McpServerView::Sse {
                name: sse.name@,
                url: sse.url@,
                headers: sse.headers.deep_view(),
                meta: sse.meta.deep_view(),
            },
            McpServer::Stdio(stdio) => McpServerView::Stdio {
                name: stdio.name@,
                command: stdio.command@,
                args: stdio.args.deep_view(),
                env: stdio.env.deep_view(),
                meta: stdio.meta.deep_view(),
            },
        }
    }
}

impl DeepClone for HttpHeader {
    fn deep_clone(&self) -> (copy: Self) {
        HttpHeader {
            name: self.name.clone(),
            value: self.value.clone(),
            meta: self.meta.deep_clone(),
        }
    }
}

impl DeepClone for EnvVariable {
    fn deep_clone(&self) -> (copy: Self) {
        EnvVariable {
            name: self.name.clone(),
            value: self.value.clone(),
            meta: self.meta.deep_clone(),
        }
    }
}

impl DeepClone for McpServer {
    fn deep_clone(&self) -> (copy: Self) {
        match self {
            McpServer::Http(http) => McpServer::Http(
                McpServerHttp {
                    name: http.name.clone(),
                    url: http.url.clone(),
                    headers: http.headers.deep_clone(),
                    meta: http.meta.deep_clone(),
                },
            ),
            McpServer::Sse(sse) => McpServer::Sse(
                McpServerSse {
                    name: sse.name.clone(),
                    url: sse.url.clone(),
                    headers: sse.headers.deep_clone(),
                    meta: sse.meta.deep_clone(),
                },
            ),
            McpServer::Stdio(stdio) => McpServer::Stdio(
                McpServerStdio {
                    name: stdio.name.clone(),
                    command: stdio.command.clone(),
                    args: stdio.args.deep_clone(),
                    env: stdio.env.deep_clone(),
                    meta: stdio.meta.deep_clone(),
                },
            ),
        }
    }
}

/// The variables that an extension sets in its environment, in the order in which they are
/// handed on.
#[derive(Debug, PartialEq, Eq)]
pub struct Envs {
    map: Vec<(String, String)>,
}

impl View for Envs {
    type V = Seq<(Seq<char>, Seq<char>)>;

    closed spec fn view(&self) -> Self::V {
        self.map.deep_view()
    }
}

impl Envs {
    /// These variables, in this order.
    pub fn new(map: Vec<(String, String)>) -> (envs: Envs)
        ensures
            envs@ == map.deep_view(),
    {
        Envs { map }
    }

    /// A copy of the variables, in order.
    pub fn get_env(&self) -> (variables: Vec<(String, String)>)
        ensures
            variables.deep_view() == self@,
    {
        self.map.deep_clone()
    }
}

impl Default for Envs {
    /// No variables.
    fn default() -> (envs: Envs)
        ensures
            envs@.len() == 0,
    {
        Envs { map: Vec::new() }
    }
}

/// A configured extension. Headers and variables stand in the order in which they are handed
/// on.
#[derive(Debug, PartialEq, Eq)]
#[allow(inconsistent_fields)]
pub enum ExtensionConfig {
    StreamableHttp {
        name: String,
        description: String,
        uri: String,
        envs: Envs,
        env_keys: Vec<String>,
        headers: Vec<(String, String)>,
        timeout: Option<u64>,
        bundled: Option<bool>,
        available_tools: Vec<String>,
    },
    Stdio {
        name: String,
        description: String,
        cmd: String,
        args: Vec<String>,
        envs: Envs,
        env_keys: Vec<String>,
        timeout: Option<u64>,
        bundled: Option<bool>,
        available_tools: Vec<String>,
    },
    Sse { name: String, description: String, uri: Option<String> },
    /// An extension that runs inside the host and has no server of its own.
    Hosted { name: String },
}

/// These pairs of a name and a value as settings, in order, with nothing more to say of them.
pub open spec fn settings(pairs: Seq<(Seq<char>, Seq<char>)>) -> Seq<SettingView> {
    pairs.map_values(
        |pair: (Seq<char>, Seq<char>)|
            SettingView { name: pair.0, value: pair.1, meta: None },
    )
}

impl ExtensionConfig {
    /// The server that the agent is told of for this extension, if there is one: those
    /// reached over streamable HTTP and those started as a process have one, and no others.
    pub open spec fn server(self) -> Option<McpServerView> {
        match self {
            ExtensionConfig::StreamableHttp { name, uri, headers, .. } => Some(
                McpServerView::Http {
                    name: name@,
                    url: uri@,
                    headers: settings(headers.deep_view()),
                    meta: None,
                },
            ),
            ExtensionConfig::Stdio { name, cmd, args, envs, .. } => Some(
                McpServerView::Stdio {
                    name: name@,
                    command: cmd@,
                    args: args.deep_view(),
                    env: settings(envs@),
                    meta: None,
                },
            ),
            _ => None,
        }
    }
}

/// The servers of the extensions that have one, in the order of the extensions.
pub open spec fn servers_of(configs: Seq<ExtensionConfig>) -> Seq<McpServerView> {
    configs.filter_map(|config: ExtensionConfig| config.server())
}

fn http_headers(headers: &Vec<(String, String)>) -> (converted: Vec<HttpHeader>)
    ensures
        converted.deep_view() == settings(headers.deep_view()),
{
    let mut converted: Vec<HttpHeader> = Vec::new();
    for i in 0..headers.len()
        invariant
            converted.len() == i,
            forall|j: int|
                0 <= j < i ==> #[trigger] converted[j].deep_view() == (SettingView {
                    name: headers[j].0@,
                    value: headers[j].1@,
                    meta: None,
                }),
    {
        converted.push(
            HttpHeader {
                name: headers[i].0.clone(),
                value: headers[i].1.clone(),
                meta: None,
            },
        );
    }
    assert(converted.deep_view() =~= settings(headers.deep_view()));
    converted
}

fn env_variables(variables: Vec<(String, String)>) -> (converted: Vec<EnvVariable>)
    ensures
        converted.deep_view() == settings(variables.deep_view()),
{
    let mut converted: Vec<EnvVariable> = Vec::new();
    for i in 0..variables.len()
        invariant
            converted.len() == i,
            forall|j: int|
                0 <= j < i ==> #[trigger] converted[j].deep_view() == (SettingView {
                    name: variables[j].0@,
                    value: variables[j].1@,
                    meta: None,
                }),
    {
        converted.push(
            EnvVariable {
                name: variables[i].0.clone(),
                value: variables[i].1.clone(),
                meta: None,
            },
        );
    }
    assert(converted.deep_view() =~= settings(variables.deep_view()));
    converted
}

/// The servers of the extensions that have one, in the order of the extensions.
pub fn extension_configs_to_mcp_servers(configs: &[ExtensionConfig]) -> (servers: Vec<McpServer>)
    ensures
        servers.deep_view() == servers_of(configs@),
{
    let mut servers: Vec<McpServer> = Vec::new();
    let ghost convert = |config: ExtensionConfig| config.server();
    assert(servers.deep_view() =~= configs@.take(0).filter_map(convert));
    for i in 0..configs.len()
        invariant
            convert == (|config: ExtensionConfig| config.server()),
            servers.deep_view() == configs@.take(i as int).filter_map(convert),
    {
        assert(configs@.take(i + 1).drop_last() =~= configs@.take(i as int));
        assert(configs@.take(i + 1).last() == configs@[i as int]);
        match &configs[i] {
            ExtensionConfig::StreamableHttp { name, uri, headers, .. } => {
                servers.push(
                    McpServer::Http(
                        McpServerHttp {
                            name: name.clone(),
                            url: uri.clone(),
                            headers: http_headers(headers),
                            meta: None,
                        },
                    ),
                );
            },
            ExtensionConfig::Stdio { name, cmd, args, envs, .. } => {
                servers.push(
                    McpServer::Stdio(
                        McpServerStdio {
                            name: name.clone(),
                            command: cmd.clone(),
                            args: args.deep_clone(),
                            env: env_variables(envs.get_env()),
                            meta: None,
                        },
                    ),
                );
            },
            _ => {},
        }
        assert(servers.deep_view() =~= configs@.take(i + 1).filter_map(convert));
    }
    assert(configs@.take(configs@.len() as int) =~= configs@);
    servers
}

/// Which kinds of server the agent can reach, besides those it starts itself.
#[derive(Debug, Clone, Copy, PartialEq, Eq, Structural)]
pub struct McpCapabilities {
    pub http: bool,
    pub sse: bool,
}

impl Default for McpCapabilities {
    fn default() -> (capabilities: McpCapabilities)
        ensures
            !capabilities.http,
            !capabilities.sse,
    {
        McpCapabilities { http: false, sse: false }
    }
}

/// Whether the agent is told of a server: of one it starts itself always, of one over HTTP if
/// it has the capability, of one over server-sent events never.
pub open spec fn supported(server: McpServerView, capabilities: McpCapabilities) -> bool {
    match server {
        McpServerView::Http { .. } => capabilities.http,
        McpServerView::Sse { .. } => false,
        McpServerView::Stdio { .. } => true,
    }
}

impl McpServer {
    /// Whether the agent is told of this server.
    pub fn is_supported(&self, capabilities: &McpCapabilities) -> (told: bool)
        ensures
            told == supported(self.deep_view(), *capabilities),
    {
        match self {
            McpServer::Http(_) => capabilities.http,
            McpServer::Sse(_) => false,
            McpServer::Stdio(_) => true,
        }
    }
}

/// The servers that the agent is told of, in order.
pub open spec fn supported_servers(
    servers: Seq<McpServerView>,
    capabilities: McpCapabilities,
) -> Seq<McpServerView> {
    servers.filter(|server: McpServerView| supported(server, capabilities))
}

/// The servers that the agent is told of, in order.
pub fn filter_supported_servers(
    servers: &[McpServer],
    capabilities: &McpCapabilities,
) -> (kept: Vec<McpServer>)
    ensures
        kept.deep_view() == supported_servers(servers.deep_view(), *capabilities),
{
    let mut kept: Vec<McpServer> = Vec::new();
    let ghost views = servers.deep_view();
    let ghost keep = |server: McpServerView| supported(server, *capabilities);
    proof {
        reveal(Seq::filter);
        assert(kept.deep_view() =~= views.take(0).filter(keep));
    }
    for i in 0..servers.len()
        invariant
            views == servers.deep_view(),
            keep == (|server: McpServerView| supported(server, *capabilities)),
            kept.deep_view() == views.take(i as int).filter(keep),
    {
        proof {
            reveal(Seq::filter);
            assert(views.take(i + 1).drop_last() =~= views.take(i as int));
            assert(views.take(i + 1).last() == servers@[i as int].deep_view());
        }
        if servers[i].is_supported(capabilities) {
            kept.push(servers[i].deep_clone());
        }
        assert(kept.deep_view() =~= views.take(i + 1).filter(keep));
    }
    assert(views.take(views.len() as int) =~= views);
    kept
}

} // verus!
