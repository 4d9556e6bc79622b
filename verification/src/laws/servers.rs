//! What becomes of each extension and of each server.
use vstd::prelude::*;

use crate::servers::{ExtensionConfig, McpCapabilities, McpServerView, SettingView};

verus! {

/// Whether settings hold these pairs of a name and a value, one for one and in order, and
/// nothing more.
pub open spec fn hold(settings: Seq<SettingView>, pairs: Seq<(Seq<char>, Seq<char>)>) -> bool {
    &&& settings.len() == pairs.len()
    &&& forall|i: int|
        0 <= i < pairs.len() ==> (#[trigger] settings[i]).name == pairs[i].0 && settings[i].value
            == pairs[i].1 && settings[i].meta is None
}

/// An extension that is started as a process becomes one server in its place, with its name,
/// its command, each of its arguments in order and each of its variables.
pub proof fn processes_become_servers_whole(
    left: Seq<ExtensionConfig>,
    config: ExtensionConfig,
    right: Seq<ExtensionConfig>,
)
    requires
        config is Stdio,
    ensures
        ({
            let servers = crate::servers::servers_of(left.push(config) + right);
            let first = crate::servers::servers_of(left);
            let server = servers[first.len() as int];
            &&& servers == first.push(server) + crate::servers::servers_of(right)
            &&& server is Stdio
            &&& server->Stdio_name == config->Stdio_name@
            &&& server->command == config->cmd@
            &&& server->args.len() == config->args@.len()
            &&& forall|i: int|
                0 <= i < config->args@.len() ==> #[trigger] server->args[i] == config->args@[i]@
            &&& hold(server->env, config->Stdio_envs@)
            &&& server->Stdio_meta is None
        }),
{
    place_of_a_server(left, config, right);
}

/// An extension that is reached over streamable HTTP becomes one server in its place, with its
/// name, its address and each of its headers.
pub proof fn addresses_become_servers_whole(
    left: Seq<ExtensionConfig>,
    config: ExtensionConfig,
    right: Seq<ExtensionConfig>,
)
    requires
        config is StreamableHttp,
    ensures
        ({
            let servers = crate::servers::servers_of(left.push(config) + right);
            let first = crate::servers::servers_of(left);
            let server = servers[first.len() as int];
            &&& servers == first.push(server) + crate::servers::servers_of(right)
            &&& server is Http
            &&& server->Http_name == config->StreamableHttp_name@
            &&& server->Http_url == config->StreamableHttp_uri@
            &&& hold(server->Http_headers, config->headers.deep_view())
            &&& server->Http_meta is None
        }),
{
    place_of_a_server(left, config, right);
}

/// Any other extension becomes no server, and the servers of the others are the same without
/// it.
pub proof fn other_extensions_become_no_server(
    left: Seq<ExtensionConfig>,
    config: ExtensionConfig,
    right: Seq<ExtensionConfig>,
)
    requires
        !(config is Stdio),
        !(config is StreamableHttp),
    ensures
        crate::servers::servers_of(left.push(config) + right) == crate::servers::servers_of(left)
            + crate::servers::servers_of(right),
        crate::servers::servers_of(Seq::empty()).len() == 0,
{
    place_of_a_server(left, config, right);
}

proof fn place_of_a_server(
    left: Seq<ExtensionConfig>,
    config: ExtensionConfig,
    right: Seq<ExtensionConfig>,
)
    ensures
        match config.server() {
            Some(server) => crate::servers::servers_of(left.push(config) + right)
                == crate::servers::servers_of(left).push(server) + crate::servers::servers_of(
                right,
            ),
            None => crate::servers::servers_of(left.push(config) + right)
                == crate::servers::servers_of(left) + crate::servers::servers_of(right),
        },
{
    let convert = |config: ExtensionConfig| config.server();
    assert(left.push(config) =~= left + seq![config]);
    crate::laws::filter_map_distributes(left.push(config), right, convert);
    crate::laws::filter_map_distributes(left, seq![config], convert);
    Seq::lemma_filter_map_singleton(config, convert);
    match config.server() {
        Some(server) => {
            assert(left.filter_map(convert) + seq![server] =~= left.filter_map(convert).push(
                server,
            ));
        },
        None => {
            assert(left.filter_map(convert) + Seq::<McpServerView>::empty() =~= left.filter_map(
                convert,
            ));
        },
    }
}

/// Each server that the agent starts itself is passed on in its place, as it is; each over
/// HTTP is where the agent has the capability and is left out where not; each over server-sent
/// events is left out, whatever the agent can do.
pub proof fn servers_pass_as_they_are(
    left: Seq<McpServerView>,
    server: McpServerView,
    right: Seq<McpServerView>,
    capabilities: McpCapabilities,
)
    ensures
        ({
            let passed = crate::servers::supported_servers(left.push(server) + right, capabilities);
            let first = crate::servers::supported_servers(left, capabilities);
            let rest = crate::servers::supported_servers(right, capabilities);
            match server {
                McpServerView::Stdio { .. } => passed == first.push(server) + rest,
                McpServerView::Http { .. } => if capabilities.http {
                    passed == first.push(server) + rest
                } else {
                    passed == first + rest
                },
                McpServerView::Sse { .. } => passed == first + rest,
            }
        }),
        crate::servers::supported_servers(Seq::empty(), capabilities).len() == 0,
{
    let keep = |server: McpServerView| crate::servers::supported(server, capabilities);
    Seq::filter_distributes_over_add(left.push(server), right, keep);
    reveal(Seq::filter);
    assert(left.push(server).drop_last() =~= left);
    assert(left.push(server).last() == server);
}

} // verus!
