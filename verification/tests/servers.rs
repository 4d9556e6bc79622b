use acp_provider::json::JsonValue;
use acp_provider::servers::{
    extension_configs_to_mcp_servers, filter_supported_servers, EnvVariable, Envs,
    ExtensionConfig, HttpHeader, McpCapabilities, McpServer, McpServerHttp, McpServerSse,
    McpServerStdio,
};

fn stdio_config() -> ExtensionConfig {
    ExtensionConfig::Stdio {
        name: "github".into(),
        description: String::new(),
        cmd: "/path/to/github-mcp-server".into(),
        args: vec!["stdio".into()],
        envs: Envs::new(vec![(
            "GITHUB_PERSONAL_ACCESS_TOKEN".into(),
            "ghp_xxxxxxxxxxxx".into(),
        )]),
        env_keys: vec![],
        timeout: None,
        bundled: Some(false),
        available_tools: vec![],
    }
}

fn http_config() -> ExtensionConfig {
    ExtensionConfig::StreamableHttp {
        name: "github".into(),
        description: String::new(),
        uri: "https://api.githubcopilot.com/mcp/".into(),
        envs: Envs::default(),
        env_keys: vec![],
        headers: vec![("Authorization".into(), "Bearer ghp_xxxxxxxxxxxx".into())],
        timeout: None,
        bundled: Some(false),
        available_tools: vec![],
    }
}

fn sse_config() -> ExtensionConfig {
    ExtensionConfig::Sse {
        name: "test-sse".into(),
        description: String::new(),
        uri: Some("https://example.com/sse".into()),
    }
}

fn stdio_server() -> McpServer {
    McpServer::Stdio(McpServerStdio {
        name: "github".into(),
        command: "/path/to/github-mcp-server".into(),
        args: vec!["stdio".into()],
        env: vec![EnvVariable {
            name: "GITHUB_PERSONAL_ACCESS_TOKEN".into(),
            value: "ghp_xxxxxxxxxxxx".into(),
            meta: None,
        }],
        meta: None,
    })
}

fn http_server() -> McpServer {
    McpServer::Http(McpServerHttp {
        name: "github".into(),
        url: "https://api.githubcopilot.com/mcp/".into(),
        headers: vec![HttpHeader {
            name: "Authorization".into(),
            value: "Bearer ghp_xxxxxxxxxxxx".into(),
            meta: None,
        }],
        meta: None,
    })
}

fn sse_server() -> McpServer {
    McpServer::Sse(McpServerSse {
        name: "events".into(),
        url: "https://example.com/sse".into(),
        headers: vec![],
        meta: Some(JsonValue::Bool(true)),
    })
}

#[test]
fn test_extension_configs_to_mcp_servers_stdio_converts_to_mcpserver_stdio() {
    let result = extension_configs_to_mcp_servers(&[stdio_config()]);
    assert_eq!(result, vec![stdio_server()]);
}

#[test]
fn test_extension_configs_to_mcp_servers_streamable_http_converts_to_mcpserver_http_when_capable() {
    let result = extension_configs_to_mcp_servers(&[http_config()]);
    assert_eq!(result, vec![http_server()]);
}

#[test]
fn test_sse_skips() {
    let result = extension_configs_to_mcp_servers(&[sse_config()]);
    assert!(result.is_empty());
}

#[test]
fn test_filter_supported_servers_skips_http_without_capability() {
    let servers = extension_configs_to_mcp_servers(&[http_config()]);
    let filtered = filter_supported_servers(&servers, &McpCapabilities::default());
    assert!(filtered.is_empty());
}

#[test]
fn extensions_convert_in_order_and_hosted_ones_have_no_server() {
    let configs = vec![
        http_config(),
        sse_config(),
        ExtensionConfig::Hosted {
            name: "developer".into(),
        },
        stdio_config(),
    ];
    let result = extension_configs_to_mcp_servers(&configs);
    assert_eq!(result, vec![http_server(), stdio_server()]);
    assert!(extension_configs_to_mcp_servers(&[]).is_empty());
}

#[test]
fn filter_keeps_http_with_capability_and_stdio_always() {
    let servers = vec![sse_server(), stdio_server(), http_server()];
    let capable = McpCapabilities {
        http: true,
        sse: true,
    };
    assert!(!servers[0].is_supported(&capable));
    assert!(servers[1].is_supported(&McpCapabilities::default()));
    assert!(servers[2].is_supported(&capable));
    assert!(!servers[2].is_supported(&McpCapabilities::default()));
    let kept = filter_supported_servers(&servers, &capable);
    assert_eq!(kept, vec![stdio_server(), http_server()]);
    assert_eq!(filter_supported_servers(&kept, &capable), kept);
    assert_eq!(
        filter_supported_servers(&servers, &McpCapabilities::default()),
        vec![stdio_server()]
    );
}

#[test]
fn filter_keeps_servers_whole() {
    let server = || {
        McpServer::Http(McpServerHttp {
            name: "n".into(),
            url: "u".into(),
            headers: vec![HttpHeader {
                name: "h".into(),
                value: "v".into(),
                meta: Some(JsonValue::Null),
            }],
            meta: Some(JsonValue::Object(vec![(
                "k".into(),
                JsonValue::Number("1".into()),
            )])),
        })
    };
    let capable = McpCapabilities {
        http: true,
        sse: false,
    };
    assert_eq!(
        filter_supported_servers(&[server()], &capable),
        vec![server()]
    );
}

#[test]
fn envs_keep_their_order() {
    let envs = Envs::new(vec![
        ("B".into(), "2".into()),
        ("A".into(), "1".into()),
    ]);
    assert_eq!(
        envs.get_env(),
        vec![
            ("B".to_string(), "2".to_string()),
            ("A".to_string(), "1".to_string())
        ]
    );
    assert!(Envs::default().get_env().is_empty());
}
