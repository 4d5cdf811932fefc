use jotti::agent::runtime::{
    allocate_port, dotnet_env, dotnet_env_path, nginx_upstream, nginx_upstream_path, port_candidate,
    probe_port, python_unit, sanitize_site_id, site_unit_path, validated_dotnet_version,
    validated_node_version, validated_python_bin, validated_ruby_version, PORT_RANGE_END,
    PORT_RANGE_START,
};
use jotti::agent::AgentError;

#[test]
fn port_allocation_is_in_range() {
    let site_ids = [
        "550e8400-e29b-41d4-a716-446655440000",
        "aaaaaaaa-bbbb-cccc-dddd-eeeeeeeeeeee",
        "00000000-0000-0000-0000-000000000001",
    ];
    for id in &site_ids {
        let port = allocate_port(id, &vec![]).unwrap();
        assert!(
            port >= PORT_RANGE_START && port < PORT_RANGE_END,
            "port {} out of range for site_id {}",
            port,
            id
        );
    }
}

#[test]
fn port_allocation_stays_in_range_on_repeated_call() {
    let id = "550e8400-e29b-41d4-a716-446655440000";
    let p1 = allocate_port(id, &vec![]).unwrap();
    let p2 = allocate_port(id, &vec![]).unwrap();
    assert!(p1 >= PORT_RANGE_START && p1 < PORT_RANGE_END);
    assert!(p2 >= PORT_RANGE_START && p2 < PORT_RANGE_END);
}

#[test]
fn sanitize_site_id_accepts_uuid() {
    assert!(sanitize_site_id("550e8400-e29b-41d4-a716-446655440000").is_ok());
}

#[test]
fn sanitize_site_id_rejects_shell_metacharacters() {
    assert!(sanitize_site_id("site; rm -rf /").is_err());
    assert!(sanitize_site_id("../etc/passwd").is_err());
    assert!(sanitize_site_id("$(whoami)").is_err());
}

#[test]
fn validate_python_version() {
    assert!(validated_python_bin("3.12").is_ok());
    assert!(validated_python_bin("3").is_ok());
    assert!(validated_python_bin("2.7").is_err());
    assert!(validated_python_bin("; rm -rf /").is_err());
}

#[test]
fn validate_node_version() {
    assert!(validated_node_version("20").is_ok());
    assert!(validated_node_version("20.11.1").is_ok());
    assert!(validated_node_version("; rm -rf /").is_err());
}

#[test]
fn validate_ruby_version() {
    assert!(validated_ruby_version("3.3").is_ok());
    assert!(validated_ruby_version("3.3.0").is_ok());
    assert!(validated_ruby_version("bad").is_err());
}

#[test]
fn validate_dotnet_version_rejects_old() {
    assert!(validated_dotnet_version("8").is_ok());
    assert!(validated_dotnet_version("9.0").is_ok());
    assert!(validated_dotnet_version("4.8").is_err());
    assert!(validated_dotnet_version("7").is_err());
}

#[test]
fn port_candidate_hashes_the_last_four_bytes() {
    // "0000": ((48*31+48)*31+48)*31+48 = 1477632, 1477632 % 1000 = 632.
    assert_eq!(port_candidate("550e8400-e29b-41d4-a716-446655440000"), 8732);
    // "eeee": 3109184 % 1000 = 184.
    assert_eq!(port_candidate("aaaaaaaa-bbbb-cccc-dddd-eeeeeeeeeeee"), 8284);
    // Fewer than four bytes: the whole id. "a" = 97.
    assert_eq!(port_candidate("a"), 8197);
    assert_eq!(port_candidate(""), 8100);
}

#[test]
fn allocate_port_probes_past_taken_ports() {
    let id = "550e8400-e29b-41d4-a716-446655440000";
    assert_eq!(allocate_port(id, &vec![]), Some(8732));
    assert_eq!(allocate_port(id, &vec![8732]), Some(8733));
    assert_eq!(allocate_port(id, &vec![8732, 8733, 9000]), Some(8734));
}

#[test]
fn allocate_port_wraps_around_the_range() {
    assert_eq!(probe_port(9099, 1), 8100);
    assert_eq!(probe_port(8732, 999), 8731);
    let all: Vec<u16> = (8100..9100).collect();
    // Every port taken: no port is allocated.
    assert_eq!(allocate_port("550e8400-e29b-41d4-a716-446655440000", &all), None);
    let mut almost: Vec<u16> = (8100..9100).collect();
    almost.retain(|p| *p != 8100);
    assert_eq!(allocate_port("550e8400-e29b-41d4-a716-446655440000", &almost), Some(8100));
}

#[test]
fn sanitize_site_id_error_messages() {
    assert_eq!(
        sanitize_site_id(""),
        Err(AgentError::InvalidArgument("site_id must be 1–64 characters".to_string()))
    );
    let long = "a".repeat(65);
    assert!(matches!(sanitize_site_id(&long), Err(AgentError::InvalidArgument(_))));
    assert_eq!(sanitize_site_id(&"a".repeat(64)), Ok("a".repeat(64).as_str()));
    assert_eq!(
        sanitize_site_id("xyz"),
        Err(AgentError::InvalidArgument(
            "site_id must contain only hex digits and hyphens".to_string()
        ))
    );
}

#[test]
fn validated_versions_exact_values() {
    assert_eq!(validated_python_bin("").unwrap(), "python3");
    assert_eq!(validated_python_bin("3.12").unwrap(), "python3.12");
    assert!(validated_python_bin("3.12.10").is_err());
    assert_eq!(
        validated_python_bin("2.7"),
        Err(AgentError::InvalidArgument(
            "invalid python_version: \"2.7\" — expected e.g. \"3.12\"".to_string()
        ))
    );
    assert_eq!(
        validated_node_version(""),
        Err(AgentError::InvalidArgument("node_version must not be empty".to_string()))
    );
    assert_eq!(
        validated_node_version("v20"),
        Err(AgentError::InvalidArgument(
            "invalid node_version: \"v20\" — expected e.g. \"20\" or \"20.11\"".to_string()
        ))
    );
    assert!(validated_node_version("123456789").is_err());
    assert_eq!(validated_ruby_version("3.3.0").unwrap(), "3.3.0");
    assert_eq!(
        validated_dotnet_version("7"),
        Err(AgentError::InvalidArgument(
            "invalid dotnet_version: \"7\" — expected \"8\" or \"9\" (.NET Core/5+ only, NOT Framework)"
                .to_string()
        ))
    );
    assert_eq!(validated_dotnet_version("10.0").unwrap(), "10.0");
    assert!(validated_dotnet_version("8.0.100").is_err());
}

#[test]
fn runtime_files_exact_text() {
    assert_eq!(site_unit_path("abc"), "/etc/systemd/system/jotti-site-abc.service");
    assert_eq!(nginx_upstream_path("abc"), "/etc/nginx/conf.d/upstream-abc.conf");
    assert_eq!(dotnet_env_path("abc"), "/etc/jottiecp/dotnet/abc.env");
    assert_eq!(
        dotnet_env(8123),
        "ASPNETCORE_ENVIRONMENT=Production\nASPNETCORE_URLS=http://127.0.0.1:8123\nDOTNET_ROOT=/usr/lib/dotnet\n"
    );
    assert!(nginx_upstream("abc", 8123).contains("127.0.0.1:8123"));
    let unit = python_unit("site1", 8200);
    assert!(unit.contains("User=site1\n"));
    assert!(unit.contains("--http-socket 127.0.0.1:8200 "));
    assert!(unit.contains("Slice=website-site1.slice\n"));
}
