use esc_client::args::{
    parse_context_prop_name, parse_email, parse_enum, parse_org_id, parse_output_format, parse_project_id,
    parse_projection_level, parse_provider, parse_topology, OutputFormat, ProfilePropName, Provider,
};
use esc_client::net::{cidr_to_string, parse_cidr, parse_cidr_input, Ipv4Block};
use esc_client::schemas::{OrganizationId, ProjectId, ProjectionLevel, Topology};

#[test]
fn enum_lookup_finds_first_match() {
    let table = [("a", 1u8), ("b", 2u8), ("a", 3u8)];
    assert_eq!(parse_enum(&table, "a"), Ok(1));
    assert_eq!(parse_enum(&table, "b"), Ok(2));
}

#[test]
fn enum_lookup_error_lists_keys() {
    let table = [("aws", 1u8), ("gcp", 2u8)];
    assert_eq!(
        parse_enum(&table, "x"),
        Err("Unsupported value: \"x\". Supported values: [\"aws\", \"gcp\"]".to_string())
    );
    let empty: [(&'static str, u8); 0] = [];
    assert_eq!(parse_enum(&empty, ""), Err("Unsupported value: \"\". Supported values: []".to_string()));
}

#[test]
fn named_values_parse() {
    assert_eq!(parse_provider("gcp"), Ok(Provider::Gcp));
    assert_eq!(parse_context_prop_name("api-base-url"), Ok(ProfilePropName::ApiBaseUrl));
    assert_eq!(parse_context_prop_name("fmt"), Ok(ProfilePropName::Fmt));
    assert_eq!(parse_topology("three-node-multi-zone"), Ok(Topology::ThreeNodeMultiZone));
    assert_eq!(parse_projection_level("user"), Ok(ProjectionLevel::User));
    assert_eq!(
        parse_topology("five-node"),
        Err("Unsupported value: \"five-node\". Supported values: [\"single-node\", \"three-node-multi-zone\"]".to_string())
    );
    assert_eq!(
        parse_provider("AWS"),
        Err("Unsupported value: \"AWS\". Supported values: [\"aws\", \"gcp\", \"azure\"]".to_string())
    );
}

#[test]
fn output_format_defaults() {
    assert_eq!(parse_output_format("", None), Ok(OutputFormat::Cli));
    assert_eq!(parse_output_format("  ", Some(OutputFormat::Api)), Ok(OutputFormat::Api));
    assert_eq!(parse_output_format("cli-json", Some(OutputFormat::Api)), Ok(OutputFormat::CliJson));
    assert_eq!(parse_output_format("api-verbose", None), Ok(OutputFormat::ApiVerbose));
    assert!(parse_output_format("yaml", None).is_err());
    assert!(OutputFormat::Cli.is_v1() && OutputFormat::CliJson.is_v1());
    assert!(!OutputFormat::Api.is_v1() && !OutputFormat::ApiVerbose.is_v1());
    assert_eq!(OutputFormat::ApiVerbose.as_str(), "api-verbose");
}

#[test]
fn ids_fall_back_to_profile() {
    assert_eq!(parse_org_id("o1", None), Ok(OrganizationId("o1".to_string())));
    assert_eq!(parse_org_id(" ", Some(OrganizationId("p".to_string()))), Ok(OrganizationId("p".to_string())));
    assert_eq!(
        parse_org_id("", None),
        Err("Not provided and you don't have an org-id property set in the [context] section of your settings.toml file".to_string())
    );
    assert_eq!(parse_project_id("pr", None), Ok(ProjectId("pr".to_string())));
    assert_eq!(parse_project_id("", Some(ProjectId("q".to_string()))), Ok(ProjectId("q".to_string())));
    assert_eq!(
        parse_project_id("\t", None),
        Err("Not provided and you don't have an project-id property set in the [context] section of your settings.toml file".to_string())
    );
}

#[test]
fn email_validation() {
    assert_eq!(parse_email("someone@example.com"), Ok("someone@example.com".to_string()));
    assert_eq!(parse_email("not-an-email"), Err("Invalid email".to_string()));
    assert_eq!(parse_email(""), Err("Invalid email".to_string()));
}

#[test]
fn cidr_parsing() {
    assert_eq!(parse_cidr("10.0.0.0/8"), Ok(Ipv4Block { address: 0x0a00_0000, network_length: 8 }));
    assert!(parse_cidr("10.0.0.1/8").is_err());
    assert_eq!(cidr_to_string(Ipv4Block { address: 0x0a00_0000, network_length: 8 }), "10.0.0.0/8");
    assert_eq!(cidr_to_string(Ipv4Block { address: 0xc0a8_0001, network_length: 32 }), "192.168.0.1/32");
}

#[test]
fn cidr_input_with_and_without_comment() {
    let block = parse_cidr_input("192.168.1.0/24,office, main").unwrap();
    assert_eq!(block.address, "192.168.1.0/24");
    assert_eq!(block.comment, Some("office, main".to_string()));
    let host = parse_cidr_input("1.2.3.4").unwrap();
    assert_eq!(host.address, "1.2.3.4/32");
    assert_eq!(host.comment, None);
    let err = parse_cidr_input("nonsense,c").unwrap_err();
    assert!(err.starts_with("Invalid CIDR input: "));
    assert!(err.len() > "Invalid CIDR input: ".len());
}
