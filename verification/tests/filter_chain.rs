use undertone::filter_chain::{node_id_from_listing, parse_node_id, FilterChainError};

const SAMPLE: &str = "\
id 35, type PipeWire:Interface:Node/3
    object.serial = \"71\"
    factory.id = \"6\"
    node.name = \"alsa_output.pci-0000_00_1f.3.analog-stereo\"
id 92, type PipeWire:Interface:Node/3
    object.serial = \"94\"
    node.name = \"ut-mic-processed\"
    media.class = \"Audio/Source\"
id 100, type PipeWire:Interface:Node/3
    node.name = \"firefox\"
";

#[test]
fn parse_node_id_finds_match() {
    assert_eq!(parse_node_id(SAMPLE, "ut-mic-processed"), Some(92));
    assert_eq!(parse_node_id(SAMPLE, "firefox"), Some(100));
}

#[test]
fn parse_node_id_returns_none_for_missing() {
    assert_eq!(parse_node_id(SAMPLE, "nope"), None);
}

#[test]
fn parse_node_id_needs_a_header_first() {
    assert_eq!(parse_node_id("    node.name = \"x\"\nid 4, t\n", "x"), None);
    assert_eq!(parse_node_id("\tid  +4 , t\r\n node.name=\"x\"", "x"), Some(4));
    assert_eq!(parse_node_id("id 4294967296, t\n node.name = \"x\"\n", "x"), None);
    assert_eq!(parse_node_id("id 7, t\nid z, t\n node.name = \"x\"\n", "x"), Some(7));
}

#[test]
fn node_lookup_reports_missing_name() {
    assert_eq!(node_id_from_listing(SAMPLE, "firefox").ok(), Some(100));
    match node_id_from_listing(SAMPLE, "nope") {
        Err(FilterChainError::NodeNotFound(n)) => assert_eq!(n, "nope"),
        other => panic!("unexpected {other:?}"),
    }
}

#[test]
fn node_names_match_exactly_and_take_the_last_header() {
    assert_eq!(parse_node_id(SAMPLE, "fire"), None);
    let listing = "id 3, type PipeWire:Interface:Node/3\n  node.name = \"other\"\nid 9, type PipeWire:Interface:Node/3\n  media.class = \"Audio/Sink\"\n  node.name = \"target\"\n";
    assert_eq!(parse_node_id(listing, "target"), Some(9));
}
