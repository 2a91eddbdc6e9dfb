use edp::epmd_client::{NodeType, Protocol};

#[test]
fn test_node_type_values() {
    assert_eq!(NodeType::Normal.as_u8(), 77);
    assert_eq!(NodeType::Hidden.as_u8(), 72);
    assert_eq!(NodeType::R3Hidden.as_u8(), 104);
}

#[test]
fn test_protocol_tcp() {
    assert_eq!(Protocol::Tcp.as_u8(), 0);
}

#[test]
fn test_node_type_discriminants() {
    assert_ne!(NodeType::Normal.as_u8(), NodeType::Hidden.as_u8());
    assert_ne!(NodeType::Normal.as_u8(), NodeType::R3Hidden.as_u8());
    assert_ne!(NodeType::Hidden.as_u8(), NodeType::R3Hidden.as_u8());
}

#[test]
fn test_node_type_from_u8() {
    assert_eq!(NodeType::from_u8(77), Some(NodeType::Normal));
    assert_eq!(NodeType::from_u8(72), Some(NodeType::Hidden));
    assert_eq!(NodeType::from_u8(104), Some(NodeType::R3Hidden));
    assert_eq!(NodeType::from_u8(0), None);
    assert_eq!(Protocol::from_u8(0), Some(Protocol::Tcp));
    assert_eq!(Protocol::from_u8(1), None);
}
