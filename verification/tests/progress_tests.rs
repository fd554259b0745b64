use upkg::progress::{
    parse_sideband, transfer_update, SidebandStage, SidebandUpdate, TransferStage,
};

#[test]
fn test_transfer_shows_receiving_while_objects_remain() {
    let u = transfer_update(3, 10, 0, 0);
    assert_eq!(u.stage, TransferStage::Receiving);
    assert_eq!(u.position, 3);
    assert_eq!(u.length, 10);
}

#[test]
fn test_transfer_switches_to_resolving_when_received_equals_total() {
    let u = transfer_update(10, 10, 4, 7);
    assert_eq!(u.stage, TransferStage::Resolving);
    assert_eq!(u.position, 4);
    assert_eq!(u.length, 7);
}

#[test]
fn test_sideband_counting_line_parses() {
    let u = parse_sideband("Counting objects: 15% (3/20)").unwrap();
    assert_eq!(
        u,
        SidebandUpdate { stage: SidebandStage::Counting, current: 3, total: 20 }
    );
}

#[test]
fn test_sideband_compressing_line_parses() {
    let u = parse_sideband("Compressing objects:   100% (245/245), done.").unwrap();
    assert_eq!(
        u,
        SidebandUpdate { stage: SidebandStage::Compressing, current: 245, total: 245 }
    );
}

#[test]
fn test_sideband_malformed_lines_are_ignored() {
    assert_eq!(parse_sideband(""), None);
    assert_eq!(parse_sideband("Receiving objects: 15% (3/20)"), None);
    assert_eq!(parse_sideband("Counting objects: (3/20)"), None);
    assert_eq!(parse_sideband("Counting objects:15% (3/20)"), None);
    assert_eq!(parse_sideband("Counting objects: 15% 3/20"), None);
    assert_eq!(parse_sideband("Counting objects: 15% (3/)"), None);
    assert_eq!(parse_sideband("Counting objects: 15% (/20)"), None);
    assert_eq!(parse_sideband("Counting objects: 15% (99999999999999999999999/20)"), None);
}
