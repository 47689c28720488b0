use pisa_query::algorithm::PisaQueryAlgorithm;

#[test]
fn test_pisa_query_algorithm_conversion() {
    assert_eq!(PisaQueryAlgorithm::from_i32(1), PisaQueryAlgorithm::Wand);
    assert_eq!(PisaQueryAlgorithm::from_i32(2), PisaQueryAlgorithm::BlockMaxWand);
    assert_eq!(PisaQueryAlgorithm::from_i32(3), PisaQueryAlgorithm::MaxScore);
    assert_eq!(PisaQueryAlgorithm::from_i32(999), PisaQueryAlgorithm::Auto);

    assert_eq!(PisaQueryAlgorithm::Wand.to_i32(), 1);
    assert_eq!(PisaQueryAlgorithm::BlockMaxWand.to_i32(), 2);
    assert_eq!(PisaQueryAlgorithm::MaxScore.to_i32(), 3);
}

#[test]
fn every_assigned_code_round_trips() {
    for code in 1..=5 {
        assert_eq!(PisaQueryAlgorithm::from_i32(code).to_i32(), code);
    }
    assert_eq!(PisaQueryAlgorithm::from_i32(4), PisaQueryAlgorithm::RankedAnd);
    assert_eq!(PisaQueryAlgorithm::from_i32(5), PisaQueryAlgorithm::Auto);
    assert_eq!(PisaQueryAlgorithm::RankedAnd.to_i32(), 4);
    assert_eq!(PisaQueryAlgorithm::Auto.to_i32(), 5);
}

#[test]
fn unassigned_codes_decode_to_auto() {
    for code in [0, -1, 6, 7, 100, i32::MIN, i32::MAX] {
        assert_eq!(PisaQueryAlgorithm::from_i32(code), PisaQueryAlgorithm::Auto);
        assert_eq!(PisaQueryAlgorithm::from_i32(code).to_i32(), 5);
    }
}

#[test]
fn algorithms_are_named_by_their_tags() {
    assert_eq!(PisaQueryAlgorithm::Wand.name(), "Wand");
    assert_eq!(PisaQueryAlgorithm::BlockMaxWand.name(), "BlockMaxWand");
    assert_eq!(PisaQueryAlgorithm::MaxScore.name(), "MaxScore");
    assert_eq!(PisaQueryAlgorithm::RankedAnd.name(), "RankedAnd");
    assert_eq!(PisaQueryAlgorithm::Auto.name(), "Auto");
    assert_eq!(format!("{:?}", PisaQueryAlgorithm::BlockMaxWand), "BlockMaxWand");
}
