use cosmos::config::CosmosBuilder;
use cosmos::pool::CosmosBuilders;

#[test]
fn round_robin_visits_each_endpoint_once_in_order() {
    let mut builders = CosmosBuilders::from_builder(CosmosBuilder::new_juno_testnet());
    builders.add(CosmosBuilder::new_juno_mainnet());
    builders.add(CosmosBuilder::new_osmosis_mainnet());
    assert_eq!(builders.len(), 3);
    let picked: Vec<String> = (0..3)
        .map(|_| builders.get_next_builder().chain_id.clone())
        .collect();
    assert_eq!(picked, vec!["uni-6", "juno-1", "osmosis-1"]);
    assert_eq!(builders.get_next_builder().chain_id, "uni-6");
}

#[test]
fn single_endpoint_is_always_selected() {
    let mut builders = CosmosBuilders::from_builder(CosmosBuilder::new_wasmd_local());
    for _ in 0..3 {
        assert_eq!(builders.get_next_builder().chain_id, "localwasmd");
    }
    assert_eq!(builders.get_first_builder().chain_id, "localwasmd");
}

#[test]
fn first_builder_stays_first() {
    let mut builders = CosmosBuilders::from_builder(CosmosBuilder::new_sei_mainnet());
    builders.add(CosmosBuilder::new_dragonfire());
    builders.get_next_builder();
    assert_eq!(builders.get_first_builder().chain_id, "not-yet-launched");
    assert_eq!(builders.get_next_builder().chain_id, "dragonfire-4");
}
