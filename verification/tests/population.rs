use province_sim::population::PopulationModel;
use province_sim::population::GROWTH_PER_TICK;
use province_sim::population::INITIAL_POPULATION;

#[test]
fn province_starts_at_ten_thousand() {
    assert_eq!(INITIAL_POPULATION, 10000);
    assert_eq!(PopulationModel::new().pops(), 10000);
}

#[test]
fn apply_tick_adds_one_hundred() {
    assert_eq!(GROWTH_PER_TICK, 100);
    let mut province = PopulationModel::new();
    province.apply_tick();
    assert_eq!(province.pops(), 10100);
}

#[test]
fn n_ticks_add_n_hundred() {
    for n in [0u64, 1, 2, 5, 17, 1000] {
        let mut province = PopulationModel::new();
        for _ in 0..n {
            province.apply_tick();
        }
        assert_eq!(province.pops(), 10000 + 100 * n);
    }
}

#[test]
fn apply_ticks_equals_repeated_apply_tick() {
    for n in [0u64, 1, 3, 250] {
        let mut stepwise = PopulationModel::new();
        for _ in 0..n {
            stepwise.apply_tick();
        }
        let mut at_once = PopulationModel::new();
        at_once.apply_ticks(n);
        assert_eq!(at_once.pops(), stepwise.pops());
        assert_eq!(at_once.pops(), 10000 + 100 * n);
    }
}

#[test]
fn apply_ticks_reaches_the_top_of_the_counter() {
    let most = (u64::MAX - 10000) / 100;
    let mut province = PopulationModel::new();
    assert!(province.has_room_for(most as u128));
    province.apply_ticks(most);
    assert_eq!(province.pops(), 10000 + 100 * most);
    assert!(province.has_room_for(0));
    assert!(!province.has_room_for(1));
}

#[test]
fn has_room_for_is_exact_at_the_limit() {
    let province = PopulationModel::new();
    let most = ((u64::MAX - 10000) / 100) as u128;
    assert!(province.has_room_for(0));
    assert!(province.has_room_for(1));
    assert!(province.has_room_for(most));
    assert!(!province.has_room_for(most + 1));
    assert!(!province.has_room_for(u128::MAX));
}
