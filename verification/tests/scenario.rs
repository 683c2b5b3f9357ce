use province_sim::context::SimulationContext;
use province_sim::speed::ControlEvent;
use province_sim::state::SimulationState;

#[test]
fn five_clicks_up_five_periods_six_clicks_down_ten_periods() {
    let mut context = SimulationContext::new();
    assert_eq!(context.speed().level(), 0);
    assert_eq!(context.state(), SimulationState::Paused);
    assert_eq!(context.population(), 10000);

    for _ in 0..5 {
        context.handle(ControlEvent::IncrementSpeed);
    }
    assert_eq!(context.speed().level(), 5);
    assert_eq!(context.state(), SimulationState::Playing);
    assert_eq!(context.speed().label(), "Speed 5");

    let period = context.clock().period();
    assert_eq!(period, 200_000_000);
    let mut applied = 0;
    for _ in 0..5 {
        assert!(context.can_update(period));
        applied += context.update(period);
    }
    assert_eq!(applied, 5);
    assert_eq!(context.population(), 10500);

    for _ in 0..6 {
        context.handle(ControlEvent::DecrementSpeed);
    }
    assert_eq!(context.speed().level(), 0);
    assert_eq!(context.state(), SimulationState::Paused);
    assert_eq!(context.speed().label(), "Speed 0");

    let period = context.clock().period();
    for _ in 0..10 {
        assert!(context.can_update(period));
        assert_eq!(context.update(period), 0);
    }
    assert_eq!(context.population(), 10500);
}

#[test]
fn five_periods_in_one_frame_give_the_same_population() {
    let mut context = SimulationContext::new();
    for _ in 0..5 {
        context.increment_speed();
    }
    let period = context.clock().period();
    assert_eq!(context.update(5 * period), 5);
    assert_eq!(context.population(), 10500);
    for _ in 0..6 {
        context.decrement_speed();
    }
    let period = context.clock().period();
    assert_eq!(context.update(10 * period), 0);
    assert_eq!(context.population(), 10500);
}
