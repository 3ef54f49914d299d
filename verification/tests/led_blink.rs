use led_blink::{fault_response, Blinker, Led, DELAY_CYCLES, LED_COUNT};

const ALL_LEDS: [Led; 4] = [Led::Green, Led::Orange, Led::Red, Led::Blue];

#[test]
fn new_blinker_starts_dark_at_green() {
    let b = Blinker::new();
    assert_eq!(b.counter(), 0);
    assert_eq!(b.selected(), Led::Green);
    for led in ALL_LEDS {
        assert!(!b.is_lit(led));
    }
}

#[test]
fn one_pass_visits_each_led_in_order() {
    let mut b = Blinker::new();
    assert_eq!(b.step(), Led::Green);
    assert_eq!(b.step(), Led::Orange);
    assert_eq!(b.step(), Led::Red);
    assert_eq!(b.step(), Led::Blue);
    assert_eq!(b.step(), Led::Green);
}

#[test]
fn counter_returns_after_a_full_pass() {
    let mut b = Blinker::new();
    for _ in 0..LED_COUNT {
        b.step();
    }
    assert_eq!(b.counter(), 0);
}

#[test]
fn counter_advances_by_one_each_step() {
    let mut b = Blinker::new();
    let mut expected: u8 = 0;
    for _ in 0..10 {
        assert_eq!(b.counter(), expected);
        b.step();
        expected = (expected + 1) % LED_COUNT;
    }
}

#[test]
fn step_leaves_exactly_the_toggled_led_lit() {
    let mut b = Blinker::new();
    for _ in 0..8 {
        let toggled = b.step();
        assert!(b.is_lit(toggled));
        for led in ALL_LEDS {
            if led != toggled {
                assert!(!b.is_lit(led));
            }
        }
    }
}

#[test]
fn selected_follows_the_counter() {
    let mut b = Blinker::new();
    assert_eq!(b.selected(), Led::Green);
    b.step();
    assert_eq!(b.selected(), Led::Orange);
    b.step();
    assert_eq!(b.selected(), Led::Red);
    b.step();
    assert_eq!(b.selected(), Led::Blue);
}

#[test]
fn messages_name_each_led() {
    assert_eq!(Led::Green.message(), "Green LED toggled");
    assert_eq!(Led::Orange.message(), "Orange LED toggled");
    assert_eq!(Led::Red.message(), "Red LED toggled");
    assert_eq!(Led::Blue.message(), "Blue LED toggled");
}

#[test]
fn fault_response_is_a_bare_trap() {
    let r = fault_response();
    assert!(r.trap);
    assert!(r.toggle.is_none());
    assert!(r.log.is_none());
    assert!(!r.resume);
}

#[test]
fn fault_response_is_the_same_on_every_invocation() {
    let a = fault_response();
    let b = fault_response();
    assert_eq!(a.trap, b.trap);
    assert_eq!(a.toggle.is_none(), b.toggle.is_none());
    assert_eq!(a.log, b.log);
    assert_eq!(a.resume, b.resume);
}

#[test]
fn cycle_constants_match_the_board() {
    assert_eq!(LED_COUNT, 4);
    assert_eq!(DELAY_CYCLES, 8_000_000);
}
