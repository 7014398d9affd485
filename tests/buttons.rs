use pybadge_high::buttons::{Button, Buttons, Event};

const ALL: [Button; 8] = [
    Button::Left,
    Button::Up,
    Button::Down,
    Button::Right,
    Button::Select,
    Button::Start,
    Button::A,
    Button::B,
];

fn collect(b: &Buttons) -> Vec<Event> {
    let mut it = b.events();
    let mut out = Vec::new();
    while let Some(e) = it.next() {
        out.push(e);
        assert!(out.len() <= 8);
    }
    out
}

fn bit_of(e: &Event) -> u8 {
    match e {
        Event::Pressed(b) | Event::Released(b) => b.index(),
    }
}

#[test]
fn new_driver_has_nothing_pressed() {
    let b = Buttons::new();
    assert_eq!(b.state(), 0);
    assert_eq!(b.previous_state(), 0);
    assert!(b.none_pressed());
    assert!(!b.some_pressed());
    assert!(collect(&b).is_empty());
}

#[test]
fn update_records_forced_sample() {
    for prior in [0u8, 0x5a, 0xff] {
        for m in 0..=255u8 {
            let mut b = Buttons::new();
            b.update(prior);
            b.update(m);
            assert_eq!(b.state(), m);
            assert_eq!(b.previous_state(), prior);
        }
    }
}

#[test]
fn transition_events_match_changed_bits() {
    for m1 in 0..=255u8 {
        for m2 in 0..=255u8 {
            let mut b = Buttons::new();
            b.update(m1);
            b.update(m2);
            let ev = collect(&b);
            assert_eq!(ev.len() as u32, (m1 ^ m2).count_ones());
            for w in ev.windows(2) {
                assert!(bit_of(&w[0]) < bit_of(&w[1]));
            }
            for e in &ev {
                let bit = bit_of(e);
                assert!((m1 ^ m2) & (1 << bit) != 0);
                match e {
                    Event::Pressed(_) => assert!(m2 & (1 << bit) != 0),
                    Event::Released(_) => assert!(m2 & (1 << bit) == 0),
                }
            }
        }
    }
}

#[test]
fn transition_example_release_left_press_up() {
    let mut b = Buttons::new();
    b.update(0b0000_0101);
    b.update(0b0000_0110);
    assert_eq!(
        collect(&b),
        vec![Event::Released(Button::Left), Event::Pressed(Button::Up)]
    );
}

#[test]
fn same_sample_twice_gives_no_events() {
    for m in 0..=255u8 {
        let mut b = Buttons::new();
        b.update(m ^ 0x81);
        b.update(m);
        b.update(m);
        assert!(collect(&b).is_empty());
    }
}

#[test]
fn held_button_gives_no_event() {
    let mut b = Buttons::new();
    b.update(0b0100_0000);
    b.update(0b0100_0001);
    assert_eq!(collect(&b), vec![Event::Pressed(Button::Left)]);
}

#[test]
fn event_iter_is_a_snapshot_and_stays_exhausted() {
    let mut b = Buttons::new();
    b.update(0xff);
    let mut it = b.events();
    b.update(0xff);
    let mut n = 0;
    while let Some(e) = it.next() {
        assert_eq!(e, Event::Pressed(ALL[n]));
        n += 1;
    }
    assert_eq!(n, 8);
    assert_eq!(it.next(), None);
    assert_eq!(it.next(), None);
    assert!(collect(&b).is_empty());
}

#[test]
fn release_all_in_order() {
    let mut b = Buttons::new();
    b.update(0xff);
    b.update(0);
    let ev = collect(&b);
    let expected: Vec<Event> = ALL.iter().map(|&x| Event::Released(x)).collect();
    assert_eq!(ev, expected);
}

#[test]
fn button_masks_and_positions() {
    let masks = [1u8, 2, 4, 8, 16, 32, 64, 128];
    for (i, b) in ALL.iter().enumerate() {
        assert_eq!(b.index(), i as u8);
        assert_eq!(b.mask(), masks[i]);
        assert_eq!(Button::at(i as u8), *b);
    }
    assert_eq!(Button::B.mask(), 0x80);
    assert_eq!(Button::Left.mask(), 0x01);
}

#[test]
fn per_button_queries() {
    for (i, _) in ALL.iter().enumerate() {
        let mut b = Buttons::new();
        b.update(1 << i);
        let flags = [
            b.left_pressed(),
            b.up_pressed(),
            b.down_pressed(),
            b.right_pressed(),
            b.select_pressed(),
            b.start_pressed(),
            b.a_pressed(),
            b.b_pressed(),
        ];
        for (j, f) in flags.iter().enumerate() {
            assert_eq!(*f, i == j);
            assert_eq!(b.button_pressed(ALL[j]), i == j);
        }
        assert!(b.some_pressed());
        assert!(!b.none_pressed());
    }
}
