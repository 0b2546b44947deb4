use vocar::Class;
use vocar::Demo;
use vocar::Race;

fn quintile_demo(race: Race, q: i8) -> Demo {
    let mut d = Demo::new();
    d.race = race;
    d.class_zero = Class::Quintile(q);
    d.class_n = Class::Quintile(q);
    d
}

fn is_outcome(c: Class) -> bool {
    match c {
        Class::Quintile(x) => (1..=5).contains(&x),
        Class::Incarcerated => true,
        Class::UnsetC => false,
    }
}

#[test]
fn advance_outcome_space() {
    for race in [Race::Black, Race::White] {
        for q in 1..=5i8 {
            for _ in 0..50 {
                let mut d = quintile_demo(race, q);
                let c = d.next_gen();
                assert!(is_outcome(c));
                assert_eq!(c, d.class_n);
                assert_eq!(d.history.len(), 1);
                assert_eq!(d.history[0], c);
            }
        }
    }
}

#[test]
fn release_rule_black() {
    let mut d = Demo::new();
    d.race = Race::Black;
    d.class_n = Class::Incarcerated;
    d.history.push(Class::Quintile(3));
    let c = d.next_gen();
    assert_eq!(c, Class::Quintile(1));
    assert_eq!(d.class_n, Class::Quintile(1));
    assert_eq!(d.history, vec![Class::Quintile(3), Class::Incarcerated]);
}

#[test]
fn release_rule_white() {
    let mut d = Demo::new();
    d.race = Race::White;
    d.class_n = Class::Incarcerated;
    d.history.push(Class::Quintile(3));
    let c = d.next_gen();
    assert_eq!(c, Class::Quintile(2));
    assert_eq!(d.history, vec![Class::Quintile(3), Class::Incarcerated]);
}

#[test]
fn release_clamps_at_bottom_black() {
    let mut d = Demo::new();
    d.race = Race::Black;
    d.class_n = Class::Incarcerated;
    d.history.push(Class::Quintile(1));
    let c = d.next_gen();
    assert_eq!(c, Class::Quintile(1));
}

#[test]
fn release_clamps_at_bottom_white() {
    let mut d = Demo::new();
    d.race = Race::White;
    d.class_n = Class::Incarcerated;
    d.history.push(Class::Quintile(1));
    let c = d.next_gen();
    assert_eq!(c, Class::Quintile(1));
}

#[test]
fn unset_class_is_noop() {
    let mut d = Demo::new();
    d.race = Race::Black;
    let c = d.next_gen();
    assert_eq!(c, Class::UnsetC);
    assert_eq!(d.class_n, Class::UnsetC);
    assert!(d.history.is_empty());
    assert_eq!(d.race, Race::Black);
}

#[test]
fn advance_assigns_race_when_unset() {
    let mut d = Demo::new();
    d.class_zero = Class::Quintile(3);
    d.class_n = Class::Quintile(3);
    d.next_gen();
    assert!(d.race == Race::Black || d.race == Race::White);
}

#[test]
fn race_kept_by_advance() {
    for race in [Race::Black, Race::White] {
        let mut d = quintile_demo(race, 2);
        d.next_gen();
        assert_eq!(d.race, race);
    }
}

#[test]
fn five_advances_record_final_class() {
    let mut finished = false;
    for _ in 0..200 {
        let mut d = Demo::new();
        d.race = vocar::assign_race();
        let start = vocar::assign_starting_class();
        d.class_zero = start;
        d.class_n = start;

        let mut clean = true;
        for _ in 0..5 {
            if d.class_n == Class::Incarcerated
                && d.history.last() == Some(&Class::Incarcerated)
            {
                // The model leaves this state out: release needs the
                // pre-incarceration quintile at the end of the history.
                clean = false;
                break;
            }
            assert_eq!(d.class_five, Class::UnsetC);
            d.next_gen();
        }
        if clean {
            assert_eq!(d.history.len(), 5);
            assert_eq!(d.class_five, d.history[4]);
            assert_eq!(d.class_zero, start);
            finished = true;
            break;
        }
    }
    assert!(finished, "no run of five advances completed");
}

#[test]
fn final_class_unset_before_fifth_advance() {
    let mut d = quintile_demo(Race::White, 3);
    for _ in 0..4 {
        if d.class_n == Class::Incarcerated && d.history.last() == Some(&Class::Incarcerated) {
            return;
        }
        d.next_gen();
        if d.history.len() < 5 {
            assert_eq!(d.class_five, Class::UnsetC);
        }
    }
}

#[test]
fn reset_clears_classes_and_keeps_race() {
    let mut d = quintile_demo(Race::White, 4);
    d.next_gen();
    d.next_gen();
    d.reset();
    assert_eq!(d.class_zero, Class::UnsetC);
    assert_eq!(d.class_n, Class::UnsetC);
    assert_eq!(d.class_five, Class::UnsetC);
    assert!(d.history.is_empty());
    assert_eq!(d.race, Race::White);
}

#[test]
fn destucture_exposes_all_fields() {
    let mut d = quintile_demo(Race::Black, 2);
    d.history.push(Class::Quintile(2));
    let (zero, n, five, history, race) = d.destucture();
    assert_eq!(*zero, Class::Quintile(2));
    assert_eq!(*n, Class::Quintile(2));
    assert_eq!(*five, Class::UnsetC);
    assert_eq!(*history, vec![Class::Quintile(2)]);
    assert_eq!(*race, Race::Black);
}

#[test]
fn new_and_default_are_fully_unset() {
    for d in [Demo::new(), Demo::default()] {
        assert_eq!(d.class_zero, Class::UnsetC);
        assert_eq!(d.class_n, Class::UnsetC);
        assert_eq!(d.class_five, Class::UnsetC);
        assert!(d.history.is_empty());
        assert_eq!(d.race, Race::UnsetR);
    }
}

#[test]
fn class_labels_use_exact_ordinals() {
    assert_eq!(Class::Quintile(1).label(), "1st Quintile");
    assert_eq!(Class::Quintile(2).label(), "2nd Quintile");
    assert_eq!(Class::Quintile(3).label(), "3rd Quintile");
    assert_eq!(Class::Quintile(4).label(), "4th Quintile");
    assert_eq!(Class::Quintile(5).label(), "5th Quintile");
    assert_eq!(Class::Incarcerated.label(), "Incarcerated");
    assert_eq!(Class::UnsetC.label(), "");
}

#[test]
fn race_labels() {
    assert_eq!(Race::Black.label(), "Black");
    assert_eq!(Race::White.label(), "White");
    assert_eq!(Race::UnsetR.label(), "");
}

#[test]
fn demo_labels() {
    let mut d = Demo::new();
    assert_eq!(d.label(), "Empty Demographic");
    d.race = Race::Black;
    assert_eq!(d.label(), "Black: ?");
    d.class_n = Class::Quintile(3);
    assert_eq!(d.label(), "Black: 3rd Quintile");
    d.class_n = Class::Incarcerated;
    assert_eq!(d.label(), "Black: Incarcerated");
}
