use graphics_labs::input::Key;
use graphics_labs::lab::{start_lab, switch_lab_system, Lab};

/// Presses the keys for one frame: the lab switches when the keys ask for it.
fn press(current: &mut Lab, keys: &[Key]) {
    if let Some(lab) = switch_lab_system(keys, *current) {
        *current = lab;
    }
}

#[test]
fn tab_cycles_labs_in_order() {
    let mut current = Lab::Lab1;
    for expected in [Lab::Lab2, Lab::Lab3, Lab::Lab1] {
        press(&mut current, &[Key::Tab]);
        assert_eq!(current, expected);
    }
}

#[test]
fn start_lab_is_parsed_from_argument() {
    assert_eq!(Lab::from_arg("1"), Some(Lab::Lab1));
    assert_eq!(Lab::from_arg(" 2 "), Some(Lab::Lab2));
    assert_eq!(Lab::from_arg("3"), Some(Lab::Lab3));
    assert_eq!(Lab::from_arg("x"), None);
}

#[test]
fn argument_trimming_follows_unicode_whitespace() {
    assert_eq!(Lab::from_arg("\t3\n"), Some(Lab::Lab3));
    assert_eq!(Lab::from_arg("\u{3000}1\u{00a0}"), Some(Lab::Lab1));
    assert_eq!(Lab::from_arg(""), None);
    assert_eq!(Lab::from_arg("   "), None);
    assert_eq!(Lab::from_arg("12"), None);
    assert_eq!(Lab::from_arg("1 2"), None);
    assert_eq!(Lab::from_arg("4"), None);
    assert_eq!(Lab::from_arg("0"), None);
    assert_eq!(Lab::from_arg("١"), None);
}

#[test]
fn function_keys_choose_labs_directly() {
    assert_eq!(switch_lab_system(&[Key::F1], Lab::Lab3), Some(Lab::Lab1));
    assert_eq!(switch_lab_system(&[Key::F2], Lab::Lab3), Some(Lab::Lab2));
    assert_eq!(switch_lab_system(&[Key::F3], Lab::Lab1), Some(Lab::Lab3));
    // The lab already shown is not entered again.
    assert_eq!(switch_lab_system(&[Key::F3], Lab::Lab3), None);
    // F1 comes before F2, F3 and Tab.
    assert_eq!(
        switch_lab_system(&[Key::Tab, Key::F3, Key::F1], Lab::Lab2),
        Some(Lab::Lab1)
    );
    assert_eq!(switch_lab_system(&[Key::Tab, Key::F3], Lab::Lab1), Some(Lab::Lab3));
    assert_eq!(switch_lab_system(&[Key::Space, Key::KeyA], Lab::Lab1), None);
    assert_eq!(switch_lab_system(&[], Lab::Lab2), None);
}

#[test]
fn next_lab_round_has_period_three() {
    for lab in [Lab::Lab1, Lab::Lab2, Lab::Lab3] {
        assert_ne!(lab.next(), lab);
        assert_eq!(lab.next().next().next(), lab);
    }
    assert_eq!(Lab::Lab3.next(), Lab::Lab1);
}

#[test]
fn titles_name_the_lab_and_its_keys() {
    assert_eq!(
        Lab::Lab1.title(),
        "Лаба 1: цвет и вращение тора | Пробел, 1-5, A: авто | F1 F2 F3 / Tab: выбор лабы"
    );
    assert_eq!(
        Lab::Lab2.title(),
        "Лаба 2: авто-смена цвета, glam и Vec | Пробел, 1-5, L: плавно | F1 F2 F3 / Tab"
    );
    assert_eq!(
        Lab::Lab3.title(),
        "Лаба 3: четыре объекта носиками к центру | R: вращение | F1 F2 F3 / Tab"
    );
}

#[test]
fn program_opens_lab3_unless_the_argument_names_another() {
    assert_eq!(start_lab(None), Lab::Lab3);
    assert_eq!(start_lab(Some("1")), Lab::Lab1);
    assert_eq!(start_lab(Some(" 2\n")), Lab::Lab2);
    assert_eq!(start_lab(Some("lab1")), Lab::Lab3);
}
