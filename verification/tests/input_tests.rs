use water_advisor::input::{parse_reading_e4, InputEditor, InputError};

fn buffer_string(e: &InputEditor) -> String {
    e.buffer().iter().collect()
}

#[test]
fn editor_collects_and_confirms() {
    let mut e = InputEditor::new();
    for k in ['2', '.', '5'] {
        e.step(k);
        assert!(!e.is_confirmed());
    }
    e.step('#');
    assert!(e.is_confirmed());
    assert_eq!(buffer_string(&e), "2.5");
    let v = parse_reading_e4(e.buffer()).unwrap();
    assert_eq!(v, 25_000);
    assert_eq!(v as f64 / 10_000.0, 2.5);
}

#[test]
fn editor_star_is_decimal_point() {
    let mut e = InputEditor::new();
    e.step('3');
    e.step('*');
    e.step('5');
    e.step('#');
    assert!(e.is_confirmed());
    assert_eq!(buffer_string(&e), "3.5");
}

#[test]
fn editor_rejects_blank_confirm() {
    let mut e = InputEditor::new();
    e.step('#');
    assert!(!e.is_confirmed());
    assert_eq!(buffer_string(&e), "");
    // A later digit and confirm still work.
    e.step('7');
    e.step('#');
    assert!(e.is_confirmed());
    assert_eq!(buffer_string(&e), "7");
}

#[test]
fn editor_idle_changes_nothing() {
    let mut e = InputEditor::new();
    e.step(' ');
    e.step('4');
    e.step(' ');
    assert!(!e.is_confirmed());
    assert_eq!(buffer_string(&e), "4");
}

#[test]
fn editor_drops_keys_at_full_width() {
    let mut e = InputEditor::new();
    for _ in 0..20 {
        e.step('9');
    }
    assert_eq!(e.buffer().len(), 16);
    assert!(!e.is_confirmed());
}

#[test]
fn editor_ignores_keys_after_confirm() {
    let mut e = InputEditor::new();
    e.step('1');
    e.step('#');
    assert!(e.is_confirmed());
    e.step('2');
    assert_eq!(buffer_string(&e), "1");
    assert!(e.is_confirmed());
}

#[test]
fn parse_plain_and_fractional() {
    assert_eq!(parse_reading_e4(&vec!['7']), Ok(70_000));
    assert_eq!(parse_reading_e4(&vec!['4', '0', '0']), Ok(4_000_000));
    assert_eq!(parse_reading_e4(&vec!['0', '.', '5']), Ok(5_000));
    assert_eq!(parse_reading_e4(&vec!['.', '5']), Ok(5_000));
    assert_eq!(parse_reading_e4(&vec!['5', '.']), Ok(50_000));
    assert_eq!(parse_reading_e4(&vec!['2', '.', '5']), Ok(25_000));
}

#[test]
fn parse_ignores_fifth_fraction_digit() {
    // 3.14159: only four fractional digits carry weight at the 10^4 scale.
    let b = vec!['3', '.', '1', '4', '1', '5', '9'];
    assert_eq!(parse_reading_e4(&b), Ok(31_415));
}

#[test]
fn parse_rejects_bad_input() {
    assert_eq!(
        parse_reading_e4(&vec![]),
        Err(InputError::InvalidNumericInput)
    );
    assert_eq!(
        parse_reading_e4(&vec!['.']),
        Err(InputError::InvalidNumericInput)
    );
    assert_eq!(
        parse_reading_e4(&vec!['1', '.', '2', '.', '3']),
        Err(InputError::InvalidNumericInput)
    );
    assert_eq!(
        parse_reading_e4(&vec!['1', '2', 'a']),
        Err(InputError::InvalidNumericInput)
    );
}

#[test]
fn parse_rejects_out_of_range() {
    // Thirteen nines: 9,999,999,999,999 is beyond the 10^12 reading cap.
    let b = vec!['9'; 13];
    assert_eq!(parse_reading_e4(&b), Err(InputError::InvalidNumericInput));
    // Exactly the cap parses.
    let mut c = vec!['1'];
    c.extend(std::iter::repeat('0').take(12));
    assert_eq!(parse_reading_e4(&c), Ok(10_000_000_000_000_000));
}
