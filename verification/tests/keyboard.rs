use kernel_core::cpu::InterruptFlag;
use kernel_core::keyboard::get_hex;
use kernel_core::keyboard::Keyboard;
use kernel_core::keyboard::KeyboardData;
use kernel_core::keyboard::ScanCode;

#[test]
fn decodes_printable_make_codes() {
    let kb = KeyboardData::new();
    assert_eq!(Some('a'), kb.from_scancode(ScanCode(0x1e)));
    assert_eq!(Some('q'), kb.from_scancode(ScanCode(0x10)));
    assert_eq!(Some('z'), kb.from_scancode(ScanCode(0x2c)));
    assert_eq!(Some('1'), kb.from_scancode(ScanCode(0x02)));
    assert_eq!(Some('0'), kb.from_scancode(ScanCode(0x0b)));
    assert_eq!(Some(' '), kb.from_scancode(ScanCode(0x39)));
    assert_eq!(Some('\n'), kb.from_scancode(ScanCode(28)));
    assert_eq!(Some('*'), kb.from_scancode(ScanCode(0x37)));
    assert_eq!(None, kb.from_scancode(ScanCode(0x00)));
    assert_eq!(None, kb.from_scancode(ScanCode(0x81)));
}

#[test]
fn shift_uppercases_letters_only() {
    let mut kb = KeyboardData::new();
    kb.isr(ScanCode(0x2a)); // left shift pressed
    assert_eq!(Some('A'), kb.from_scancode(ScanCode(0x1e)));
    assert_eq!(Some('1'), kb.from_scancode(ScanCode(0x02)));
    kb.isr(ScanCode(0xaa)); // left shift released
    assert_eq!(Some('a'), kb.from_scancode(ScanCode(0x1e)));

    kb.isr(ScanCode(0x36)); // right shift pressed
    assert_eq!(Some('Z'), kb.from_scancode(ScanCode(0x2c)));
    kb.isr(ScanCode(0xb6)); // right shift released
    assert_eq!(Some('z'), kb.from_scancode(ScanCode(0x2c)));
}

#[test]
fn handler_queues_decoded_characters_in_order() {
    let mut kb = KeyboardData::new();
    kb.isr(ScanCode(0x23)); // h
    kb.isr(ScanCode(0x17)); // i
    assert_eq!(Some('h'), kb.try_dequeue());
    assert_eq!(Some('i'), kb.try_dequeue());
    assert_eq!(None, kb.try_dequeue());
}

#[test]
fn handler_spells_unknown_make_codes_in_hex() {
    let mut kb = KeyboardData::new();
    kb.isr(ScanCode(0x3b)); // a function key: not printable, not shift
    assert_eq!(Some('['), kb.try_dequeue());
    assert_eq!(Some('3'), kb.try_dequeue());
    assert_eq!(Some('B'), kb.try_dequeue());
    assert_eq!(Some(']'), kb.try_dequeue());
    assert_eq!(None, kb.try_dequeue());
}

#[test]
fn handler_ignores_other_key_releases() {
    let mut kb = KeyboardData::new();
    kb.isr(ScanCode(0x9e)); // release of 'a'
    assert_eq!(None, kb.try_dequeue());
}

#[test]
fn hex_digits_cover_both_ranges() {
    assert_eq!('0', get_hex(0));
    assert_eq!('9', get_hex(9));
    assert_eq!('A', get_hex(10));
    assert_eq!('F', get_hex(15));
}

#[test]
fn driver_restores_the_interrupt_flag() {
    let mut flag = InterruptFlag { enabled: true };
    let mut kb = Keyboard::new();

    kb.isr(&mut flag, ScanCode(0x1e));
    assert!(flag.enabled);
    assert_eq!(Some('a'), kb.try_dequeue(&mut flag));
    assert!(flag.enabled);
    assert_eq!(None, kb.try_dequeue(&mut flag));

    let mut flag = InterruptFlag { enabled: false };
    kb.isr(&mut flag, ScanCode(0x1e));
    assert!(!flag.enabled);
    assert_eq!(Some('a'), kb.try_dequeue(&mut flag));
    assert!(!flag.enabled);
}
