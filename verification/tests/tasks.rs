use kernel_core::tasks::clock;
use kernel_core::tasks::echo;
use kernel_core::tasks::keyboard;

#[test]
fn echo_forwards_every_byte_and_spots_the_quit_command() {
    let step = echo(b'x');
    assert!(!step.shutdown);
    assert_eq!(b'x', step.output);

    let step = echo(b'Q');
    assert!(step.shutdown);
    assert_eq!(b'Q', step.output);
}

#[test]
fn clock_displays_only_when_the_count_moved() {
    assert_eq!(None, clock(5, 5));
    assert_eq!(Some(6), clock(6, 5));
    assert_eq!(Some(100), clock(100, 7));
    assert_eq!(None, clock(0, 0));
}

#[test]
fn keyboard_prints_everything_but_the_quit_command() {
    let step = keyboard('a');
    assert!(!step.shutdown);
    assert_eq!(Some('a'), step.console);

    let step = keyboard('Q');
    assert!(step.shutdown);
    assert_eq!(None, step.console);
}
