use drink_o_matic::mock::{Chip, LineRequestFlags};

#[test]
fn the_stand_in_chip_opens_under_any_name() {
    assert!(Chip::new("gpiochip0").is_ok());
    assert!(Chip::new("").is_ok());
}

#[test]
fn a_line_remembers_what_was_written_to_it() {
    let mut chip = Chip::new("gpiochip0").unwrap();
    let line = chip.get_line(17).unwrap();
    let mut handle = line.request(LineRequestFlags::OUTPUT, 1, "Pump 2").unwrap();
    assert_eq!(handle.get_offset(), 17);
    assert_eq!(handle.get_consumer(), "Pump 2");
    assert_eq!(handle.get_value(), Ok(1));
    assert_eq!(handle.set_value(0), Ok(()));
    assert_eq!(handle.get_value(), Ok(0));
    assert_eq!(handle.set_value(1), Ok(()));
    assert_eq!(handle.set_value(1), Ok(()));
    assert_eq!(handle.get_value(), Ok(1));
    assert_eq!(handle.get_offset(), 17);
    assert_eq!(handle.get_consumer(), "Pump 2");
}

#[test]
fn lines_do_not_share_their_level() {
    let mut chip = Chip::new("gpiochip0").unwrap();
    let mut first = chip.get_line(1).unwrap().request(LineRequestFlags::OUTPUT, 0, "a").unwrap();
    let second = chip.get_line(2).unwrap().request(LineRequestFlags::INPUT, 0, "b").unwrap();
    first.set_value(1).unwrap();
    assert_eq!(first.get_value(), Ok(1));
    assert_eq!(second.get_value(), Ok(0));
}
