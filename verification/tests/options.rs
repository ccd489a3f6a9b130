use oxc_prettier::options::{OptionsError, PrettierOptions, MAX_INDENT_WIDTH, MAX_PRINT_WIDTH};

#[test]
fn default_options() {
    let options = PrettierOptions::default();
    assert_eq!(options.print_width, 80);
    assert_eq!(options.indent_width, 2);
    assert!(options.semi);
    assert!(!options.single_quote);
}

#[test]
fn options_in_range_are_accepted() {
    let options = PrettierOptions::new(1, 0, false, true).unwrap();
    assert_eq!(options.print_width, 1);
    assert_eq!(options.indent_width, 0);
    assert!(!options.semi);
    assert!(options.single_quote);
    assert!(PrettierOptions::new(MAX_PRINT_WIDTH, MAX_INDENT_WIDTH, true, false).is_ok());
}

#[test]
fn print_width_out_of_range_is_rejected() {
    assert_eq!(PrettierOptions::new(0, 2, true, false).err(), Some(OptionsError::PrintWidthOutOfRange));
    assert_eq!(
        PrettierOptions::new(MAX_PRINT_WIDTH + 1, 2, true, false).err(),
        Some(OptionsError::PrintWidthOutOfRange)
    );
}

#[test]
fn indent_width_out_of_range_is_rejected() {
    assert_eq!(
        PrettierOptions::new(80, MAX_INDENT_WIDTH + 1, true, false).err(),
        Some(OptionsError::IndentWidthOutOfRange)
    );
}

#[test]
fn print_width_is_looked_at_first() {
    assert_eq!(
        PrettierOptions::new(0, MAX_INDENT_WIDTH + 1, true, false).err(),
        Some(OptionsError::PrintWidthOutOfRange)
    );
}

#[test]
fn error_messages_name_the_option() {
    assert_eq!(OptionsError::PrintWidthOutOfRange.message(), "print width must be between 1 and 65535");
    assert_eq!(OptionsError::IndentWidthOutOfRange.message(), "indent width must be at most 255");
}
