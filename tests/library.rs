use cargo_file_gen::content::{
    ascii_content, lorem_batch_words, lorem_content, truncated, zero_content, ASCII_SPAN,
};
use cargo_file_gen::error::FileGenError;
use cargo_file_gen::file_size::{FileSize, SizeType};
use cargo_file_gen::validate::{
    check_argument_compatability, check_extension, check_path, validate_arguments, ContentMode,
};

fn parsed(s: &str) -> FileSize {
    FileSize::parse(s).expect("size should parse")
}

#[test]
fn parses_each_unit() {
    assert_eq!(parsed("10b"), FileSize { amount: 10, size: SizeType::Byte });
    assert_eq!(parsed("1kb"), FileSize { amount: 1, size: SizeType::KiloByte });
    assert_eq!(parsed("5mb"), FileSize { amount: 5, size: SizeType::MegaByte });
    assert_eq!(parsed("3gb"), FileSize { amount: 3, size: SizeType::GigaByte });
}

#[test]
fn parses_units_in_any_case() {
    assert_eq!(parsed("7B").size, SizeType::Byte);
    assert_eq!(parsed("7KB").size, SizeType::KiloByte);
    assert_eq!(parsed("7kB").size, SizeType::KiloByte);
    assert_eq!(parsed("7Mb").size, SizeType::MegaByte);
    assert_eq!(parsed("7gB").size, SizeType::GigaByte);
}

#[test]
fn unicode_lowercasing_applies_to_the_unit() {
    // KELVIN SIGN lower-cases to 'k'.
    assert_eq!(parsed("2\u{212A}B"), FileSize { amount: 2, size: SizeType::KiloByte });
}

#[test]
fn byte_counts_multiply_by_the_factor() {
    assert_eq!(parsed("10b").byte_amount(), 10);
    assert_eq!(parsed("1kb").byte_amount(), 1024);
    assert_eq!(parsed("5mb").byte_amount(), 5 * 1024 * 1024);
    assert_eq!(parsed("2gb").byte_amount(), 2 * 1024 * 1024 * 1024);
    assert_eq!(parsed("0kb").byte_amount(), 0);
}

#[test]
fn byte_factors() {
    assert_eq!(SizeType::Byte.to_byte_factor(), 1);
    assert_eq!(SizeType::KiloByte.to_byte_factor(), 1024);
    assert_eq!(SizeType::MegaByte.to_byte_factor(), 1048576);
    assert_eq!(SizeType::GigaByte.to_byte_factor(), 1073741824);
}

#[test]
fn largest_amount_parses() {
    assert_eq!(parsed("18446744073709551615b").amount, u64::MAX);
    assert_eq!(parsed("18446744073709551615b").checked_byte_amount(), Some(u64::MAX));
    assert_eq!(parsed("18446744073709551615kb").checked_byte_amount(), None);
    assert_eq!(parsed("16gb").checked_byte_amount(), Some(16 * 1073741824));
}

#[test]
fn missing_amount_is_refused() {
    for s in ["abc", "", "mb", "kb10", " 10b", "-1b"] {
        assert_eq!(FileSize::parse(s), Err(FileGenError::InvalidAmountForSizeError), "{s}");
    }
}

#[test]
fn overflowing_amount_is_refused() {
    assert_eq!(
        FileSize::parse("18446744073709551616b"),
        Err(FileGenError::InvalidAmountForSizeError)
    );
    assert_eq!(
        FileSize::parse("99999999999999999999999999xx"),
        Err(FileGenError::InvalidAmountForSizeError)
    );
}

#[test]
fn unknown_unit_is_refused() {
    for s in ["10xx", "10", "10kbb", "10k b", "1b2", "10 kb", "5tb"] {
        assert_eq!(FileSize::parse(s), Err(FileGenError::InvalidTypeForSizeError), "{s}");
    }
}

#[test]
fn unit_names() {
    assert_eq!(SizeType::parse("GB"), Ok(SizeType::GigaByte));
    assert_eq!(SizeType::parse(""), Err(FileGenError::InvalidTypeForSizeError));
    assert_eq!(SizeType::from_lowercase("mb"), Ok(SizeType::MegaByte));
    assert_eq!(SizeType::from_lowercase("MB"), Err(FileGenError::InvalidTypeForSizeError));
}

#[test]
fn zero_content_is_all_zero() {
    assert!(zero_content(0).is_empty());
    let v = zero_content(10);
    assert_eq!(v.len(), 10);
    assert!(v.iter().all(|b| *b == 0));
}

#[test]
fn ascii_content_shifts_offsets() {
    let offsets: Vec<u8> = (0..ASCII_SPAN).collect();
    let v = ascii_content(&offsets);
    assert_eq!(v.len(), 105);
    assert_eq!(v[0], 21);
    assert_eq!(v[104], 125);
    assert!(v.iter().all(|b| (21..=125).contains(b)));
    assert!(ascii_content(&Vec::new()).is_empty());
}

#[test]
fn lorem_batch_sizes() {
    assert_eq!(lorem_batch_words(100, 0), 15);
    assert_eq!(lorem_batch_words(7, 0), 2);
    assert_eq!(lorem_batch_words(6, 0), 1);
    assert_eq!(lorem_batch_words(10, 9), 1);
    assert_eq!(lorem_batch_words(1024, 24), 148);
}

#[test]
fn lorem_content_has_exact_length() {
    for n in [0usize, 1, 5, 100, 4096] {
        assert_eq!(lorem_content(n).len(), n);
    }
    let text = lorem_content(11);
    assert_eq!(&text[..], b"Lorem ipsum");
}

#[test]
fn truncation_keeps_the_prefix() {
    assert_eq!(truncated(vec![1, 2, 3, 4], 2), vec![1, 2]);
    assert_eq!(truncated(vec![1, 2], 2), vec![1, 2]);
}

#[test]
fn ascii_and_lorem_together_are_refused() {
    assert_eq!(
        check_argument_compatability(true, true),
        Err(FileGenError::IncompatibleAsciiLoremError)
    );
    assert_eq!(check_argument_compatability(true, false), Ok(ContentMode::Ascii));
    assert_eq!(check_argument_compatability(false, true), Ok(ContentMode::Lorem));
    assert_eq!(check_argument_compatability(false, false), Ok(ContentMode::Zero));
    assert_eq!(
        validate_arguments("out/file.txt", true, true),
        Err(FileGenError::IncompatibleAsciiLoremError)
    );
}

#[test]
fn paths_without_extension_are_refused() {
    assert_eq!(check_path("output"), Err(FileGenError::DirectoryPassedError));
    assert_eq!(check_path("output.bin"), Ok(()));
    assert_eq!(check_path("."), Err(FileGenError::DirectoryPassedError));
    assert_eq!(check_path("dir.d/output"), Err(FileGenError::DirectoryPassedError));
    assert_eq!(check_path(".hidden"), Err(FileGenError::DirectoryPassedError));
    assert_eq!(check_extension(true), Ok(()));
    assert_eq!(check_extension(false), Err(FileGenError::DirectoryPassedError));
    // The path is checked before the flags.
    assert_eq!(validate_arguments("output", true, true), Err(FileGenError::DirectoryPassedError));
}

#[test]
fn error_messages() {
    assert_eq!(
        FileGenError::IncompatibleAsciiLoremError.message(),
        "You cannot pass --ascii and --lorem at the same time"
    );
    assert_eq!(
        FileGenError::InvalidAmountForSizeError.message(),
        "Invalid amount passed for the size"
    );
    assert_eq!(
        FileGenError::InvalidTypeForSizeError.message(),
        "Invalid type passed for size! Valid options are 'b', 'kb', 'mb' and 'gb'"
    );
    assert_eq!(
        FileGenError::DirectoryPassedError.message(),
        "Invalid path passed! Directory was passed instead of file"
    );
}

#[test]
fn ten_bytes_of_zeros() {
    assert_eq!(validate_arguments("output.bin", false, false), Ok(ContentMode::Zero));
    let n = parsed("10b").byte_amount() as usize;
    let data = zero_content(n);
    assert_eq!(data, vec![0u8; 10]);
}

#[test]
fn one_kilobyte_of_ascii() {
    assert_eq!(validate_arguments("output.bin", true, false), Ok(ContentMode::Ascii));
    let n = parsed("1kb").byte_amount() as usize;
    let offsets: Vec<u8> = (0..n).map(|i| (i % 105) as u8).collect();
    let data = ascii_content(&offsets);
    assert_eq!(data.len(), 1024);
    assert!(data.iter().all(|b| (21..=125).contains(b)));
}

#[test]
fn ascii_with_lorem_message() {
    let e = validate_arguments("output.bin", true, true).unwrap_err();
    assert_eq!(e.message(), "You cannot pass --ascii and --lorem at the same time");
    assert_eq!(parsed("5mb").byte_amount(), 5242880);
}

#[test]
fn non_numeric_size_message() {
    let e = FileSize::parse("abc").unwrap_err();
    assert_eq!(e, FileGenError::InvalidAmountForSizeError);
    assert_eq!(e.message(), "Invalid amount passed for the size");
}

#[test]
fn unknown_unit_message() {
    let e = FileSize::parse("10xx").unwrap_err();
    assert_eq!(
        e.message(),
        "Invalid type passed for size! Valid options are 'b', 'kb', 'mb' and 'gb'"
    );
}
