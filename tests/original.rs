use ansistream::registry::{
    BC_BLUE, BC_DARK_GRAY, BC_GREEN, BC_YELLOW, FC_BLUE, FC_GREEN, FC_MAGENTA, FC_RED, FC_YELLOW,
};
use ansistream::AnsiEscapeStream;

#[test]
fn test_write_bytes() {
    // write bytes to stream using byte string literal aka. b.
    let mut astream = AnsiEscapeStream::new();
    astream.write(b"abcde");

    let result = String::from_utf8_lossy(astream.buffer());
    assert_eq!("abcde", result);

    // write byes to stream using an array
    let mut astream = AnsiEscapeStream::new();
    let arr = [1, 2, 3, 4, 5];
    astream.write(&arr);
    let vec = astream.buffer();
    assert_eq!(&arr, vec);

    // write a vector to stream
    let mut astream = AnsiEscapeStream::new();
    let vec = vec![1, 2, 3, 4, 5];
    astream.write(&vec);
    assert_eq!(&vec, astream.buffer());
}

#[test]
fn test_write_attribute_function() {
    let mut astream = AnsiEscapeStream::new();
    astream.write_attribute(FC_RED);
    let vec = astream.buffer();
    assert_eq!(&[0x1b, 0x5b, 0x33, 0x31, 0x6d], vec);
}

#[test]
fn test_reset_attibute_function() {
    let mut astream = AnsiEscapeStream::new();
    astream.reset_attribute(FC_RED);
    let vec = astream.buffer();
    assert_eq!(&[0x1b, 0x5b, 0x33, 0x39, 0x6d], vec);
}

#[test]
fn test_drefmut_implementation() {
    let mut astream = AnsiEscapeStream::new();
    astream.write_string(" ");
    assert_eq!(&[0x20], astream.buffer());
}

#[test]
fn test_write_text_fc_fmt_function() {
    let mut astream = AnsiEscapeStream::new();
    astream.write_text_fc_fmt(FC_GREEN, "123");
    assert_eq!(
        &[0x1b, 0x5b, 0x33, 0x32, 0x6d, 0x31, 0x32, 0x33, 0x1b, 0x5b, 0x33, 0x39, 0x6d],
        astream.buffer()
    );

    astream.take_buffer();

    // a background color is taken as its foreground counterpart
    astream.write_text_fc_fmt(BC_YELLOW, "123");
    assert_eq!(
        &[0x1b, 0x5b, 0x39, 0x33, 0x6d, 0x31, 0x32, 0x33, 0x1b, 0x5b, 0x33, 0x39, 0x6d],
        astream.buffer()
    )
}

#[test]
fn test_write_text_bc_fmt_function() {
    let mut astream = AnsiEscapeStream::new();
    astream.write_text_bc_fmt(BC_GREEN, "123");
    assert_eq!(
        &[0x1b, 0x5b, 0x34, 0x32, 0x6d, 0x31, 0x32, 0x33, 0x1b, 0x5b, 0x34, 0x39, 0x6d],
        astream.buffer()
    );

    astream.take_buffer();

    // a foreground color is taken as its background counterpart
    astream.write_text_bc_fmt(FC_YELLOW, "123");
    assert_eq!(
        &[0x1b, 0x5b, 0x31, 0x30, 0x33, 0x6d, 0x31, 0x32, 0x33, 0x1b, 0x5b, 0x34, 0x39, 0x6d],
        astream.buffer()
    )
}

#[test]
fn test_write_text_color_function() {
    // no reset after empty text
    let mut astream = AnsiEscapeStream::new();
    astream.write_text_color(FC_MAGENTA, BC_DARK_GRAY, "");
    assert_eq!(
        &[0x1b, 0x5b, 0x33, 0x35, 0x3b, 0x31, 0x30, 0x30, 0x6d],
        astream.buffer()
    );

    astream.take_buffer();
    // both colors reset after the text
    astream.write_text_color(FC_MAGENTA, BC_DARK_GRAY, "012");
    assert_eq!(
        &[
            0x1b, 0x5b, 0x33, 0x35, 0x3b, 0x31, 0x30, 0x30, 0x6d, 0x30, 0x31, 0x32, 0x1b, 0x5b,
            0x33, 0x39, 0x6d, 0x1b, 0x5b, 0x34, 0x39, 0x6d
        ],
        astream.buffer()
    );
}

#[test]
fn test_write_text_fc256_function() {
    // no reset after empty text
    let mut astream = AnsiEscapeStream::new();
    astream.write_text_fc256(FC_BLUE, "");
    assert_eq!(
        &[0x1b, 0x5b, 0x33, 0x38, 0x3b, 0x35, 0x3b, 0x33, 0x34, 0x6d],
        astream.buffer()
    );
    astream.take_buffer();

    // reset after the text
    astream.write_text_fc256(FC_BLUE, "012");
    assert_eq!(
        &[
            0x1b, 0x5b, 0x33, 0x38, 0x3b, 0x35, 0x3b, 0x33, 0x34, 0x6d, 0x30, 0x31, 0x32, 0x1b,
            0x5b, 0x33, 0x39, 0x6d
        ],
        astream.buffer()
    );
}

#[test]
fn test_write_text_bc256_function() {
    // no reset after empty text
    let mut astream = AnsiEscapeStream::new();
    astream.write_text_bc256(BC_BLUE, "");
    assert_eq!(
        &[0x1b, 0x5b, 0x34, 0x38, 0x3b, 0x35, 0x3b, 0x34, 0x34, 0x6d],
        astream.buffer()
    );
    astream.take_buffer();

    // reset after the text
    astream.write_text_bc256(BC_BLUE, "012");
    assert_eq!(
        &[
            0x1b, 0x5b, 0x34, 0x38, 0x3b, 0x35, 0x3b, 0x34, 0x34, 0x6d, 0x30, 0x31, 0x32, 0x1b,
            0x5b, 0x34, 0x39, 0x6d
        ],
        astream.buffer()
    );
}

#[test]
fn test_write_text_fcrgb() {
    // no reset after empty text
    let mut astream = AnsiEscapeStream::new();
    astream.write_text_fcrgb(255, 255, 255, "");
    assert_eq!(
        &[
            27, 91, 0x33, 0x38, 59, 0x32, 59, 0x32, 0x35, 0x35, 59, 0x32, 0x35, 0x35, 59, 0x32,
            0x35, 0x35, 109
        ],
        astream.buffer()
    );
    astream.take_buffer();

    // reset after the text
    astream.write_text_fcrgb(255, 255, 255, "012");
    assert_eq!(
        &[
            27, 91, 0x33, 0x38, 59, 0x32, 59, 0x32, 0x35, 0x35, 59, 0x32, 0x35, 0x35, 59, 0x32,
            0x35, 0x35, 109, 0x30, 0x31, 0x32, 27, 91, 0x33, 0x39, 109
        ],
        astream.buffer()
    );
}

#[test]
fn test_write_text_bcrgb() {
    // no reset after empty text
    let mut astream = AnsiEscapeStream::new();
    astream.write_text_bcrgb(255, 255, 255, "");
    assert_eq!(
        &[
            27, 91, 0x34, 0x38, 59, 0x32, 59, 0x32, 0x35, 0x35, 59, 0x32, 0x35, 0x35, 59, 0x32,
            0x35, 0x35, 109
        ],
        astream.buffer()
    );
    astream.take_buffer();

    // reset after the text
    astream.write_text_bcrgb(255, 255, 255, "012");
    assert_eq!(
        &[
            27, 91, 0x34, 0x38, 59, 0x32, 59, 0x32, 0x35, 0x35, 59, 0x32, 0x35, 0x35, 59, 0x32,
            0x35, 0x35, 109, 0x30, 0x31, 0x32, 27, 91, 0x34, 0x39, 109
        ],
        astream.buffer()
    );
}

#[test]
fn test_write_text_color_fmt() {
    let mut astream = AnsiEscapeStream::new();
    astream.write_text_color_fmt(FC_MAGENTA, BC_DARK_GRAY, "012");
    assert_eq!(
        &[
            0x1b, 0x5b, 0x33, 0x35, 0x3b, 0x31, 0x30, 0x30, 0x6d, 0x30, 0x31, 0x32, 0x1b, 0x5b,
            0x33, 0x39, 0x6d, 0x1b, 0x5b, 0x34, 0x39, 0x6d
        ],
        astream.buffer()
    );
}

#[test]
fn test_write_text_fc256_fmt() {
    let mut astream = AnsiEscapeStream::new();
    astream.write_text_fc256_fmt(FC_BLUE, "012");
    assert_eq!(
        &[
            0x1b, 0x5b, 0x33, 0x38, 0x3b, 0x35, 0x3b, 0x33, 0x34, 0x6d, 0x30, 0x31, 0x32, 0x1b,
            0x5b, 0x33, 0x39, 0x6d
        ],
        astream.buffer()
    );
}

#[test]
fn test_write_text_bc256_fmt() {
    let mut astream = AnsiEscapeStream::new();
    astream.write_text_bc256_fmt(BC_BLUE, "012");
    assert_eq!(
        &[
            0x1b, 0x5b, 0x34, 0x38, 0x3b, 0x35, 0x3b, 0x34, 0x34, 0x6d, 0x30, 0x31, 0x32, 0x1b,
            0x5b, 0x34, 0x39, 0x6d
        ],
        astream.buffer()
    );
}

#[test]
fn test_write_text_fcrgb_fmt() {
    let mut astream = AnsiEscapeStream::new();
    astream.write_text_fcrgb_fmt(255, 255, 255, "012");
    assert_eq!(
        &[
            27, 91, 0x33, 0x38, 59, 0x32, 59, 0x32, 0x35, 0x35, 59, 0x32, 0x35, 0x35, 59, 0x32,
            0x35, 0x35, 109, 0x30, 0x31, 0x32, 27, 91, 0x33, 0x39, 109
        ],
        astream.buffer()
    );
}

#[test]
fn test_write_text_bcrgb_fmt() {
    let mut astream = AnsiEscapeStream::new();
    astream.write_text_bcrgb_fmt(255, 255, 255, "012");
    assert_eq!(
        &[
            27, 91, 0x34, 0x38, 59, 0x32, 59, 0x32, 0x35, 0x35, 59, 0x32, 0x35, 0x35, 59, 0x32,
            0x35, 0x35, 109, 0x30, 0x31, 0x32, 27, 91, 0x34, 0x39, 109
        ],
        astream.buffer()
    );
}
