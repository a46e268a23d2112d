use unwind_context::{FixedBufWriter, FlushSink, TextSink, WriteError};

fn expect_str(output: &mut &str, value: &str) -> Result<(), ()> {
    if let Some(rest) = output.strip_prefix(value) {
        *output = rest;
        Ok(())
    } else {
        Err(())
    }
}

fn read_until<'a>(output: &mut &'a str, pat: &str) -> Result<&'a str, ()> {
    if let Some((prefix, suffix)) = output.split_once(pat) {
        *output = suffix;
        Ok(prefix)
    } else {
        Err(())
    }
}

#[test]
fn test_pattern_matcher() {
    let value = "foo bar baz";
    let value_ref = &mut &*value;
    assert_eq!(expect_str(value_ref, "foo"), Ok(()));
    assert_eq!(expect_str(value_ref, " b"), Ok(()));
    assert_eq!(expect_str(value_ref, "art"), Err(()));
    assert_eq!(expect_str(value_ref, "ar"), Ok(()));
    assert_eq!(expect_str(value_ref, " baz"), Ok(()));

    let value = "foo bar baz";
    let value_ref = &mut &*value;
    assert_eq!(read_until(value_ref, " "), Ok("foo"));
    assert_eq!(read_until(value_ref, "a"), Ok("b"));
    assert_eq!(read_until(value_ref, "r"), Ok(""));
    assert_eq!(read_until(value_ref, "q"), Err(()));
    assert_eq!(read_until(value_ref, "a"), Ok(" b"));
    assert_eq!(read_until(value_ref, "z"), Ok(""));
}

#[test]
fn test_no_panic_on_buffer_overflow() {
    let mut writer = FixedBufWriter::new(10);
    assert_eq!(writer.write_str("0123456789"), Ok(()));

    let mut writer = FixedBufWriter::new(9);
    assert_eq!(writer.write_str("0123456789"), Err(WriteError));

    // A buffer without any room left.
    let mut writer = FixedBufWriter::new(0);
    assert_eq!(writer.write_str("0123456789"), Err(WriteError));
}

#[test]
fn test_fixed_buf_counts_bytes() {
    let mut writer = FixedBufWriter::new(5);
    assert_eq!(writer.remaining(), 5);
    assert_eq!(writer.write_str("é"), Ok(()));
    assert_eq!(writer.remaining(), 3);
    assert_eq!(writer.write_char('€'), Ok(()));
    assert_eq!(writer.remaining(), 0);
    assert_eq!(writer.write_char('a'), Err(WriteError));
    assert_eq!(writer.write_str(""), Ok(()));
    assert_eq!(writer.flush_count(), 0);
    assert_eq!(writer.flush(), Ok(()));
    assert_eq!(writer.flush_count(), 1);
    {
        let mut by_ref = &mut writer;
        assert_eq!(FlushSink::flush(&mut by_ref), Ok(()));
    }
    assert_eq!(writer.flush_count(), 2);
    assert_eq!(writer.write_str(""), Ok(()));
    assert_eq!(writer.flush_count(), 2);
    assert_eq!(writer.as_str(), "é€");
    assert_eq!(writer.into_string(), "é€");
}

#[test]
fn test_failed_write_leaves_text() {
    let mut writer = FixedBufWriter::new(4);
    assert_eq!(writer.write_str("abc"), Ok(()));
    assert_eq!(writer.write_str("de"), Err(WriteError));
    assert_eq!(writer.as_str(), "abc");
    assert_eq!(writer.remaining(), 1);
    assert_eq!(writer.write_char('d'), Ok(()));
    assert_eq!(writer.as_str(), "abcd");
}

#[test]
fn test_string_and_reference_sinks() {
    let mut text = String::new();
    assert_eq!(text.write_str("ab"), Ok(()));
    assert_eq!(text.write_char('c'), Ok(()));
    {
        let mut by_ref = &mut text;
        assert_eq!(TextSink::write_str(&mut by_ref, "de"), Ok(()));
        assert_eq!(TextSink::write_char(&mut by_ref, 'f'), Ok(()));
    }
    assert_eq!(text, "abcdef");
}
