use uprobestats::art::{method_offset_from_oatdump_output, OatdumpError};

const SIG: &str = "void com.example.Foo.bar(int)";

#[test]
fn finds_offset_of_listed_method() {
    let out = format!(
        "{{\"method\": \"void com.example.Foo.other()\", \"offset\": \"0x10\"}}\n{{\"method\": \"{SIG}\", \"offset\": \"0x1a2b\"}}\n"
    );
    assert_eq!(method_offset_from_oatdump_output(out.as_bytes(), SIG), Ok(Some(0x1a2b)));
}

#[test]
fn absent_method_gives_none() {
    let out = "{\"method\": \"void a.B.c()\", \"offset\": \"0x10\"}\n";
    assert_eq!(method_offset_from_oatdump_output(out.as_bytes(), SIG), Ok(None));
    assert_eq!(method_offset_from_oatdump_output(b"", SIG), Ok(None));
}

#[test]
fn errors() {
    assert_eq!(
        method_offset_from_oatdump_output(&[0xff, 0xfe], SIG),
        Err(OatdumpError::StdoutNotUtf8)
    );
    assert_eq!(
        method_offset_from_oatdump_output(b"not json\n", SIG),
        Err(OatdumpError::BadJson)
    );
    assert_eq!(
        method_offset_from_oatdump_output(b"{\"offset\": \"0x1\"}", SIG),
        Err(OatdumpError::BadJsonMethod)
    );
    let no_offset = format!("{{\"method\": \"{SIG}\"}}");
    assert_eq!(
        method_offset_from_oatdump_output(no_offset.as_bytes(), SIG),
        Err(OatdumpError::BadJsonOffset)
    );
    let bad_offset = format!("{{\"method\": \"{SIG}\", \"offset\": \"0xzz\"}}");
    assert_eq!(
        method_offset_from_oatdump_output(bad_offset.as_bytes(), SIG),
        Err(OatdumpError::BadOffset)
    );
    // A broken line before the method's line ends the reading.
    let broken_first = format!("oops\n{{\"method\": \"{SIG}\", \"offset\": \"0x1\"}}");
    assert_eq!(
        method_offset_from_oatdump_output(broken_first.as_bytes(), SIG),
        Err(OatdumpError::BadJson)
    );
}

#[test]
fn offset_without_prefix_and_with_crlf() {
    let out = format!("{{\"method\": \"{SIG}\", \"offset\": \"ff\"}}\r\n");
    assert_eq!(method_offset_from_oatdump_output(out.as_bytes(), SIG), Ok(Some(255)));
}
