//! Reading a method's precompiled offset from what `oatdump` prints: one JSON object
//! per line, with the method's signature under `method` and its offset, in
//! hexadecimal, under `offset`.
use crate::config::opt_view;
use crate::numbers::{parse_i32_in_radix, parse_i32_radix};
use crate::seqs::{first_some, lemma_first_some_all, lemma_first_some_prefix, lemma_first_some_step};
use crate::text::{lines, str_eq, str_lines, str_trim_start_matches, trim_start_matches, utf8_decode};
use vstd::prelude::*;
use vstd::utf8::{decode_utf8, valid_utf8};

verus! {

#[verifier::external_type_specification]
#[verifier::external_body]
pub struct ExJsonError(serde_json::Error);

/// What JSON text holds under a key: `None` when the text is not JSON, `Some(None)` when
/// it holds no string under the key, `Some(Some(s))` when it holds the string `s`.
pub uninterp spec fn json_string_member(text: Seq<char>, key: Seq<char>) -> Option<
    Option<Seq<char>>,
>;

/// The string that the JSON text `text` holds under `key`.
///
/// Trusted: parses with `serde_json::from_str` into a `serde_json::Value`, indexes it
/// with `key` and takes `as_str`. The contract names the outcome as a function of the
/// text and the key alone (`json_string_member`), and says that a parse error comes
/// exactly when that outcome is `None`; what counts as JSON is left to `serde_json`.
#[verifier::external_body]
fn json_str_member(text: &str, key: &str) -> (r: Result<Option<String>, serde_json::Error>)
    ensures
        r is Err <==> json_string_member(text@, key@) is None,
        r matches Ok(v) ==> json_string_member(text@, key@) == Some(opt_view(v)),
{
    match serde_json::from_str::<serde_json::Value>(text) {
        Ok(v) => Ok(v[key].as_str().map(str::to_string)),
        Err(e) => Err(e),
    }
}

/// Why `oatdump`'s output cannot be read.
#[derive(Clone, Copy, Debug, PartialEq, Eq)]
pub enum OatdumpError {
    /// The output is not UTF-8.
    StdoutNotUtf8,
    /// A line is not JSON.
    BadJson,
    /// A line holds no method signature.
    BadJsonMethod,
    /// The line of the method holds no offset.
    BadJsonOffset,
    /// The method's offset is not a hexadecimal `i32`.
    BadOffset,
}

/// The offset that an offset text writes: hexadecimal, after any leading `0x`.
pub open spec fn offset_value(text: Seq<char>) -> Option<i32> {
    parse_i32_in_radix(trim_start_matches(text, "0x"@), 16)
}

/// What one line of output decides about the method `signature`: nothing when it lists
/// another method; the offset when it lists this one; an error when it cannot be read.
pub open spec fn line_verdict(signature: Seq<char>) -> spec_fn(Seq<char>) -> Option<
    Result<i32, OatdumpError>,
> {
    |line: Seq<char>|
        match json_string_member(line, "method"@) {
            None => Some(Err(OatdumpError::BadJson)),
            Some(None) => Some(Err(OatdumpError::BadJsonMethod)),
            Some(Some(method)) => if method != signature {
                None
            } else {
                match json_string_member(line, "offset"@) {
                    None => Some(Err(OatdumpError::BadJson)),
                    Some(None) => Some(Err(OatdumpError::BadJsonOffset)),
                    Some(Some(offset)) => match offset_value(offset) {
                        None => Some(Err(OatdumpError::BadOffset)),
                        Some(v) => Some(Ok(v)),
                    },
                }
            },
        }
}

/// What `oatdump`'s output says of the method `signature`: lines are read in order
/// until one lists the method or cannot be read.
pub open spec fn oatdump_offset(stdout: Seq<u8>, signature: Seq<char>) -> Result<
    Option<i32>,
    OatdumpError,
> {
    if !valid_utf8(stdout) {
        Err(OatdumpError::StdoutNotUtf8)
    } else {
        match first_some(lines(decode_utf8(stdout)), line_verdict(signature)) {
            None => Ok(None),
            Some(Ok(v)) => Ok(Some(v)),
            Some(Err(e)) => Err(e),
        }
    }
}

/// What one line of output decides about the method `signature`.
fn read_line(line: &str, signature: &str) -> (r: Option<Result<i32, OatdumpError>>)
    ensures
        r == line_verdict(signature@)(line@),
{
    let method = match json_str_member(line, "method") {
        Err(_) => return Some(Err(OatdumpError::BadJson)),
        Ok(None) => return Some(Err(OatdumpError::BadJsonMethod)),
        Ok(Some(m)) => m,
    };
    if !str_eq(method.as_str(), signature) {
        return None;
    }
    let offset = match json_str_member(line, "offset") {
        Err(_) => return Some(Err(OatdumpError::BadJson)),
        Ok(None) => return Some(Err(OatdumpError::BadJsonOffset)),
        Ok(Some(o)) => o,
    };
    let digits = str_trim_start_matches(offset.as_str(), "0x");
    match parse_i32_radix(digits.as_str(), 16) {
        None => Some(Err(OatdumpError::BadOffset)),
        Some(v) => Some(Ok(v)),
    }
}

/// The precompiled offset of the method `method_signature`, from what `oatdump` printed
/// when asked to dump methods and offsets as JSON: `None` when no line lists the method.
pub fn method_offset_from_oatdump_output(stdout: &[u8], method_signature: &str) -> (r: Result<
    Option<i32>,
    OatdumpError,
>)
    ensures
        r == oatdump_offset(stdout@, method_signature@),
{
    let text = match utf8_decode(stdout) {
        None => return Err(OatdumpError::StdoutNotUtf8),
        Some(t) => t,
    };
    let ls = str_lines(text.as_str());
    let ghost views = ls@.map_values(|l: String| l@);
    let ghost f = line_verdict(method_signature@);
    let mut i: usize = 0;
    while i < ls.len()
        invariant
            i <= ls@.len(),
            views == ls@.map_values(|l: String| l@),
            views == lines(decode_utf8(stdout@)),
            valid_utf8(stdout@),
            f == line_verdict(method_signature@),
            first_some(views.take(i as int), f) is None,
        decreases ls@.len() - i,
    {
        proof {
            lemma_first_some_step(views, f, i as int);
        }
        match read_line(ls[i].as_str(), method_signature) {
            None => {},
            Some(v) => {
                proof {
                    lemma_first_some_prefix(views, f, i + 1);
                }
                return match v {
                    Ok(o) => Ok(Some(o)),
                    Err(e) => Err(e),
                };
            },
        }
        i += 1;
    }
    proof {
        lemma_first_some_all(views, f);
    }
    Ok(None)
}

} // verus!
