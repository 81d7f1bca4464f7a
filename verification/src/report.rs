use vstd::prelude::*;
use vstd::string::StringExecFns;
use crate::text::{dec_rep, u64_to_string};

verus! {

/// A part of the crash report that may be absent: absent parts read
/// "Unknown".
pub open spec fn or_unknown(part: Option<Seq<char>>) -> Seq<char> {
    match part {
        Some(s) => s,
        None => "Unknown"@,
    }
}

/// The text of the crash dialog: the failure's payload, its message,
/// and where it happened, each falling back to "Unknown" when absent.
pub open spec fn panic_report_spec(
    error: Option<Seq<char>>,
    message: Seq<char>,
    location: Option<(Seq<char>, u32, u32)>,
) -> Seq<char> {
    "Error: "@ + or_unknown(error) + ".\nMessage: "@ + message + ".\nLocation: "@ + (match location {
        Some(l) => l.0,
        None => "Unknown"@,
    }) + ".\nLine: "@ + (match location {
        Some(l) => dec_rep(l.1 as nat),
        None => "Unknown"@,
    }) + ".\nColumn: "@ + (match location {
        Some(l) => dec_rep(l.2 as nat),
        None => "Unknown"@,
    }) + "."@
}

/// The payload as character sequences, for speaking of it in
/// contracts.
pub open spec fn error_view(error: Option<&str>) -> Option<Seq<char>> {
    match error {
        Some(e) => Some(e@),
        None => None,
    }
}

/// The location as character sequences and numbers, for speaking of it
/// in contracts.
pub open spec fn location_view(location: Option<(&str, u32, u32)>) -> Option<(Seq<char>, u32, u32)> {
    match location {
        Some(l) => Some((l.0@, l.1, l.2)),
        None => None,
    }
}

/// Renders the crash dialog's text from a failure's payload, its
/// message, and its place: file, line and column.
pub fn panic_report(error: Option<&str>, message: &str, location: Option<(&str, u32, u32)>) -> (r:
    String)
    ensures
        r@ == panic_report_spec(error_view(error), message@, location_view(location)),
{
    let mut r = "Error: ".to_owned();
    match error {
        Some(e) => r.append(e),
        None => r.append("Unknown"),
    }
    r.append(".\nMessage: ");
    r.append(message);
    r.append(".\nLocation: ");
    match location {
        Some((file, line, column)) => {
            r.append(file);
            r.append(".\nLine: ");
            let line_text = u64_to_string(line as u64);
            r.append(line_text.as_str());
            r.append(".\nColumn: ");
            let column_text = u64_to_string(column as u64);
            r.append(column_text.as_str());
        },
        None => {
            r.append("Unknown");
            r.append(".\nLine: ");
            r.append("Unknown");
            r.append(".\nColumn: ");
            r.append("Unknown");
        },
    }
    r.append(".");
    r
}

} // verus!
