//! Texts that outside formatters produce.

use vstd::prelude::*;

verus! {

/// What `humantime::format_duration` prints for a duration of `nanos`
/// nanoseconds.
pub uninterp spec fn duration_text(nanos: u64) -> Seq<char>;

/// What chrono prints with the format `%D %H:%M` for the UTC instant `secs`
/// seconds after the Unix epoch, where it can represent that instant.
pub uninterp spec fn clock_text(secs: i64) -> Option<Seq<char>>;

/// The text for a signed number of nanoseconds: that of its magnitude, with
/// a minus sign in front of it where the number is negative.
pub open spec fn signed_duration_text(nanos: int) -> Seq<char> {
    if nanos >= 0 {
        duration_text(nanos as u64)
    } else {
        seq!['-'] + duration_text((-nanos) as u64)
    }
}

/// Calls `humantime::format_duration` on `std::time::Duration::from_nanos(nanos)`
/// and takes the text that its `Display` writes. The contract only names
/// that text: humantime documents no more of it than that
/// `humantime::parse_duration` reads it back.
#[verifier::external_body]
pub(crate) fn format_duration(nanos: u64) -> (text: String)
    ensures
        text@ == duration_text(nanos),
{
    humantime::format_duration(std::time::Duration::from_nanos(nanos)).to_string()
}

/// Calls `chrono::DateTime::from_timestamp(secs, 0)` and, where that gives an
/// instant, formats it with `%D %H:%M`. The contract names the outcome: chrono
/// returns `None` for an instant outside the years it can represent, and for
/// any other the text depends on `secs` alone, the instant being in UTC.
#[verifier::external_body]
pub(crate) fn format_clock(secs: i64) -> (text: Option<String>)
    ensures
        match text {
            Some(t) => clock_text(secs) == Some(t@),
            None => clock_text(secs) is None,
        },
{
    match chrono::DateTime::from_timestamp(secs, 0) {
        Some(time) => Some(time.format("%D %H:%M").to_string()),
        None => None,
    }
}

/// The label for a duration of `nanos` nanoseconds.
pub(crate) fn duration_label(nanos: i128) -> (text: String)
    requires
        -0xffff_ffff_ffff_ffff <= nanos <= 0xffff_ffff_ffff_ffff,
    ensures
        text@ == signed_duration_text(nanos as int),
{
    if nanos >= 0 {
        format_duration(nanos as u64)
    } else {
        let mut text = String::new();
        text.append("-");
        let magnitude = format_duration((-nanos) as u64);
        text.append(magnitude.as_str());
        proof {
            reveal_strlit("-");
            assert(text@ =~= seq!['-'] + duration_text((-nanos) as u64));
        }
        text
    }
}

} // verus!
