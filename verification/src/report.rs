use vstd::prelude::*;
use crate::text::{decimal, push_decimal};
use crate::paths::{file_name, file_name_text};

verus! {

/// The complaint about a stream with the wrong channel count.
pub open spec fn channels_complaint(expected: nat, actual: nat) -> Seq<char> {
    "must have "@ + decimal(expected) + " channels (instead of "@ + decimal(actual) + ")"@
}

/// The complaint about a stream with the wrong sample rate.
pub open spec fn sample_rate_complaint(expected: nat, actual: nat) -> Seq<char> {
    "must have sample rate of "@ + decimal(expected) + " (instead of "@ + decimal(actual) + ")"@
}

/// Checks the format of a decoded (and converted) stream against the run's
/// settings: the channel count first, then the sample rate. The error is the
/// complaint about the first that differs.
pub fn check_stream_format(channels: u16, sample_rate: u32, want_channels: u16, want_sample_rate: u32)
    -> (res: Result<(), String>)
    ensures
        res is Ok <==> (channels == want_channels && sample_rate == want_sample_rate),
        channels != want_channels ==> (res matches Err(msg)
            && msg@ == channels_complaint(want_channels as nat, channels as nat)),
        channels == want_channels && sample_rate != want_sample_rate ==> (res matches Err(msg)
            && msg@ == sample_rate_complaint(want_sample_rate as nat, sample_rate as nat)),
{
    if channels != want_channels {
        let mut msg = String::from_str("must have ");
        push_decimal(&mut msg, want_channels as u64);
        msg.append(" channels (instead of ");
        push_decimal(&mut msg, channels as u64);
        msg.append(")");
        return Err(msg);
    }
    if sample_rate != want_sample_rate {
        let mut msg = String::from_str("must have sample rate of ");
        push_decimal(&mut msg, want_sample_rate as u64);
        msg.append(" (instead of ");
        push_decimal(&mut msg, sample_rate as u64);
        msg.append(")");
        return Err(msg);
    }
    Ok(())
}

/// The line that reports how many of the candidate files could be opened.
pub fn opened_summary(good: usize, total: usize) -> (line: String)
    ensures
        line@ == "opened "@ + decimal(good as nat) + " out of "@ + decimal(total as nat) + " readers"@,
{
    let mut line = String::from_str("opened ");
    push_decimal(&mut line, good as u64);
    line.append(" out of ");
    push_decimal(&mut line, total as u64);
    line.append(" readers");
    line
}

/// The line that reports a file that could not be opened: its file name and
/// the reason.
pub fn open_failure_line(path: &str, reason: &str) -> (line: String)
    ensures
        line@ == "error opening "@ + file_name_text(path@) + ": "@ + reason@,
{
    let mut line = String::from_str("error opening ");
    line.append(file_name(path));
    line.append(": ");
    line.append(reason);
    line
}

/// How the output is named in reports: `"audio result (<file name>)"`.
pub fn result_label(out_file: &str) -> (label: String)
    ensures
        label@ == "audio result ("@ + file_name_text(out_file@) + ")"@,
{
    let mut label = String::from_str("audio result (");
    label.append(file_name(out_file));
    label.append(")");
    label
}

} // verus!
