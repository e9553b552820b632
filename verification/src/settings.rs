use vstd::prelude::*;
use crate::paths::{output_file_path, path_file_name, path_with_extension, is_plain_final, stem_end, wav_suffix};

verus! {

/// Whether `c` is one of the ASCII digits `0`..`9`.
pub open spec fn is_digit(c: char) -> bool {
    '0' <= c && c <= '9'
}

/// The value of a run of decimal digits.
pub open spec fn digits_value(digits: Seq<char>) -> nat
    decreases digits.len(),
{
    if digits.len() == 0 {
        0
    } else {
        digits_value(digits.drop_last()) * 10 + ((digits.last() as int) - ('0' as int)) as nat
    }
}

/// The digits of an unsigned number as `str::parse` reads it: the text after
/// an optional leading `+`.
pub open spec fn unsigned_digits(text: Seq<char>) -> Seq<char> {
    if text.len() > 0 && text[0] == '+' {
        text.drop_first()
    } else {
        text
    }
}

/// Whether every character of `text` is a digit.
pub open spec fn all_digits(text: Seq<char>) -> bool {
    forall|i: int| 0 <= i < text.len() ==> is_digit(#[trigger] text[i])
}

/// What `str::parse` makes of `text` for an unsigned integer type whose
/// largest value is `max`: an optional `+` followed by at least one digit and
/// nothing else, with a value that fits; `None` otherwise.
pub open spec fn parsed_unsigned(text: Seq<char>, max: nat) -> Option<nat> {
    let digits = unsigned_digits(text);
    if digits.len() > 0 && all_digits(digits) && digits_value(digits) <= max {
        Some(digits_value(digits))
    } else {
        None
    }
}

/// Calls `str::parse::<u16>`. Claimed: it accepts exactly what its
/// documentation describes (see `parsed_unsigned`) and gives that value.
#[verifier::external_body]
fn parse_u16(text: &str) -> (value: Option<u16>)
    ensures
        match value {
            Some(v) => parsed_unsigned(text@, u16::MAX as nat) == Some(v as nat),
            None => parsed_unsigned(text@, u16::MAX as nat) is None,
        },
{
    text.parse::<u16>().ok()
}

/// Calls `str::parse::<u32>`. Claimed: it accepts exactly what its
/// documentation describes (see `parsed_unsigned`) and gives that value.
#[verifier::external_body]
fn parse_u32(text: &str) -> (value: Option<u32>)
    ensures
        match value {
            Some(v) => parsed_unsigned(text@, u32::MAX as nat) == Some(v as nat),
            None => parsed_unsigned(text@, u32::MAX as nat) is None,
        },
{
    text.parse::<u32>().ok()
}

/// A command-line value that could not be read.
#[derive(Debug, PartialEq, Eq, Structural)]
pub enum SettingsError {
    /// The channel count is not an unsigned 16-bit number.
    Channels,
    /// The sample rate is not an unsigned 32-bit number.
    SampleRate,
}

/// The settings of a run, read from the command-line values.
pub struct Settings {
    /// The directory whose audio files are summed.
    pub in_dir: String,
    /// The output file: the given one with its extension set to `wav`, or
    /// left as given where it has no file name (such as `/` or `..`).
    pub out_file: String,
    /// The channel count every input must have, and the output has.
    pub channels: u16,
    /// The sample rate the inputs are converted to, and the output has.
    pub sample_rate: u32,
    /// Whether files below the top level of `in_dir` are visited too.
    pub recurse: bool,
}

impl Settings {
    /// Reads the settings from the command-line values. The output file gets
    /// the extension `wav`; the channel count and the sample rate are decimal
    /// numbers, read in that order, and the first that cannot be read is the
    /// error.
    pub fn from_args(in_dir: &str, out_file: &str, channels: &str, sample_rate: &str, recurse: bool)
        -> (res: Result<Settings, SettingsError>)
        ensures
            parsed_unsigned(channels@, u16::MAX as nat) is None ==> res == Err::<Settings, SettingsError>(SettingsError::Channels),
            parsed_unsigned(channels@, u16::MAX as nat) is Some
                && parsed_unsigned(sample_rate@, u32::MAX as nat) is None ==> res == Err::<Settings, SettingsError>(SettingsError::SampleRate),
            res is Ok <==> (parsed_unsigned(channels@, u16::MAX as nat) is Some
                && parsed_unsigned(sample_rate@, u32::MAX as nat) is Some),
            res matches Ok(s) ==> {
                &&& s.in_dir@ == in_dir@
                &&& s.out_file@ == path_with_extension(out_file@, "wav"@)
                &&& path_file_name(out_file@) is None ==> s.out_file@ == out_file@
                &&& is_plain_final(out_file@) ==> s.out_file@ == out_file@.take(stem_end(out_file@)) + wav_suffix()
                &&& Some(s.channels as nat) == parsed_unsigned(channels@, u16::MAX as nat)
                &&& Some(s.sample_rate as nat) == parsed_unsigned(sample_rate@, u32::MAX as nat)
                &&& s.recurse == recurse
            },
    {
        let out = output_file_path(out_file);
        let channels = match parse_u16(channels) {
            Some(c) => c,
            None => return Err(SettingsError::Channels),
        };
        let sample_rate = match parse_u32(sample_rate) {
            Some(r) => r,
            None => return Err(SettingsError::SampleRate),
        };
        Ok(Settings { in_dir: String::from_str(in_dir), out_file: out, channels, sample_rate, recurse })
    }
}

} // verus!
