//! Bookkeeping, validation and text for a tool that sums every audio file of a
//! directory into one WAV file.
//!
//! The decoding, the summing of samples and the writing of the output happen in
//! the program around this library; what is decided on the way (which paths are
//! audio files, whether a decoded stream has the expected format, which readers
//! are finished, what the progress report says) is stated and proved here.
pub mod iteration;
pub mod late_init;
pub mod paths;
pub mod poll_info;
pub mod report;
pub mod settings;
pub mod strategy;
pub mod text;

pub use iteration::end_iteration;
pub use late_init::LateInit;
pub use paths::{file_extension, file_name, is_audio_file, output_file_path};
pub use poll_info::PollInfo;
pub use report::{check_stream_format, open_failure_line, opened_summary, result_label};
pub use settings::{Settings, SettingsError};
pub use strategy::{Strategy1, Strategy2, Strategy3, Strategy4, CHUNK_SIZE};
pub use text::push_decimal;
