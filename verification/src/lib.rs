//! Voice recording for a desktop host: the decisions behind the microphone
//! recorder, its hotkey and its panel.
//!
//! The host owns the window, the microphone, the processes, the files and the
//! clock. It reports what it finds there, and the library decides what follows.
//!
//! | Module     | Responsibility                                                   |
//! |------------|------------------------------------------------------------------|
//! | `recorder` | Recording lifecycle, recorded time, replay.                      |
//! | `capture`  | The recorder process and the segments that it writes.            |
//! | `stream`   | Recording from a stream of samples.                              |
//! | `wav`      | Reading segments and writing the finished recording.             |
//! | `meter`    | What the level is computed from.                                 |
//! | `naming`   | File names of recordings and of their segments.                  |
//! | `hotkey`   | The recording hotkey.                                            |
//! | `panel`    | What the voice part of the window shows and offers.              |
//! | `waveform` | Which level each bar of the waveform shows.                      |
//! | `globals`  | The rows of the settings that all connections share.             |
//! | `text`     | Decimal numbers as text, written and read back.                  |

pub mod capture;
pub mod globals;
pub mod hotkey;
pub mod meter;
pub mod naming;
pub mod panel;
pub mod recorder;
pub mod stream;
pub mod text;
pub mod wav;
pub mod waveform;

pub use hotkey::RecordingHotkey;
pub use panel::FridayState;
pub use recorder::{FridayRecorder, RecordingState};
