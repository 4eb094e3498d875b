//! Input and output events of the scheduling loop, with their mathematical
//! models.
//!
//! An `Input` is an external stimulus to inject into the emulator; an `Output`
//! is an observation extracted from it. Both are plain values: the transport
//! that produces and consumes them lives outside the library.

use vstd::prelude::*;

verus! {

/// A stimulus for the emulator: console bytes to type, a touch with
/// coordinates and pressed state, or a button press/release.
#[derive(Clone, Debug, PartialEq, Eq)]
pub enum Input {
    Console(Vec<u8>),
    Touch(i32, i32, bool),
    Button(bool),
}

/// An observation extracted from the emulator: console bytes it produced, or
/// a full screen frame.
#[derive(Clone, Debug, PartialEq, Eq)]
pub enum Output {
    Console(Vec<u8>),
    Screen(Vec<u8>),
}

/// The mathematical model of an [`Input`]: byte payloads as sequences.
pub ghost enum InputModel {
    Console(Seq<u8>),
    Touch(i32, i32, bool),
    Button(bool),
}

/// The mathematical model of an [`Output`]: byte payloads as sequences.
pub ghost enum OutputModel {
    Console(Seq<u8>),
    Screen(Seq<u8>),
}

impl View for Input {
    type V = InputModel;

    open spec fn view(&self) -> InputModel {
        match self {
            Input::Console(bytes) => InputModel::Console(bytes@),
            Input::Touch(x, y, pressed) => InputModel::Touch(*x, *y, *pressed),
            Input::Button(pressed) => InputModel::Button(*pressed),
        }
    }
}

impl DeepView for Input {
    type V = InputModel;

    open spec fn deep_view(&self) -> InputModel {
        self.view()
    }
}

impl View for Output {
    type V = OutputModel;

    open spec fn view(&self) -> OutputModel {
        match self {
            Output::Console(bytes) => OutputModel::Console(bytes@),
            Output::Screen(frame) => OutputModel::Screen(frame@),
        }
    }
}

impl DeepView for Output {
    type V = OutputModel;

    open spec fn deep_view(&self) -> OutputModel {
        self.view()
    }
}

/// The console outputs that a drained console buffer gives rise to: exactly
/// one `Console` event when the buffer is non-empty, none when it is empty.
pub open spec fn console_outputs(console: Seq<u8>) -> Seq<OutputModel> {
    if console.len() > 0 {
        seq![OutputModel::Console(console)]
    } else {
        Seq::empty()
    }
}

/// Turns a drained console buffer into the output event to emit, suppressing
/// empty buffers: an empty byte sequence is a no-op, not an error.
pub fn console_output(console: Vec<u8>) -> (r: Option<Output>)
    ensures
        match r {
            Some(out) => console@.len() > 0 && out@ == OutputModel::Console(console@),
            None => console@.len() == 0,
        },
{
    if console.len() > 0 {
        Some(Output::Console(console))
    } else {
        None
    }
}

} // verus!
