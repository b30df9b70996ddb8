//! Stack frames for the diagnostic trail that is rendered when an
//! error occurs.

use vstd::prelude::*;

verus! {

/// One record of the diagnostic trail: where an operation nominally
/// came from, what it was, and a nominal source line.
#[derive(Debug, Clone)]
pub struct StackFrame {
    pub file_name: String,
    pub function_name: String,
    pub line: u32,
}

/// Mathematical model of a diagnostic record: the two names as
/// character sequences.
pub struct FrameModel {
    pub file_name: Seq<char>,
    pub function_name: Seq<char>,
    pub line: u32,
}

impl View for StackFrame {
    type V = FrameModel;

    open spec fn view(&self) -> FrameModel {
        FrameModel {
            file_name: self.file_name@,
            function_name: self.function_name@,
            line: self.line,
        }
    }
}

/// The models of a sequence of diagnostic records, in order.
pub open spec fn frames_model(fs: Seq<StackFrame>) -> Seq<FrameModel> {
    Seq::new(
        fs.len(),
        |i: int|
            if 0 <= i < fs.len() {
                fs[i]@
            } else {
                FrameModel { file_name: Seq::empty(), function_name: Seq::empty(), line: 0 }
            },
    )
}

/// What `frames_model` holds: one model per record, in order.
pub broadcast proof fn lemma_frames_model(fs: Seq<StackFrame>)
    ensures
        (#[trigger] frames_model(fs)).len() == fs.len(),
        forall|i: int| 0 <= i < fs.len() ==> frames_model(fs)[i] == fs[i]@,
{
}

} // verus!
