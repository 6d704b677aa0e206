//! Framing of encoded messages as lines.

use vstd::prelude::*;

verus! {

/// The byte that ends a line.
pub const LINE_END: u8 = 10u8;

/// `bytes` are one whole line: they end with the line end and hold it
/// nowhere else.
pub open spec fn is_line(bytes: Seq<u8>) -> bool {
    &&& bytes.len() > 0
    &&& bytes.last() == LINE_END
    &&& forall|i: int| 0 <= i < bytes.len() - 1 ==> bytes[i] != LINE_END
}

/// Turns an encoded message into the line to write: the same bytes followed
/// by the line end, so that message and terminator go out in one piece. An
/// encoded message that holds no line end of its own gives one whole line.
pub fn frame_line(encoded: Vec<u8>) -> (line: Vec<u8>)
    ensures
        line@ == encoded@.push(LINE_END),
        (forall|i: int| 0 <= i < encoded@.len() ==> encoded@[i] != LINE_END) ==> is_line(line@),
{
    let mut line = encoded;
    line.push(LINE_END);
    line
}

} // verus!
