use vstd::prelude::*;
use vstd::string::StringExecFns;
use crate::engine::value_text;

verus! {

/// The text written for one emitted value: its text form and a line end.
pub fn frame_line(text: String) -> (r: String)
    ensures
        r@ == text@.push('\n'),
{
    let mut framed = text;
    framed.append("\n");
    proof {
        reveal_strlit("\n");
    }
    assert(framed@ =~= text@.push('\n'));
    framed
}

/// Renders an emitted value as one output line, ended by a line terminator.
pub fn output_line(value: &rhai::Dynamic) -> (r: String)
    ensures
        r@.len() > 0,
        r@.last() == '\n',
{
    frame_line(value_text(value))
}

} // verus!
