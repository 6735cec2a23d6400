use vstd::prelude::*;

use crate::codec::{encode_report, is_delimited, report_frame};
use crate::keyset::{modifiers_after, slots_after, KeySet};
use crate::report::WhyNoDeriveDeserializeManSadFaceHere;

verus! {

/// Handles one key event from the host's input device: value 0 is a release,
/// 1 a press, and any other value (a repeat while held) is ignored. Returns
/// the frame to send for a press or release, which describes the new state.
pub fn handle_key_event(keys: &mut KeySet, code: u16, value: i32) -> (frame: Option<Vec<u8>>)
    ensures
        value == 0 || value == 1 ==> {
            let down = value == 1;
            &&& final(keys).modifier == modifiers_after(old(keys).modifier, code, down)
            &&& final(keys).keys@ == slots_after(old(keys).keys@, code, down)
            &&& frame matches Some(f) && f@ == report_frame(final(keys).as_report())
                && is_delimited(f@)
        },
        value != 0 && value != 1 ==> *final(keys) == *old(keys) && frame is None,
        old(keys).wf() ==> final(keys).wf(),
{
    if value == 0 {
        keys.release_key(code);
    } else if value == 1 {
        keys.press_key(code);
    } else {
        return None;
    }
    let report = WhyNoDeriveDeserializeManSadFaceHere::from(*keys);
    Some(encode_report(&report))
}

} // verus!
