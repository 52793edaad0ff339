//! The short texts the user interface shows for speeds, loop modes and long names.
use vstd::prelude::*;

use crate::scheduler::LoopMode;
use crate::text::{chars_between, chars_of, digits, push_unsigned, string_of};

verus! {

/// The label of a playback speed given in percent; any speed other than
/// 25, 50, 200 and 400 percent is shown as normal speed.
pub open spec fn spec_speed_label(speed_percent: u32) -> Seq<char> {
    if speed_percent == 25 {
        "0.25×"@
    } else if speed_percent == 50 {
        "0.5×"@
    } else if speed_percent == 200 {
        "2×"@
    } else if speed_percent == 400 {
        "4×"@
    } else {
        "1×"@
    }
}

/// The label of a playback speed given in percent.
pub fn speed_label(speed_percent: u32) -> (label: &'static str)
    ensures
        label@ == spec_speed_label(speed_percent),
{
    if speed_percent == 25 {
        "0.25×"
    } else if speed_percent == 50 {
        "0.5×"
    } else if speed_percent == 200 {
        "2×"
    } else if speed_percent == 400 {
        "4×"
    } else {
        "1×"
    }
}

/// The label of a loop mode: `×1`, `×<count>` or `∞`.
pub open spec fn spec_loop_label(mode: LoopMode) -> Seq<char> {
    match mode {
        LoopMode::Once => "×1"@,
        LoopMode::Count(n) => "×"@ + digits(n as nat),
        LoopMode::Infinite => "∞"@,
    }
}

/// The label of a loop mode.
pub fn loop_label(loop_mode: &LoopMode) -> (label: String)
    ensures
        label@ == spec_loop_label(*loop_mode),
{
    match loop_mode {
        LoopMode::Once => "×1".to_owned(),
        LoopMode::Count(count) => {
            let mut s = "×".to_owned();
            push_unsigned(&mut s, *count as u64);
            s
        },
        LoopMode::Infinite => "∞".to_owned(),
    }
}

/// `value` unchanged when it has at most `max_chars` characters; otherwise its
/// first `max_chars - 1` characters (none when `max_chars` is 0) and an ellipsis.
pub open spec fn truncated(value: Seq<char>, max_chars: nat) -> Seq<char> {
    if value.len() <= max_chars {
        value
    } else {
        value.take(if max_chars == 0 { 0int } else { max_chars - 1 }).push('…')
    }
}

/// Shortens `value` to at most `max_chars` characters, ending it with `…` when cut.
pub fn truncate_chars(value: &str, max_chars: usize) -> (out: String)
    ensures
        out@ == truncated(value@, max_chars as nat),
{
    let cs = chars_of(value);
    if cs.len() <= max_chars {
        value.to_owned()
    } else {
        let keep: usize = if max_chars == 0 {
            0
        } else {
            max_chars - 1
        };
        let mut kept = chars_between(&cs, 0, keep);
        kept.push('…');
        proof {
            assert(cs@.subrange(0, keep as int) =~= value@.take(keep as int));
        }
        string_of(&kept)
    }
}


} // verus!
