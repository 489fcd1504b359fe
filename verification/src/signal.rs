//! Normalisation of raw platform signals into camera edges.
//!
//! The platform adapters deliver noisy, platform-specific observations: a
//! stream of open/close events on video device files, or lines from the
//! system log. The functions here reduce them to the one thing the
//! coordinator consumes — a net transition of the camera-in-use state —
//! and compute the parameters of the file watch.

use vstd::prelude::*;
use crate::text::{is_prefix_of, occurs_in, str_contains, str_starts_with};

verus! {

/// A raw observation on a video device file.
#[derive(Clone, Copy, Debug, PartialEq, Eq, Structural)]
pub enum VideoEventKind {
    /// The device file was opened.
    Opened,
    /// The device file was closed.
    Closed,
    /// Anything else the watch reported.
    Other,
}

/// How one observation changes the number of open video devices: only
/// events on files under the watched name prefix count, opening saturates
/// upward, closing saturates at zero.
pub open spec fn spec_count_after_event(
    count: usize,
    name: Seq<char>,
    prefix: Seq<char>,
    kind: VideoEventKind,
) -> usize {
    if !is_prefix_of(prefix, name) {
        count
    } else {
        match kind {
            VideoEventKind::Opened => if count == usize::MAX {
                count
            } else {
                (count + 1) as usize
            },
            VideoEventKind::Closed => if count == 0 {
                0
            } else {
                (count - 1) as usize
            },
            VideoEventKind::Other => count,
        }
    }
}

/// Applies one observation to the open-device count.
pub fn count_after_event(count: usize, name: &str, prefix: &str, kind: VideoEventKind) -> (r:
    usize)
    ensures
        r == spec_count_after_event(count, name@, prefix@, kind),
{
    if !str_starts_with(name, prefix) {
        return count;
    }
    match kind {
        VideoEventKind::Opened => {
            if count == usize::MAX {
                count
            } else {
                count + 1
            }
        },
        VideoEventKind::Closed => {
            if count == 0 {
                0
            } else {
                count - 1
            }
        },
        VideoEventKind::Other => count,
    }
}

/// The edge a change of the open-device count produces: none while the
/// count did not change, otherwise "at least one camera is in use".
pub open spec fn spec_net_transition(before: usize, after: usize) -> Option<bool> {
    if before == after {
        None
    } else {
        Some(after != 0)
    }
}

/// Decides the edge after a batch of observations: no edge while the
/// count is unchanged — so noise on an already-active camera is
/// suppressed — and otherwise whether any camera is now in use.
pub fn net_transition(before: usize, after: usize) -> (r: Option<bool>)
    ensures
        r == spec_net_transition(before, after),
{
    if before == after {
        None
    } else {
        Some(after != 0)
    }
}

/// How a system-log line is classified: the stream's own preamble is
/// ignored, a line announcing a capture session start is an "on" edge, a
/// line announcing a stop is an "off" edge, anything else is no edge. A
/// line carrying both marks counts as a start.
pub open spec fn spec_classified_log_line(line: Seq<char>) -> Option<bool> {
    if is_prefix_of("Filtering the log data"@, line) {
        None
    } else if occurs_in(line, "AVCaptureSession_Tundra startRunning"@) {
        Some(true)
    } else if occurs_in(line, "AVCaptureSession_Tundra stopRunning"@) {
        Some(false)
    } else {
        None
    }
}

/// Classifies one system-log line as a camera edge, or as no edge.
pub fn classify_log_line(line: &str) -> (r: Option<bool>)
    ensures
        r == spec_classified_log_line(line@),
{
    if str_starts_with(line, "Filtering the log data") {
        None
    } else if str_contains(line, "AVCaptureSession_Tundra startRunning") {
        Some(true)
    } else if str_contains(line, "AVCaptureSession_Tundra stopRunning") {
        Some(false)
    } else {
        None
    }
}

/// The directory the file watch is put on: the named video device, or the
/// device directory when none is named.
pub fn watch_path(video_device: Option<&str>) -> (r: String)
    ensures
        match video_device {
            Some(v) => r@ == v@,
            None => r@ == "/dev"@,
        },
{
    match video_device {
        Some(v) => v.to_owned(),
        None => "/dev".to_owned(),
    }
}

/// What follows the last `/` of a path (the whole path when it has none).
pub open spec fn spec_after_last_slash(s: Seq<char>) -> Seq<char>
    decreases s.len(),
{
    if s.len() == 0 {
        s
    } else if s.last() == '/' {
        Seq::empty()
    } else {
        spec_after_last_slash(s.drop_last()).push(s.last())
    }
}

fn no_slash_before(v: &str, i: usize) -> (r: bool)
    requires
        1 <= i <= v@.len(),
    ensures
        r == (v@[i - 1] != '/'),
{
    v.get_char(i - 1) != '/'
}

/// The file-name prefix watched events are filtered by: the last path
/// segment of the named video device, or `video` when none is named.
pub fn video_file_prefix(video_device: Option<&str>) -> (r: String)
    ensures
        match video_device {
            Some(v) => r@ == spec_after_last_slash(v@),
            None => r@ == "video"@,
        },
{
    let v = match video_device {
        Some(v) => v,
        None => {
            return "video".to_owned();
        },
    };
    let n = v.unicode_len();
    let mut i: usize = n;
    proof {
        assert(v@.skip(n as int) =~= Seq::<char>::empty());
        assert(v@.take(n as int) =~= v@);
    }
    while i > 0 && no_slash_before(v, i)
        invariant
            n == v@.len(),
            i <= n,
            spec_after_last_slash(v@) == spec_after_last_slash(v@.take(i as int)) + v@.skip(
                i as int,
            ),
        decreases i,
    {
        proof {
            let t = v@.take(i as int);
            assert(t.last() == v@[i - 1]);
            assert(t.drop_last() =~= v@.take(i - 1));
            assert(spec_after_last_slash(v@.take(i - 1)).push(v@[i - 1]) + v@.skip(i as int)
                =~= spec_after_last_slash(v@.take(i - 1)) + v@.skip(i - 1));
        }
        i -= 1;
    }
    proof {
        if i == 0 {
            assert(v@.take(0) =~= Seq::<char>::empty());
            assert(spec_after_last_slash(Seq::<char>::empty()) + v@.skip(0) =~= v@.skip(0));
            assert(v@.skip(0) =~= v@);
        } else {
            let t = v@.take(i as int);
            assert(t.last() == v@[i - 1] && v@[i - 1] == '/');
            assert(spec_after_last_slash(t) =~= Seq::<char>::empty());
            assert(Seq::<char>::empty() + v@.skip(i as int) =~= v@.skip(i as int));
        }
        assert(spec_after_last_slash(v@) == v@.skip(i as int));
        assert(v@.skip(i as int) =~= v@.subrange(i as int, n as int));
    }
    let r = v.substring_char(i, n);
    r.to_owned()
}

} // verus!
