//! The status relay: each line arriving on the progress channel is
//! parsed into a RenderStatus and forwarded to the job-state recorder; a
//! malformed line is skipped and the relay carries on.

use vstd::prelude::*;
use crate::RenderStatus;
use crate::codec::{json_i64_at, json_i64_field, json_string_at, json_string_field};

verus! {

/// The progress record held in one line of the progress channel, if the
/// line carries a job identifier and a frame index that fits the frame
/// type.
pub open spec fn spec_parse_progress(line: Seq<char>) -> Option<(Seq<char>, int)> {
    match json_string_at(line, "id"@) {
        Some(id) => match json_i64_at(line, "frame"@) {
            Some(f) => if i32::MIN <= f <= i32::MAX {
                Some((id, f))
            } else {
                None
            },
            None => None,
        },
        None => None,
    }
}

/// Parses one progress line; `None` marks a malformed line, which the
/// relay skips rather than dying on.
pub fn relay_step(line: &str) -> (r: Option<RenderStatus>)
    ensures
        r matches Some(m) ==> spec_parse_progress(line@) == Some((m.id@, m.frame as int)),
        r is None <==> spec_parse_progress(line@) is None,
{
    let id = match json_string_field(line, "id") {
        Some(v) => v,
        None => {
            return None;
        },
    };
    let frame = match json_i64_field(line, "frame") {
        Some(v) => v,
        None => {
            return None;
        },
    };
    if frame < i32::MIN as i64 || frame > i32::MAX as i64 {
        return None;
    }
    Some(RenderStatus { id, frame: frame as i32 })
}

/// The records the relay forwards for a sequence of arriving lines:
/// every well-formed line's record, in arrival order, with malformed
/// lines skipped.
pub open spec fn spec_relay(lines: Seq<Seq<char>>) -> Seq<(Seq<char>, int)>
    decreases lines.len(),
{
    if lines.len() == 0 {
        Seq::empty()
    } else {
        let rest = spec_relay(lines.drop_last());
        match spec_parse_progress(lines.last()) {
            Some(m) => rest.push(m),
            None => rest,
        }
    }
}

/// Relays a batch of lines in order.
pub fn relay_lines(lines: &Vec<String>) -> (out: Vec<RenderStatus>)
    ensures
        out@.map_values(|m: RenderStatus| (m.id@, m.frame as int)) == spec_relay(
            lines@.map_values(|l: String| l@),
        ),
{
    let ghost views = lines@.map_values(|l: String| l@);
    let mut out: Vec<RenderStatus> = Vec::new();
    let mut i: usize = 0;
    while i < lines.len()
        invariant
            i <= lines.len(),
            views == lines@.map_values(|l: String| l@),
            out@.map_values(|m: RenderStatus| (m.id@, m.frame as int)) == spec_relay(
                views.take(i as int),
            ),
        decreases lines.len() - i,
    {
        proof {
            assert(views.take(i + 1).drop_last() =~= views.take(i as int));
            assert(views.take(i + 1).last() == views[i as int]);
        }
        match relay_step(lines[i].as_str()) {
            Some(m) => {
                out.push(m);
                proof {
                    assert(out@.map_values(|m: RenderStatus| (m.id@, m.frame as int)) =~= spec_relay(
                        views.take(i + 1),
                    ));
                }
            },
            None => {
                proof {
                    assert(out@.map_values(|m: RenderStatus| (m.id@, m.frame as int)) =~= spec_relay(
                        views.take(i + 1),
                    ));
                }
            },
        }
        i = i + 1;
    }
    proof {
        assert(views.take(lines@.len() as int) =~= views);
    }
    out
}

/// The relay distributes over concatenation: forwarding two stretches of
/// lines one after the other forwards each stretch's records in order.
pub proof fn lemma_relay_append(a: Seq<Seq<char>>, b: Seq<Seq<char>>)
    ensures
        spec_relay(a + b) == spec_relay(a) + spec_relay(b),
    decreases b.len(),
{
    if b.len() == 0 {
        assert(a + b =~= a);
        assert(spec_relay(a) + spec_relay(b) =~= spec_relay(a));
    } else {
        lemma_relay_append(a, b.drop_last());
        assert((a + b).drop_last() =~= a + b.drop_last());
        assert((a + b).last() == b.last());
        match spec_parse_progress(b.last()) {
            Some(m) => {
                assert(spec_relay(a + b) =~= spec_relay(a) + spec_relay(b));
            },
            None => {
                assert(spec_relay(a + b) =~= spec_relay(a) + spec_relay(b));
            },
        }
    }
}

/// A malformed line does not terminate the relay: the records forwarded
/// around it are exactly those of the well-formed lines before and after
/// it, in order.
pub proof fn lemma_relay_skips_malformed(
    before: Seq<Seq<char>>,
    bad: Seq<char>,
    after: Seq<Seq<char>>,
)
    requires
        spec_parse_progress(bad) is None,
    ensures
        spec_relay(before + seq![bad] + after) == spec_relay(before) + spec_relay(after),
{
    lemma_relay_append(before + seq![bad], after);
    lemma_relay_append(before, seq![bad]);
    assert(seq![bad].drop_last() =~= Seq::<Seq<char>>::empty());
    assert(seq![bad].last() == bad);
    assert(spec_relay(Seq::<Seq<char>>::empty()) == Seq::<(Seq<char>, int)>::empty());
    assert(spec_relay(seq![bad]) == spec_relay(seq![bad].drop_last()));
    assert(spec_relay(before) + spec_relay(seq![bad]) =~= spec_relay(before));
}

/// Every record the relay forwards came from some arriving line.
pub proof fn lemma_relay_provenance(lines: Seq<Seq<char>>)
    ensures
        forall|k: int|
            0 <= k < spec_relay(lines).len() ==> exists|i: int|
                0 <= i < lines.len() && spec_parse_progress(lines[i]) == Some(
                    #[trigger] spec_relay(lines)[k],
                ),
    decreases lines.len(),
{
    if lines.len() > 0 {
        lemma_relay_provenance(lines.drop_last());
        let dl = lines.drop_last();
        assert forall|k: int| 0 <= k < spec_relay(lines).len() implies exists|i: int|
            0 <= i < lines.len() && spec_parse_progress(lines[i]) == Some(
                #[trigger] spec_relay(lines)[k],
            ) by {
            if k < spec_relay(dl).len() {
                assert(spec_relay(lines)[k] == spec_relay(dl)[k]);
                let i = choose|i: int|
                    0 <= i < dl.len() && spec_parse_progress(dl[i]) == Some(spec_relay(dl)[k]);
                assert(lines[i] == dl[i]);
                assert(0 <= i < lines.len() && spec_parse_progress(lines[i]) == Some(
                    spec_relay(lines)[k],
                ));
            } else {
                let i = lines.len() - 1;
                assert(spec_parse_progress(lines[i]) == Some(spec_relay(lines)[k]));
            }
        }
    }
}

/// For a job rendered over `[lo, hi]`, if every well-formed line the
/// engine emits carries a frame in `[lo, hi]`, non-decreasing in
/// emission order, then the frames the relay forwards are a subset of
/// `[lo, hi]` and non-decreasing in arrival order.
pub proof fn lemma_relay_frames_in_range_and_monotonic(lines: Seq<Seq<char>>, lo: int, hi: int)
    requires
        forall|i: int|
            0 <= i < lines.len() ==> (#[trigger] spec_parse_progress(lines[i]) matches Some(m)
                ==> lo <= m.1 <= hi),
        forall|i: int, j: int|
            0 <= i < j < lines.len() ==> (#[trigger] spec_parse_progress(lines[i]) matches Some(mi)
                ==> (#[trigger] spec_parse_progress(lines[j]) matches Some(mj) ==> mi.1 <= mj.1)),
    ensures
        forall|k: int|
            0 <= k < spec_relay(lines).len() ==> lo <= #[trigger] spec_relay(lines)[k].1 <= hi,
        forall|k: int, l: int|
            0 <= k < l < spec_relay(lines).len() ==> #[trigger] spec_relay(lines)[k].1
                <= #[trigger] spec_relay(lines)[l].1,
    decreases lines.len(),
{
    if lines.len() > 0 {
        let dl = lines.drop_last();
        assert(forall|i: int| 0 <= i < dl.len() ==> dl[i] == lines[i]);
        lemma_relay_frames_in_range_and_monotonic(dl, lo, hi);
        lemma_relay_provenance(dl);
        let out = spec_relay(lines);
        let prev = spec_relay(dl);
        match spec_parse_progress(lines.last()) {
            Some(m) => {
                assert(spec_parse_progress(lines[lines.len() - 1]) == Some(m));
                assert(lo <= m.1 <= hi);
                assert(out == prev.push(m));
                assert forall|k: int, l: int|
                    0 <= k < l < out.len() implies #[trigger] out[k].1 <= #[trigger] out[l].1 by {
                    if l < prev.len() {
                        assert(out[k] == prev[k] && out[l] == prev[l]);
                    } else {
                        assert(out[l] == m);
                        assert(out[k] == prev[k]);
                        let i = choose|i: int|
                            0 <= i < dl.len() && spec_parse_progress(dl[i]) == Some(prev[k]);
                        assert(spec_parse_progress(lines[i]) == Some(prev[k]));
                        assert(prev[k].1 <= m.1);
                    }
                }
            },
            None => {
                assert(out == prev);
            },
        }
    }
}

} // verus!
