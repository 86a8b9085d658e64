//! The sampled-state wire format.
//!
//! The editor-side watcher writes one newline-separated record whose
//! status line reads `LINE:<n>,COL:<n>,MODE:<m>,DETAILED:<m>`: one-based
//! cursor coordinates and two mode codes.  `parse_vim_state` turns such a
//! record into a snapshot, converting coordinates to zero-based form;
//! absent or malformed fields fall back to line 1, column 1, normal mode.

use vstd::prelude::*;
use vstd::string::StringExecFns;

use crate::strutil::has_prefix;
use crate::strutil::parse_usize;
use crate::strutil::spec_parse_usize;
use crate::strutil::spec_split;
use crate::strutil::split_char;
use crate::strutil::starts_with;
use crate::strutil::strip_prefix_of;
use crate::strutil::views_of;
use crate::vim_state::VimMode;
use crate::vim_state::VimState;
use crate::vim_state::is_mode_for;

verus! {

/// The fields of a status record: one-based line, one-based column, mode
/// code, detailed mode code.
pub open spec fn default_fields() -> (int, int, Seq<char>, Seq<char>) {
    (1, 1, "n"@, "n"@)
}

/// A coordinate field parsed leniently: an unparsable value reads as 1.
pub open spec fn coord_or_one(s: Seq<char>) -> int {
    match spec_parse_usize(s) {
        Some(v) => v as int,
        None => 1,
    }
}

/// One comma-separated part applied to the fields read so far.  A part
/// carries at most one field; unrecognized parts change nothing, and a
/// later part overrides an earlier one with the same key.
pub open spec fn apply_part(f: (int, int, Seq<char>, Seq<char>), part: Seq<char>) -> (
    int,
    int,
    Seq<char>,
    Seq<char>,
) {
    if has_prefix(part, "LINE:"@) {
        (coord_or_one(part.skip("LINE:"@.len() as int)), f.1, f.2, f.3)
    } else if has_prefix(part, "COL:"@) {
        (f.0, coord_or_one(part.skip("COL:"@.len() as int)), f.2, f.3)
    } else if has_prefix(part, "MODE:"@) {
        (f.0, f.1, part.skip("MODE:"@.len() as int), f.3)
    } else if has_prefix(part, "DETAILED:"@) {
        (f.0, f.1, f.2, part.skip("DETAILED:"@.len() as int))
    } else {
        f
    }
}

/// All parts applied in order, left to right.
pub open spec fn apply_parts(f: (int, int, Seq<char>, Seq<char>), parts: Seq<Seq<char>>) -> (
    int,
    int,
    Seq<char>,
    Seq<char>,
)
    decreases parts.len(),
{
    if parts.len() == 0 {
        f
    } else {
        apply_part(apply_parts(f, parts.drop_last()), parts.last())
    }
}

/// The first line of the record that carries a status, recognized by its
/// `LINE:` prefix.
pub open spec fn first_status_line(lines: Seq<Seq<char>>) -> Option<Seq<char>>
    decreases lines.len(),
{
    if lines.len() == 0 {
        None
    } else if has_prefix(lines[0], "LINE:"@) {
        Some(lines[0])
    } else {
        first_status_line(lines.drop_first())
    }
}

/// The fields that a whole record parses to: the parts of its first
/// status line, applied to the defaults; a record without a status line
/// keeps the defaults.
pub open spec fn status_fields_of(content: Seq<char>) -> (int, int, Seq<char>, Seq<char>) {
    match first_status_line(spec_split(content, '\n')) {
        Some(l) => apply_parts(default_fields(), spec_split(l, ',')),
        None => default_fields(),
    }
}

/// A one-based coordinate converted to zero-based; a report of zero
/// stays at zero rather than wrapping.
pub open spec fn to_zero_based(v: int) -> int {
    if v > 0 {
        v - 1
    } else {
        0
    }
}

/// The snapshot that a status record describes: the classified mode, the
/// zero-based cursor, no pending operator, a single empty buffer line and
/// no registers — the record does not carry buffer or register content.
pub open spec fn is_parsed_state(s: VimState, content: Seq<char>) -> bool {
    let f = status_fields_of(content);
    &&& is_mode_for(s.mode, f.2, f.3, Seq::<char>::empty())
    &&& s.cursor_line == to_zero_based(f.0)
    &&& s.cursor_col == to_zero_based(f.1)
    &&& s.operator is None
    &&& s.buffer_content@.len() == 1
    &&& s.buffer_content@[0]@ == Seq::<char>::empty()
    &&& s.registers@.len() == 0
}

/// Parses one status record into a snapshot.
pub fn parse_vim_state(content: &str) -> (s: VimState)
    ensures
        is_parsed_state(s, content@),
        s.wf(),
{
    let lines = split_char(content, '\n');
    let n = lines.len();
    let ghost all = views_of(lines@);

    let mut status_idx: usize = n;
    let mut i: usize = 0;
    proof {
        assert(all.skip(0) =~= all);
    }
    while i < n
        invariant
            n == lines@.len(),
            all == views_of(lines@),
            i <= n,
            status_idx <= n,
            status_idx == n ==> first_status_line(all) == first_status_line(
                all.skip(i as int),
            ),
            status_idx < n ==> first_status_line(all) == Some(all[status_idx as int]),
        decreases n - i,
    {
        if status_idx == n {
            if starts_with(lines[i].as_str(), "LINE:") {
                proof {
                    assert(all.skip(i as int)[0] == all[i as int]);
                }
                status_idx = i;
            } else {
                proof {
                    assert(all.skip(i as int)[0] == all[i as int]);
                    assert(all.skip(i as int).drop_first() =~= all.skip(i as int + 1));
                }
            }
        }
        i = i + 1;
    }

    let mut line_num: usize = 1;
    let mut col_num: usize = 1;
    let mut mode_code: String = String::from_str("n");
    let mut detailed_code: String = String::from_str("n");

    if status_idx < n {
        let parts = split_char(lines[status_idx].as_str(), ',');
        let m = parts.len();
        let ghost pseq = views_of(parts@);
        let mut k: usize = 0;
        while k < m
            invariant
                m == parts@.len(),
                pseq == views_of(parts@),
                k <= m,
                (line_num as int, col_num as int, mode_code@, detailed_code@) == apply_parts(
                    default_fields(),
                    pseq.take(k as int),
                ),
            decreases m - k,
        {
            let part = &parts[k];
            match strip_prefix_of(part.as_str(), "LINE:") {
                Some(v) => {
                    line_num = match parse_usize(v) {
                        Some(x) => x,
                        None => 1,
                    };
                },
                None => {
                    match strip_prefix_of(part.as_str(), "COL:") {
                        Some(v) => {
                            col_num = match parse_usize(v) {
                                Some(x) => x,
                                None => 1,
                            };
                        },
                        None => {
                            match strip_prefix_of(part.as_str(), "MODE:") {
                                Some(v) => {
                                    mode_code = v.to_owned();
                                },
                                None => {
                                    match strip_prefix_of(part.as_str(), "DETAILED:") {
                                        Some(v) => {
                                            detailed_code = v.to_owned();
                                        },
                                        None => {},
                                    }
                                },
                            }
                        },
                    }
                },
            }
            proof {
                assert(pseq.take(k as int + 1).drop_last() =~= pseq.take(k as int));
                assert(pseq.take(k as int + 1).last() == pseq[k as int]);
            }
            k = k + 1;
        }
        proof {
            assert(pseq.take(m as int) =~= pseq);
        }
    } else {
        proof {
            assert(all.skip(n as int) =~= Seq::<Seq<char>>::empty());
        }
    }

    let mode = VimMode::from_vim_mode(mode_code.as_str(), detailed_code.as_str(), None);
    let mut buffer: Vec<String> = Vec::new();
    buffer.push(String::new());
    VimState {
        mode,
        cursor_line: if line_num > 0 {
            line_num - 1
        } else {
            0
        },
        cursor_col: if col_num > 0 {
            col_num - 1
        } else {
            0
        },
        operator: None,
        buffer_content: buffer,
        registers: Vec::new(),
    }
}

} // verus!
