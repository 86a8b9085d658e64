//! The editor client's data model and the assembly of a snapshot from the
//! plain values that the editor reports.
//!
//! Launching the editor, sending keys and evaluating expressions are process
//! I/O and live with the caller; the caller hands the raw reply strings to
//! `get_current_state`, which builds the snapshot and is verified.

use vstd::prelude::*;

use crate::strutil::spec_parse_usize;
use crate::strutil::parse_usize;
use crate::vim_state::VimMode;
use crate::vim_state::VimState;
use crate::vim_state::is_mode_for;
use crate::vim_state::operator_or_empty;
use crate::vim_state::registers_unique;

verus! {

/// Connection data for a headless editor reached over a socket.
pub struct VimRpcClient {
    pub socket_path: String,
    pub nvim_process_id: Option<u32>,
}

/// A one-based coordinate as reported by the editor, read from `s`:
/// an unparsable report reads as 1.
pub open spec fn reported_coord(s: Seq<char>) -> usize {
    match spec_parse_usize(s) {
        Some(v) => v,
        None => 1,
    }
}

/// The zero-based form of a one-based coordinate; a report of 0 stays 0.
pub open spec fn zero_based(v: usize) -> usize {
    if v > 0 {
        (v - 1) as usize
    } else {
        0
    }
}

impl VimRpcClient {
    pub fn new(socket_path: String) -> (c: Self)
        ensures
            c.socket_path == socket_path,
            c.nvim_process_id is None,
    {
        VimRpcClient { socket_path, nvim_process_id: None }
    }

    /// Assembles a snapshot from the editor's raw replies: mode codes, the
    /// one-based cursor coordinates as strings, the buffer lines, and one
    /// `(name, content)` read per register.  Registers whose content is
    /// empty are dropped.
    pub fn get_current_state(
        &self,
        mode: &str,
        mode_detailed: &str,
        operator: Option<String>,
        line: &str,
        col: &str,
        buffer_content: Vec<String>,
        register_reads: Vec<(String, String)>,
    ) -> (s: VimState)
        requires
            registers_unique(register_reads@),
        ensures
            is_mode_for(s.mode, mode@, mode_detailed@, operator_or_empty(operator)),
            s.cursor_line == zero_based(reported_coord(line@)),
            s.cursor_col == zero_based(reported_coord(col@)),
            s.operator == operator,
            s.buffer_content == buffer_content,
            s.registers@.len() <= register_reads@.len(),
            forall|i: int|
                0 <= i < s.registers@.len() ==> #[trigger] s.registers@[i].1@.len() > 0
                    && register_reads@.contains(s.registers@[i]),
            forall|i: int|
                0 <= i < register_reads@.len() ==> (#[trigger] register_reads@[i].1@.len() > 0
                    ==> s.registers@.contains(register_reads@[i])),
            s.wf(),
    {
        let operator_for_mode = match &operator {
            Some(op) => Some(op.clone()),
            None => None,
        };
        let vim_mode = VimMode::from_vim_mode(mode, mode_detailed, operator_for_mode);

        let line_num = match parse_usize(line) {
            Some(v) => v,
            None => 1,
        };
        let col_num = match parse_usize(col) {
            Some(v) => v,
            None => 1,
        };

        let mut registers: Vec<(String, String)> = Vec::new();
        let n = register_reads.len();
        let mut i: usize = 0;
        while i < n
            invariant
                n == register_reads@.len(),
                i <= n,
                registers_unique(register_reads@),
                registers@.len() <= i,
                forall|k: int|
                    0 <= k < registers@.len() ==> #[trigger] registers@[k].1@.len() > 0
                        && exists|m: int|
                        0 <= m < i && register_reads@[m] == #[trigger] registers@[k],
                forall|m: int|
                    0 <= m < i ==> (#[trigger] register_reads@[m].1@.len() > 0
                        ==> registers@.contains(register_reads@[m])),
                registers_unique(registers@),
            decreases n - i,
        {
            let entry = &register_reads[i];
            if entry.1.as_str().unicode_len() > 0 {
                let ghost pre = registers@;
                registers.push((entry.0.clone(), entry.1.clone()));
                proof {
                    let ghost cur = registers@;
                    assert(cur =~= pre.push(register_reads@[i as int]));
                    assert forall|a: int, b: int| 0 <= a < b < cur.len() implies cur[a].0@
                        != cur[b].0@ by {
                        if b < pre.len() {
                            assert(cur[a] == pre[a] && cur[b] == pre[b]);
                            assert(pre[a].0@ != pre[b].0@);
                        } else {
                            assert(cur[b] == register_reads@[i as int]);
                            assert(cur[a] == pre[a]);
                            assert(pre[a].1@.len() > 0);
                            let m = choose|m: int|
                                0 <= m < i && register_reads@[m] == #[trigger] pre[a];
                            assert(register_reads@[m].0@ != register_reads@[i as int].0@);
                        }
                    }
                    assert forall|m: int|
                        0 <= m < i + 1 && #[trigger] register_reads@[m].1@.len() > 0 implies cur.contains(
                        register_reads@[m],
                    ) by {
                        if m < i {
                            assert(pre.contains(register_reads@[m]));
                            let k = choose|k: int|
                                0 <= k < pre.len() && pre[k] == register_reads@[m];
                            assert(cur[k] == register_reads@[m]);
                        } else {
                            assert(cur[cur.len() - 1] == register_reads@[m]);
                        }
                    }
                    assert forall|k: int| 0 <= k < cur.len() implies #[trigger] cur[k].1@.len()
                        > 0 && exists|m: int| 0 <= m < i + 1 && register_reads@[m] == cur[k] by {
                        if k < pre.len() {
                            assert(pre[k].1@.len() > 0);
                            let m = choose|m: int|
                                0 <= m < i && register_reads@[m] == #[trigger] pre[k];
                            assert(register_reads@[m] == cur[k]);
                        } else {
                            assert(cur[k] == register_reads@[i as int]);
                            assert(register_reads@[i as int] == cur[k]);
                        }
                    }
                }
            }
            i = i + 1;
        }

        VimState {
            mode: vim_mode,
            cursor_line: if line_num > 0 {
                line_num - 1
            } else {
                0
            },
            cursor_col: if col_num > 0 {
                col_num - 1
            } else {
                0
            },
            operator,
            buffer_content,
            registers,
        }
    }
}

} // verus!
