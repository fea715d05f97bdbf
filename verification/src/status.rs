//! The contextual data of the status bar: model, tokens, iteration.

use vstd::prelude::*;

use crate::handlers::cut_to;
use crate::text::{byte_len, byte_len_of, chars_of, decimal, decimal_of, push_range, string_of};
use crate::tools::{byte_boundary, on_boundary};

verus! {

/// The data displayed in the status bar.
#[derive(Debug, Clone)]
pub struct StatusInfo {
    /// Provider name (e.g. "openai", "ollama").
    pub provider: String,
    /// Model id (e.g. "gpt-4o-mini").
    pub model: String,
    /// Mode label (RUN, PLAN, SWARM).
    pub mode: String,
    /// Total prompt tokens used this session.
    pub prompt_tokens: u64,
    /// Total completion tokens used this session.
    pub completion_tokens: u64,
    /// Current iteration count.
    pub iteration: usize,
    /// Max iterations.
    pub max_iterations: usize,
    /// Session ID (short form).
    pub session_id: String,
    /// Number of tool calls made.
    pub tool_calls: u64,
    /// Whether the agent is actively running.
    pub running: bool,
}

impl Default for StatusInfo {
    fn default() -> (r: Self)
        ensures
            r.provider@.len() == 0,
            r.model@.len() == 0,
            r.mode@.len() == 0,
            r.prompt_tokens == 0,
            r.completion_tokens == 0,
            r.iteration == 0,
            r.max_iterations == 0,
            r.session_id@.len() == 0,
            r.tool_calls == 0,
            !r.running,
    {
        StatusInfo {
            provider: String::new(),
            model: String::new(),
            mode: String::new(),
            prompt_tokens: 0,
            completion_tokens: 0,
            iteration: 0,
            max_iterations: 0,
            session_id: String::new(),
            tool_calls: 0,
            running: false,
        }
    }
}

impl StatusInfo {
    /// What the header shows as the objective: the mode label, cut to 60
    /// bytes and followed by an ellipsis when longer. The cut must fall
    /// between two characters.
    pub fn header_preview(&self) -> (s: String)
        requires
            byte_len(self.mode@) > 60 ==> on_boundary(self.mode@, 60),
        ensures
            s@ == if byte_len(self.mode@) > 60 {
                cut_to(self.mode@, 60) + "…"@
            } else {
                self.mode@
            },
    {
        let cs = chars_of(self.mode.as_str());
        if byte_len_of(&cs) > 60 {
            let kept = match byte_boundary(&cs, 60) {
                Some(k) => {
                    let mut v: Vec<char> = Vec::new();
                    push_range(&mut v, &cs, 0, k);
                    assert(v@ =~= cs@.take(k as int));
                    v
                },
                None => cs,
            };
            string_of(&kept).concat("…")
        } else {
            self.mode.clone()
        }
    }

    /// Iteration progress as `iter {iteration}/{max_iterations}`.
    pub fn iter_str(&self) -> (s: String)
        ensures
            s@ == "iter "@ + decimal(self.iteration as nat) + "/"@ + decimal(
                self.max_iterations as nat,
            ),
    {
        let a = decimal_of(self.iteration as u64);
        let b = decimal_of(self.max_iterations as u64);
        String::from_str("iter ").concat(string_of(&a).as_str()).concat("/").concat(
            string_of(&b).as_str(),
        )
    }
}

} // verus!
