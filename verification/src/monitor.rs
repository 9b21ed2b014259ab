//! Observability logs for the dashboard: append-only ring buffers of
//! executed actions and model calls, each bounded to a fixed capacity with
//! the oldest entries dropped on overflow. The surrounding application
//! wraps the store in its own mutual exclusion; here the store is a plain
//! value with exact append semantics.

use vstd::prelude::*;
use crate::actions::Actions;

verus! {

/// Capacity of each log.
pub const LOG_CAPACITY: usize = 1000;

/// One executed action: when it ran, what it was, what it printed, and how
/// long it took.
pub struct ActionLog {
    pub timestamp: i64,
    pub action: Actions,
    pub result: String,
    pub duration_ms: u64,
}

/// One model call: when it ran, both prompts, the response, the duration
/// and the model identifier.
pub struct LlmCallLog {
    pub timestamp: i64,
    pub system_prompt: String,
    pub user_prompt: String,
    pub response: String,
    pub duration_ms: u64,
    pub model: String,
}

/// The bounded observability store.
pub struct Monitor {
    pub action_logs: Vec<ActionLog>,
    pub llm_call_logs: Vec<LlmCallLog>,
}

impl Monitor {
    /// Both logs within capacity.
    pub open spec fn wf(&self) -> bool {
        self.action_logs@.len() <= LOG_CAPACITY as int && self.llm_call_logs@.len()
            <= LOG_CAPACITY as int
    }

    /// An empty store.
    pub fn new() -> (r: Monitor)
        ensures
            r.wf(),
            r.action_logs@.len() == 0,
            r.llm_call_logs@.len() == 0,
    {
        Monitor { action_logs: Vec::new(), llm_call_logs: Vec::new() }
    }

    /// Appends one action entry; at capacity the oldest entry is dropped
    /// first. Entries already in the log are never altered.
    pub fn log_action(&mut self, timestamp: i64, action: Actions, result: String, duration_ms: u64)
        requires
            old(self).wf(),
        ensures
            final(self).wf(),
            ({
                let e = ActionLog { timestamp, action, result, duration_ms };
                final(self).action_logs@ == if old(self).action_logs@.len()
                    < LOG_CAPACITY as int {
                    old(self).action_logs@.push(e)
                } else {
                    old(self).action_logs@.drop_first().push(e)
                }
            }),
            final(self).llm_call_logs == old(self).llm_call_logs,
    {
        if self.action_logs.len() == LOG_CAPACITY {
            self.action_logs.remove(0);
            proof {
                assert(self.action_logs@ =~= old(self).action_logs@.drop_first());
            }
        }
        self.action_logs.push(ActionLog { timestamp, action, result, duration_ms });
    }

    /// Appends one model-call entry; at capacity the oldest entry is
    /// dropped first. Entries already in the log are never altered.
    pub fn log_llm_call(
        &mut self,
        timestamp: i64,
        system_prompt: String,
        user_prompt: String,
        response: String,
        duration_ms: u64,
        model: String,
    )
        requires
            old(self).wf(),
        ensures
            final(self).wf(),
            ({
                let e = LlmCallLog {
                    timestamp,
                    system_prompt,
                    user_prompt,
                    response,
                    duration_ms,
                    model,
                };
                final(self).llm_call_logs@ == if old(self).llm_call_logs@.len()
                    < LOG_CAPACITY as int {
                    old(self).llm_call_logs@.push(e)
                } else {
                    old(self).llm_call_logs@.drop_first().push(e)
                }
            }),
            final(self).action_logs == old(self).action_logs,
    {
        if self.llm_call_logs.len() == LOG_CAPACITY {
            self.llm_call_logs.remove(0);
            proof {
                assert(self.llm_call_logs@ =~= old(self).llm_call_logs@.drop_first());
            }
        }
        self.llm_call_logs.push(LlmCallLog {
            timestamp,
            system_prompt,
            user_prompt,
            response,
            duration_ms,
            model,
        });
    }

    /// The recorded actions, oldest first.
    pub fn get_action_logs(&self) -> (r: &Vec<ActionLog>)
        ensures
            r == &self.action_logs,
    {
        &self.action_logs
    }

    /// The recorded model calls, oldest first.
    pub fn get_llm_call_logs(&self) -> (r: &Vec<LlmCallLog>)
        ensures
            r == &self.llm_call_logs,
    {
        &self.llm_call_logs
    }
}

} // verus!
