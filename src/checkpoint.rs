//! Checkpoint settings and the schedule of checkpoint writes during training.

use vstd::prelude::*;
use crate::uri::{normalize_uri, str_eq};

verus! {

/// Checkpoint section of a configuration.
#[derive(Debug, Clone, Default)]
pub struct Checkpoint {
    pub enabled: Option<bool>,
    /// Where checkpoints are written, on any backend.
    pub uri: Option<String>,
    pub steps_between_checkpoints: Option<u32>,
    /// Compression name, e.g. "zstd".
    pub compression: Option<String>,
    pub compression_level: Option<i32>,
}

fn copy_text(s: &Option<String>) -> (r: Option<String>)
    ensures
        r == *s,
{
    match s {
        Some(t) => Some(t.clone()),
        None => None,
    }
}

impl Checkpoint {
    /// A copy of the settings.
    pub fn duplicate(&self) -> (r: Checkpoint)
        ensures
            r == *self,
    {
        Checkpoint {
            enabled: self.enabled,
            uri: copy_text(&self.uri),
            steps_between_checkpoints: self.steps_between_checkpoints,
            compression: copy_text(&self.compression),
            compression_level: self.compression_level,
        }
    }
}

/// Steps between checkpoints, 100 unless set.
pub open spec fn interval_of(cfg: Checkpoint) -> u32 {
    match cfg.steps_between_checkpoints {
        Some(n) => n,
        None => 100,
    }
}

/// Checkpointing of a run: its settings, run id, destination, and the step
/// at which the next checkpoint is due.
#[derive(Debug, Clone)]
pub struct CheckpointPlugin {
    pub cfg: Checkpoint,
    pub run_id: String,
    pub next_checkpoint_step: u32,
    pub base_uri: String,
}

impl CheckpointPlugin {
    /// Checkpointing for a run with id `run_id` whose data lives in
    /// `data_folder`; `None` unless the settings enable it with a positive
    /// interval. The first checkpoint is due after one interval; checkpoints
    /// go to the configured URI, else to the data folder.
    pub fn new(checkpoint: &Option<Checkpoint>, data_folder: &str, run_id: String) -> (r: Option<Self>)
        ensures
            r is Some <==> (checkpoint is Some && checkpoint->Some_0.enabled == Some(true) && interval_of(checkpoint->Some_0) > 0),
            r is Some ==> ({
                let p = r->Some_0;
                &&& p.cfg == checkpoint->Some_0
                &&& p.run_id@ == run_id@
                &&& p.next_checkpoint_step == interval_of(checkpoint->Some_0)
                &&& p.base_uri@ == match checkpoint->Some_0.uri {
                    Some(u) => u@,
                    None => data_folder@,
                }
            }),
    {
        let cfg = match checkpoint {
            Some(c) => c,
            None => return None,
        };
        match cfg.enabled {
            Some(true) => {},
            _ => return None,
        }
        let interval = match cfg.steps_between_checkpoints {
            Some(n) => n,
            None => 100,
        };
        if interval == 0 {
            return None;
        }
        let base_uri = match &cfg.uri {
            Some(u) => normalize_uri(u.as_str()),
            None => normalize_uri(data_folder),
        };
        Some(CheckpointPlugin { cfg: cfg.duplicate(), run_id, next_checkpoint_step: interval, base_uri })
    }

    /// Steps between checkpoints, 100 unless set.
    pub fn step_interval(&self) -> (r: u32)
        ensures
            r == interval_of(self.cfg),
    {
        match self.cfg.steps_between_checkpoints {
            Some(n) => n,
            None => 100,
        }
    }

    /// Whether checkpoints are compressed: only with "zstd".
    pub fn compression_enabled(&self) -> (r: bool)
        ensures
            r == (self.cfg.compression is Some && self.cfg.compression->Some_0@ == "zstd"@),
    {
        match &self.cfg.compression {
            Some(c) => str_eq(c.as_str(), "zstd"),
            None => false,
        }
    }

    /// Compression level, 3 unless set.
    pub fn compression_level(&self) -> (r: i32)
        ensures
            r == match self.cfg.compression_level {
                Some(l) => l,
                None => 3i32,
            },
    {
        match self.cfg.compression_level {
            Some(l) => l,
            None => 3,
        }
    }

    /// Where checkpoints go: the configured URI, else `fallback_data_folder`.
    pub fn checkpoint_uri<'a>(&'a self, fallback_data_folder: &'a str) -> (r: &'a str)
        ensures
            r@ == match self.cfg.uri {
                Some(u) => u@,
                None => fallback_data_folder@,
            },
    {
        match &self.cfg.uri {
            Some(u) => u.as_str(),
            None => fallback_data_folder,
        }
    }

    /// A checkpoint is due at `step`.
    pub fn should_checkpoint(&self, step: u32) -> (r: bool)
        ensures
            r == (step >= self.next_checkpoint_step),
    {
        step >= self.next_checkpoint_step
    }

    /// The next due step after a checkpoint at `step`: the first multiple of
    /// the interval above `step`.
    pub open spec fn next_due_after(&self, step: u32) -> int {
        (step / interval_of(self.cfg) + 1) * interval_of(self.cfg)
    }

    /// Schedules the next checkpoint after one written at `step`.
    pub fn update_next_checkpoint(&mut self, step: u32)
        requires
            interval_of(old(self).cfg) > 0,
            old(self).next_due_after(step) <= u32::MAX,
        ensures
            final(self).next_checkpoint_step == old(self).next_due_after(step),
            final(self).cfg == old(self).cfg,
            final(self).run_id == old(self).run_id,
            final(self).base_uri == old(self).base_uri,
    {
        let interval = self.step_interval();
        proof {
            let q = step / interval;
            assert(q + 1 <= (q + 1) * interval) by (nonlinear_arith)
                requires
                    interval >= 1,
                    q >= 0,
            ;
        }
        self.next_checkpoint_step = (step / interval + 1) * interval;
    }

    /// Decides what follows step `step`: returns whether a checkpoint is to
    /// be written now, and if so schedules the next one.
    pub fn after_step(&mut self, step: u32) -> (r: bool)
        requires
            interval_of(old(self).cfg) > 0,
            old(self).next_due_after(step) <= u32::MAX,
        ensures
            r == (step >= old(self).next_checkpoint_step),
            r ==> final(self).next_checkpoint_step == old(self).next_due_after(step),
            !r ==> final(self).next_checkpoint_step == old(self).next_checkpoint_step,
            final(self).cfg == old(self).cfg,
    {
        if self.should_checkpoint(step) {
            self.update_next_checkpoint(step);
            true
        } else {
            false
        }
    }
}

} // verus!
