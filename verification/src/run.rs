//! The course of a run: how many requests are made, what ends the run
//! early, and what is said at its end.
//!
//! A run that forges makes one request. A run that fuzzes makes as many as
//! it was told to, one after the other, and counts them. A request that
//! fails ends nothing but itself, with one exception: where no local
//! endpoint can be bound, no later request could be sent either, and the
//! run ends there.

use vstd::prelude::*;
use crate::config::{Config, ConfigView};
use crate::decode::DecodeError;
use crate::text::{decimal, push_decimal};
use crate::transport::TransportError;

verus! {

/// How one request ended.
#[derive(Clone, Copy, Debug, PartialEq, Eq, Structural)]
pub enum IterationEnd {
    /// A reply came and was reported.
    Reported,
    /// A reply came and could not be decoded.
    Undecoded(DecodeError),
    /// No reply came.
    Unanswered(TransportError),
    /// The content was too long for an envelope, and nothing was sent.
    Oversize,
}

/// What makes the packet of a request.
#[derive(Clone, Copy, Debug, PartialEq, Eq, Structural)]
pub enum Generator {
    Forge,
    Fuzz,
}

/// What a run does next.
#[derive(Clone, Copy, Debug, PartialEq, Eq, Structural)]
pub enum RunAction {
    /// Make one more request, with a packet of this generator.
    Request(Generator),
    /// End the run.
    Stop,
}

/// The outcome of asking a run how to go on: the text to report, and what
/// to do next.
#[derive(Debug)]
pub struct RunStep {
    pub report: String,
    pub action: RunAction,
}

/// How far a run has come.
#[derive(Clone, Copy, Debug, PartialEq, Eq, Structural)]
pub struct Run {
    /// The requests that have ended.
    pub completed: u32,
    /// A request ended in a way that ends the run.
    pub halted: bool,
}

/// Whether a request that ended so ends the run with it.
pub open spec fn ends_run(end: IterationEnd) -> bool {
    end == IterationEnd::Unanswered(TransportError::Bind)
}

impl Run {
    /// A run of which nothing has happened yet.
    pub open spec fn initial() -> Run {
        Run { completed: 0, halted: false }
    }

    /// The run after one more request has ended.
    pub open spec fn after(self, end: IterationEnd) -> Run {
        Run {
            completed: if self.completed < u32::MAX {
                (self.completed + 1) as u32
            } else {
                self.completed
            },
            halted: self.halted || ends_run(end),
        }
    }

    /// Whether one more request is to be made.
    pub open spec fn wants_more(self, cfg: ConfigView) -> bool {
        !self.halted && self.completed < cfg.fuzzy_loop && (cfg.fuzzy || self.completed == 0)
    }

    /// What the run does next.
    pub open spec fn action(self, cfg: ConfigView) -> RunAction {
        if self.wants_more(cfg) {
            RunAction::Request(
                if cfg.fuzzy {
                    Generator::Fuzz
                } else {
                    Generator::Forge
                },
            )
        } else {
            RunAction::Stop
        }
    }

    /// What is said at the end of the run: the count of requests of a run
    /// that fuzzed and was not ended early.
    pub open spec fn summary(self, cfg: ConfigView) -> Seq<char> {
        if cfg.fuzzy && !self.halted {
            "\n----\nCompleted "@ + decimal(self.completed as nat) + " Fuzzing(s)\n"@
        } else {
            Seq::empty()
        }
    }

    /// What is reported as the run goes on or stops.
    pub open spec fn next_report(self, cfg: ConfigView) -> Seq<char> {
        if self.wants_more(cfg) {
            Seq::empty()
        } else {
            self.summary(cfg)
        }
    }

    /// A run of which nothing has happened yet.
    pub fn new() -> (run: Run)
        ensures
            run == Run::initial(),
    {
        Run { completed: 0, halted: false }
    }

    /// Says how the run goes on: with one more request, or with its end,
    /// and then with the summary.
    pub fn next(&self, cfg: &Config) -> (step: RunStep)
        ensures
            step.action == self.action(cfg@),
            step.report@ == self.next_report(cfg@),
    {
        if !self.halted && self.completed < cfg.fuzzy_loop && (cfg.fuzzy || self.completed == 0) {
            let generator = if cfg.fuzzy {
                Generator::Fuzz
            } else {
                Generator::Forge
            };
            RunStep { report: String::new(), action: RunAction::Request(generator) }
        } else {
            let mut report = String::new();
            if cfg.fuzzy && !self.halted {
                report.append("\n----\nCompleted ");
                push_decimal(&mut report, self.completed as u64);
                report.append(" Fuzzing(s)\n");
                assert(report@ =~= self.summary(cfg@));
            }
            RunStep { report, action: RunAction::Stop }
        }
    }

    /// Takes the end of a request: counts it, and marks the run as ended
    /// where no endpoint could be bound. The report closes the request
    /// with an empty line, unless the run ends here.
    pub fn record(&mut self, end: IterationEnd) -> (report: String)
        ensures
            *final(self) == old(self).after(end),
            report@ == end_text(end),
    {
        if self.completed < u32::MAX {
            self.completed = self.completed + 1;
        }
        match end {
            IterationEnd::Unanswered(TransportError::Bind) => {
                self.halted = true;
                String::new()
            },
            _ => String::from_str("\n"),
        }
    }
}

/// What is reported when a request has ended: an empty line, unless the
/// run ends with it.
pub open spec fn end_text(end: IterationEnd) -> Seq<char> {
    if ends_run(end) {
        Seq::empty()
    } else {
        "\n"@
    }
}

/// The run after the requests of `ends`, in their order.
pub open spec fn replay(ends: Seq<IterationEnd>) -> Run
    decreases ends.len(),
{
    if ends.len() == 0 {
        Run::initial()
    } else {
        replay(ends.drop_last()).after(ends.last())
    }
}

/// A run none of whose requests failed to bind has counted every request
/// and has not been ended.
pub proof fn lemma_replay_counts(ends: Seq<IterationEnd>)
    requires
        ends.len() <= u32::MAX,
        forall|i: int| 0 <= i < ends.len() ==> !ends_run(#[trigger] ends[i]),
    ensures
        replay(ends).completed == ends.len(),
        !replay(ends).halted,
    decreases ends.len(),
{
    if ends.len() > 0 {
        lemma_replay_counts(ends.drop_last());
    }
}

/// Requests that fail do not end a run that fuzzes, as long as an endpoint
/// can be bound: the run makes every request it was told to make, however
/// each of them ends, then stops and says how many it has made.
pub proof fn lemma_fuzz_run_makes_every_request(cfg: ConfigView, ends: Seq<IterationEnd>)
    requires
        cfg.fuzzy,
        ends.len() <= cfg.fuzzy_loop,
        forall|i: int| 0 <= i < ends.len() ==> !ends_run(#[trigger] ends[i]),
    ensures
        ends.len() < cfg.fuzzy_loop ==> replay(ends).action(cfg) == RunAction::Request(
            Generator::Fuzz,
        ),
        ends.len() == cfg.fuzzy_loop ==> replay(ends).action(cfg) == RunAction::Stop,
        ends.len() == cfg.fuzzy_loop ==> replay(ends).next_report(cfg) == "\n----\nCompleted "@
            + decimal(cfg.fuzzy_loop as nat) + " Fuzzing(s)\n"@,
{
    lemma_replay_counts(ends);
}

/// A run that forges makes one request and no second, however the first
/// ends, and has no summary.
pub proof fn lemma_forge_run_makes_one_request(cfg: ConfigView, end: IterationEnd)
    requires
        !cfg.fuzzy,
        cfg.fuzzy_loop > 0,
    ensures
        Run::initial().action(cfg) == RunAction::Request(Generator::Forge),
        Run::initial().after(end).action(cfg) == RunAction::Stop,
        Run::initial().after(end).next_report(cfg) == Seq::<char>::empty(),
{
}

} // verus!
