//! The water-purification mission: fixed sensor readings, and the judgement
//! of the artifact's chlorine dose against the reference formula, within a
//! tolerance of a tenth of a mg/L.

use vstd::prelude::*;

use crate::fixed::centi_seq;
use crate::fixed::centi_seq_signed;
use crate::fixed::format_centi;
use crate::fixed::format_centi_signed;
use crate::fixed::parse_centi;
use crate::fixed::parse_centi_spec;
use crate::fixed::within_tolerance;
use crate::interface::ArtifactRun;
use crate::interface::ExecOutcome;
use crate::oracle::calculate_correct_chlorine;
use crate::oracle::chlorine_centi_spec;
use crate::text::trim_str;
use crate::text::trimmed;

verus! {

/// The log line for a dose within tolerance of the reference.
pub open spec fn water_matched_msg(v: int) -> Seq<char> {
    "INJECTION: "@ + centi_seq_signed(v) + " mg/L [TARGET MATCHED] -> WATER PURIFIED"@
}

/// The log line for a dose off the reference, naming both values.
pub open spec fn water_unsafe_msg(v: int, expected: int) -> Seq<char> {
    "INJECTION: "@ + centi_seq_signed(v) + " mg/L [UNSAFE] (Expected "@ + centi_seq(
        expected as nat,
    ) + ")"@
}

/// The log line for artifact output that is not a decimal numeral.
pub open spec fn water_invalid_msg(raw: Seq<char>) -> Seq<char> {
    "ERROR: Invalid Sensor Output '"@ + raw + "'"@
}

/// The state after a purification run's outcome was applied to `pre`: the
/// log reflects the outcome, a dose within a tenth of a mg/L of the
/// reference finishes the mission, and nothing else moves. An artifact that
/// exits with an error is reported as a crash; its output is not judged.
pub open spec fn water_outcome_post(
    pre: Mission02State,
    post: Mission02State,
    outcome: ExecOutcome,
) -> bool {
    &&& post == (Mission02State {
        output_log: post.output_log,
        is_finished: post.is_finished,
        ..pre
    })
    &&& match outcome {
        ExecOutcome::LaunchFailed(_) => {
            &&& post.output_log@ == "HARDWARE FAILURE: PUMP CONNECTION LOST"@
            &&& post.is_finished == pre.is_finished
        },
        ExecOutcome::Ran { exit_ok, stdout } => {
            if !exit_ok {
                &&& post.output_log@ == "CRASH"@
                &&& post.is_finished == pre.is_finished
            } else {
                let t = trimmed(stdout@);
                match parse_centi_spec(t) {
                    Option::None => {
                        &&& post.output_log@ == water_invalid_msg(t)
                        &&& post.is_finished == pre.is_finished
                    },
                    Option::Some(v) => {
                        let expected = chlorine_centi_spec(
                            pre.turbidity_centi as int,
                            pre.ph_centi as int,
                        );
                        if -10 < v - expected < 10 {
                            &&& post.output_log@ == water_matched_msg(v)
                            &&& post.is_finished
                        } else {
                            &&& post.output_log@ == water_unsafe_msg(v, expected)
                            &&& post.is_finished == pre.is_finished
                        }
                    },
                }
            }
        },
    }
}

/// State of the water-purification mission: the fixed sensor readings, in
/// hundredths of a unit, and what the last check made of the artifact.
#[derive(Clone, PartialEq, Debug)]
pub struct Mission02State {
    pub turbidity_centi: u64,
    pub ph_centi: u64,
    pub output_log: String,
    pub is_compiled: bool,
    pub is_finished: bool,
}

impl Mission02State {
    /// What a freshly created purification mission guarantees: dirty
    /// (25.00 NTU), slightly acidic (pH 6.50) water, nothing compiled.
    pub open spec fn initial(s: Mission02State) -> bool {
        &&& s.turbidity_centi == 2500
        &&& s.ph_centi == 650
        &&& s.output_log@ == "AWAITING FIRMWARE UPDATE..."@
        &&& !s.is_compiled
        &&& !s.is_finished
    }

    /// Fresh mission state: dirty water, slightly acidic, nothing compiled.
    pub fn new() -> (s: Mission02State)
        ensures
            Mission02State::initial(s),
    {
        Mission02State {
            turbidity_centi: 2500,
            ph_centi: 650,
            output_log: String::from_str("AWAITING FIRMWARE UPDATE..."),
            is_compiled: false,
            is_finished: false,
        }
    }

    /// Asks for a run of the purification artifact on the sensor readings —
    /// but only once a compile succeeded: without firmware there is nothing
    /// to execute.
    pub fn check_water(&self) -> (req: Option<ArtifactRun>)
        ensures
            self.is_compiled ==> req == Some(
                ArtifactRun::Water {
                    turbidity_centi: self.turbidity_centi,
                    ph_centi: self.ph_centi,
                },
            ),
            !self.is_compiled ==> req is None,
    {
        if self.is_compiled {
            Some(
                ArtifactRun::Water {
                    turbidity_centi: self.turbidity_centi,
                    ph_centi: self.ph_centi,
                },
            )
        } else {
            None
        }
    }

    /// Judges the artifact's output. A non-zero exit is reported as a crash
    /// and the output is not judged. Otherwise the output, parsed as a
    /// decimal dose, matches when it is within a tenth of a mg/L of the
    /// reference formula, which finishes the mission; anything else only
    /// updates the log.
    pub fn apply_water_outcome(&mut self, outcome: &ExecOutcome)
        ensures
            water_outcome_post(*old(self), *final(self), *outcome),
    {
        match outcome {
            ExecOutcome::Ran { exit_ok, stdout } => {
                if !*exit_ok {
                    self.output_log = String::from_str("CRASH");
                    return ;
                }
                let t = trim_str(stdout.as_str());
                match parse_centi(t.as_str()) {
                    Some(v) => {
                        let expected = calculate_correct_chlorine(
                            self.turbidity_centi,
                            self.ph_centi,
                        );
                        let mut log = String::from_str("INJECTION: ");
                        let dose = format_centi_signed(v);
                        log.append(dose.as_str());
                        if within_tolerance(v, expected as i64) {
                            log.append(" mg/L [TARGET MATCHED] -> WATER PURIFIED");
                            self.output_log = log;
                            self.is_finished = true;
                        } else {
                            log.append(" mg/L [UNSAFE] (Expected ");
                            let want = format_centi(expected);
                            log.append(want.as_str());
                            log.append(")");
                            self.output_log = log;
                        }
                    },
                    None => {
                        let mut log = String::from_str("ERROR: Invalid Sensor Output '");
                        log.append(t.as_str());
                        log.append("'");
                        self.output_log = log;
                    },
                }
            },
            ExecOutcome::LaunchFailed(_) => {
                self.output_log = String::from_str("HARDWARE FAILURE: PUMP CONNECTION LOST");
            },
        }
    }
}

} // verus!
