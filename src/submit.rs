//! The transaction submission engine: simulation, the gas-price retry
//! ladder, recovery from sequence mismatches and the final result check.
//!
//! The engine makes every decision and performs no I/O: its driver carries
//! out each returned action (simulate, sign and broadcast, await finality)
//! and hands back what the node answered.
use vstd::prelude::*;
use crate::config::CosmosConfig;
use crate::gas::{coins_for, coins_for_spec, price_for_attempt, price_for_attempt_spec, Fixed};
use crate::sequence::{expected_sequence, get_expected_sequence};

verus! {

/// The result code by which a node reports that the offered fee or gas was
/// insufficient.
pub const INSUFFICIENT_GAS_CODE: u32 = 13;

/// Where a submission stands.
#[derive(Clone, Copy, Debug, PartialEq, Eq, Structural)]
pub enum Phase {
    /// Waiting for the outcome of a simulation.
    Simulating,
    /// Waiting for the node's answer to a broadcast.
    Broadcasting,
    /// Waiting for the accepted transaction to land on chain.
    Finalizing,
    /// Succeeded or failed; nothing more to do.
    Finished,
}

/// One signed broadcast: the signing document covers all of these, so each
/// attempt is signed afresh.
#[derive(Clone, Copy, Debug, PartialEq, Eq, Structural)]
pub struct BroadcastAttempt {
    pub account_number: u64,
    pub sequence: u64,
    pub gas_limit: u64,
    /// Amount of the fee coin offered.
    pub fee_amount: u64,
    /// The price tier, counted from zero.
    pub tier: u64,
}

/// Why a submission failed.
#[derive(Clone, Debug, PartialEq, Eq)]
pub enum SubmitError {
    /// The simulation failed, and the error offered no (further) retry.
    Simulate { message: String },
    /// The simulation response carried no gas information.
    MissingGasInfo,
    /// The broadcast request itself failed.
    Broadcast { message: String },
    /// The node refused the transaction with a non-zero code.
    Rejected { code: u32, raw_log: String },
    /// Waiting for the transaction to land failed or timed out.
    Finality { message: String },
    /// The transaction landed with a non-zero code.
    Failed { code: u32, raw_log: String },
}

/// What the engine asks its driver to do next.
#[derive(Clone, Debug, PartialEq, Eq)]
pub enum SubmitAction {
    /// Simulate the draft for `sequence`, with an empty signature and no fee.
    Simulate { sequence: u64 },
    /// Sign the draft for these parameters and broadcast it synchronously.
    Broadcast(BroadcastAttempt),
    /// Poll until the accepted transaction `txhash` lands.
    AwaitFinality { txhash: String },
    /// The transaction landed and passed the code check; its finality
    /// response is the result.
    Done,
    /// The submission failed.
    Fail(SubmitError),
}

/// The state of one submission of a draft transaction.
#[derive(Clone, Copy, Debug)]
pub struct Submission {
    pub account_number: u64,
    /// The sequence that the next simulation or broadcast uses.
    pub sequence: u64,
    /// The gas limit that broadcasts request.
    pub gas_limit: u64,
    /// The current price tier, counted from zero.
    pub tier: u64,
    pub gas_price_low: Fixed,
    pub gas_price_high: Fixed,
    /// Tiers below the high price; tier `gas_price_retry_attempts` is the
    /// last, pinned at the high price.
    pub gas_price_retry_attempts: u64,
    pub gas_estimate_multiplier: Fixed,
    /// Whether non-zero result codes are accepted as they are.
    pub skip_code_check: bool,
    /// Whether the simulation has already been redone for a new sequence.
    pub simulate_retried: bool,
    /// Whether the broadcast has already been redone for a new sequence.
    pub broadcast_retried: bool,
    pub phase: Phase,
}

impl Submission {
    /// The tier never passes the last one.
    pub open spec fn wf(self) -> bool {
        self.tier <= self.gas_price_retry_attempts
    }

    /// The fee offered on tier `tier` for this submission's gas limit.
    pub open spec fn fee_for_tier(self, tier: nat) -> nat {
        coins_for_spec(
            self.gas_limit as nat,
            price_for_attempt_spec(
                tier,
                self.gas_price_low.nanos as nat,
                self.gas_price_high.nanos as nat,
                self.gas_price_retry_attempts as nat,
            ),
        )
    }

    /// The broadcast made on the current tier.
    pub open spec fn attempt_spec(self) -> BroadcastAttempt {
        BroadcastAttempt {
            account_number: self.account_number,
            sequence: self.sequence,
            gas_limit: self.gas_limit,
            fee_amount: self.fee_for_tier(self.tier as nat) as u64,
            tier: self.tier,
        }
    }

    /// The prices and multiplier are those of `config`; all else is as given.
    pub open spec fn starts_from(
        self,
        config: CosmosConfig,
        skip_code_check: bool,
        account_number: u64,
        sequence: u64,
    ) -> bool {
        &&& self.account_number == account_number
        &&& self.sequence == sequence
        &&& self.tier == 0
        &&& self.gas_price_low == config.gas_price_low
        &&& self.gas_price_high == config.gas_price_high
        &&& self.gas_price_retry_attempts == config.gas_price_retry_attempts
        &&& self.gas_estimate_multiplier == config.gas_estimate_multiplier
        &&& self.skip_code_check == skip_code_check
        &&& !self.simulate_retried
        &&& !self.broadcast_retried
    }

    /// The broadcast for the current tier.
    fn current_attempt(&self) -> (r: BroadcastAttempt)
        ensures
            r == self.attempt_spec(),
    {
        let price = price_for_attempt(
            self.tier,
            self.gas_price_low,
            self.gas_price_high,
            self.gas_price_retry_attempts,
        );
        BroadcastAttempt {
            account_number: self.account_number,
            sequence: self.sequence,
            gas_limit: self.gas_limit,
            fee_amount: coins_for(self.gas_limit, price),
            tier: self.tier,
        }
    }

    /// A submission that first simulates the draft to learn its gas, for the
    /// account's current number and sequence; the first action simulates.
    pub fn simulate_first(
        config: &CosmosConfig,
        skip_code_check: bool,
        account_number: u64,
        sequence: u64,
    ) -> (r: (Submission, SubmitAction))
        ensures
            r.0.wf(),
            r.0.starts_from(*config, skip_code_check, account_number, sequence),
            r.0.phase == Phase::Simulating,
            r.1 == (SubmitAction::Simulate { sequence }),
    {
        let s = Submission {
            account_number,
            sequence,
            gas_limit: 0,
            tier: 0,
            gas_price_low: config.gas_price_low,
            gas_price_high: config.gas_price_high,
            gas_price_retry_attempts: config.gas_price_retry_attempts,
            gas_estimate_multiplier: config.gas_estimate_multiplier,
            skip_code_check,
            simulate_retried: false,
            broadcast_retried: false,
            phase: Phase::Simulating,
        };
        (s, SubmitAction::Simulate { sequence })
    }

    /// A submission that requests `gas_limit` without simulating; the first
    /// action broadcasts on the lowest tier.
    pub fn with_gas(
        config: &CosmosConfig,
        skip_code_check: bool,
        account_number: u64,
        sequence: u64,
        gas_limit: u64,
    ) -> (r: (Submission, SubmitAction))
        ensures
            r.0.wf(),
            r.0.starts_from(*config, skip_code_check, account_number, sequence),
            r.0.gas_limit == gas_limit,
            r.0.phase == Phase::Broadcasting,
            r.1 == SubmitAction::Broadcast(r.0.attempt_spec()),
    {
        let s = Submission {
            account_number,
            sequence,
            gas_limit,
            tier: 0,
            gas_price_low: config.gas_price_low,
            gas_price_high: config.gas_price_high,
            gas_price_retry_attempts: config.gas_price_retry_attempts,
            gas_estimate_multiplier: config.gas_estimate_multiplier,
            skip_code_check,
            simulate_retried: false,
            broadcast_retried: false,
            phase: Phase::Broadcasting,
        };
        let a = s.current_attempt();
        (s, SubmitAction::Broadcast(a))
    }

    /// The simulation succeeded and reported `gas_used`, or no gas
    /// information (`None`). With gas, the limit becomes the padded estimate
    /// and the first broadcast goes out on the lowest tier, for the sequence
    /// that the simulation used.
    pub fn on_simulated(&mut self, gas_used: Option<u64>) -> (action: SubmitAction)
        requires
            old(self).wf(),
            old(self).phase == Phase::Simulating,
        ensures
            final(self).wf(),
            gas_used is None ==> action == SubmitAction::Fail(SubmitError::MissingGasInfo)
                && *final(self) == (Submission { phase: Phase::Finished, ..*old(self) }),
            gas_used matches Some(g) ==> *final(self) == (Submission {
                gas_limit: coins_for_spec(g as nat, old(self).gas_estimate_multiplier.nanos as nat) as u64,
                tier: 0,
                phase: Phase::Broadcasting,
                ..*old(self)
            }) && action == SubmitAction::Broadcast(final(self).attempt_spec()),
    {
        match gas_used {
            None => {
                self.phase = Phase::Finished;
                SubmitAction::Fail(SubmitError::MissingGasInfo)
            },
            Some(g) => {
                self.gas_limit = coins_for(g, self.gas_estimate_multiplier);
                self.tier = 0;
                self.phase = Phase::Broadcasting;
                SubmitAction::Broadcast(self.current_attempt())
            },
        }
    }

    /// The simulation failed with `message`. If this is the first failure
    /// and the message names the sequence the node expected, the simulation
    /// is redone with that sequence; otherwise the submission fails.
    pub fn on_simulate_failed(&mut self, message: String) -> (action: SubmitAction)
        requires
            old(self).wf(),
            old(self).phase == Phase::Simulating,
        ensures
            final(self).wf(),
            (!old(self).simulate_retried && expected_sequence(message@) is Some) ==> ({
                let n = expected_sequence(message@)->Some_0;
                &&& *final(self) == (Submission { sequence: n, simulate_retried: true, ..*old(self) })
                &&& action == (SubmitAction::Simulate { sequence: n })
            }),
            (old(self).simulate_retried || expected_sequence(message@) is None) ==> ({
                &&& *final(self) == (Submission { phase: Phase::Finished, ..*old(self) })
                &&& action == SubmitAction::Fail(SubmitError::Simulate { message })
            }),
    {
        if !self.simulate_retried {
            if let Some(n) = get_expected_sequence(message.as_str()) {
                self.sequence = n;
                self.simulate_retried = true;
                return SubmitAction::Simulate { sequence: n };
            }
        }
        self.phase = Phase::Finished;
        SubmitAction::Fail(SubmitError::Simulate { message })
    }

    /// The node answered a broadcast with result `code`, log `raw_log` and
    /// hash `txhash`.
    ///
    /// Accepted (code zero, or codes not checked): wait for finality.
    /// Insufficient gas below the last tier: broadcast again one tier up.
    /// Any other refusal whose log names the expected sequence, the first
    /// time: start the ladder over from the lowest tier with that sequence.
    /// Otherwise the submission fails with the code and log.
    pub fn on_broadcast_response(&mut self, code: u32, raw_log: String, txhash: String) -> (action: SubmitAction)
        requires
            old(self).wf(),
            old(self).phase == Phase::Broadcasting,
        ensures
            final(self).wf(),
            (old(self).skip_code_check || code == 0) ==> ({
                &&& *final(self) == (Submission { phase: Phase::Finalizing, ..*old(self) })
                &&& action == (SubmitAction::AwaitFinality { txhash })
            }),
            (!old(self).skip_code_check && code == INSUFFICIENT_GAS_CODE
                && old(self).tier < old(self).gas_price_retry_attempts) ==> ({
                &&& *final(self) == (Submission { tier: (old(self).tier + 1) as u64, ..*old(self) })
                &&& action == SubmitAction::Broadcast(final(self).attempt_spec())
            }),
            (!old(self).skip_code_check && code == INSUFFICIENT_GAS_CODE
                && old(self).tier == old(self).gas_price_retry_attempts) ==> ({
                &&& *final(self) == (Submission { phase: Phase::Finished, ..*old(self) })
                &&& action == SubmitAction::Fail(SubmitError::Rejected { code, raw_log })
            }),
            (!old(self).skip_code_check && code != 0 && code != INSUFFICIENT_GAS_CODE
                && !old(self).broadcast_retried && expected_sequence(raw_log@) is Some) ==> ({
                let n = expected_sequence(raw_log@)->Some_0;
                &&& *final(self) == (Submission {
                    sequence: n,
                    tier: 0,
                    broadcast_retried: true,
                    ..*old(self)
                })
                &&& action == SubmitAction::Broadcast(final(self).attempt_spec())
            }),
            (!old(self).skip_code_check && code != 0 && code != INSUFFICIENT_GAS_CODE
                && (old(self).broadcast_retried || expected_sequence(raw_log@) is None)) ==> ({
                &&& *final(self) == (Submission { phase: Phase::Finished, ..*old(self) })
                &&& action == SubmitAction::Fail(SubmitError::Rejected { code, raw_log })
            }),
    {
        if self.skip_code_check || code == 0 {
            self.phase = Phase::Finalizing;
            return SubmitAction::AwaitFinality { txhash };
        }
        if code == INSUFFICIENT_GAS_CODE {
            if self.tier < self.gas_price_retry_attempts {
                self.tier = self.tier + 1;
                return SubmitAction::Broadcast(self.current_attempt());
            }
            self.phase = Phase::Finished;
            return SubmitAction::Fail(SubmitError::Rejected { code, raw_log });
        }
        if !self.broadcast_retried {
            if let Some(n) = get_expected_sequence(raw_log.as_str()) {
                self.sequence = n;
                self.tier = 0;
                self.broadcast_retried = true;
                return SubmitAction::Broadcast(self.current_attempt());
            }
        }
        self.phase = Phase::Finished;
        SubmitAction::Fail(SubmitError::Rejected { code, raw_log })
    }

    /// The broadcast request failed with `message` before the node answered
    /// with a result code: the submission fails.
    pub fn on_broadcast_failed(&mut self, message: String) -> (action: SubmitAction)
        requires
            old(self).wf(),
            old(self).phase == Phase::Broadcasting,
        ensures
            final(self).wf(),
            *final(self) == (Submission { phase: Phase::Finished, ..*old(self) }),
            action == SubmitAction::Fail(SubmitError::Broadcast { message }),
    {
        self.phase = Phase::Finished;
        SubmitAction::Fail(SubmitError::Broadcast { message })
    }

    /// The transaction landed with result `code` and log `raw_log`. A
    /// landed transaction has consumed its sequence, so a non-zero code is
    /// never retried: it fails the submission unless codes are not checked.
    pub fn on_finalized(&mut self, code: u32, raw_log: String) -> (action: SubmitAction)
        requires
            old(self).wf(),
            old(self).phase == Phase::Finalizing,
        ensures
            final(self).wf(),
            *final(self) == (Submission { phase: Phase::Finished, ..*old(self) }),
            (old(self).skip_code_check || code == 0) ==> action == SubmitAction::Done,
            !(old(self).skip_code_check || code == 0) ==> action == SubmitAction::Fail(
                SubmitError::Failed { code, raw_log },
            ),
    {
        self.phase = Phase::Finished;
        if self.skip_code_check || code == 0 {
            SubmitAction::Done
        } else {
            SubmitAction::Fail(SubmitError::Failed { code, raw_log })
        }
    }

    /// Waiting for the transaction failed with `message`: the submission fails.
    pub fn on_finality_failed(&mut self, message: String) -> (action: SubmitAction)
        requires
            old(self).wf(),
            old(self).phase == Phase::Finalizing,
        ensures
            final(self).wf(),
            *final(self) == (Submission { phase: Phase::Finished, ..*old(self) }),
            action == SubmitAction::Fail(SubmitError::Finality { message }),
    {
        self.phase = Phase::Finished;
        SubmitAction::Fail(SubmitError::Finality { message })
    }
}

} // verus!
