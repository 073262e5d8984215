//! Counters of discovered tests and of test outcomes.

use vstd::prelude::*;
use crate::counter::bump;
use crate::event::TestResult;

verus! {

/// Outcome of one test.
#[derive(Clone, Copy, Debug, PartialEq, Eq)]
pub enum TestStatus {
    Pass,
    Fail,
    Skip,
    Omitted,
    Fatal,
    Timeout,
    Unknown,
    Rerun,
    ListingSuccess,
    ListingFailed,
}

/// Why a test result was rejected.
#[derive(Clone, Copy, Debug, PartialEq, Eq)]
pub enum TestStateError {
    /// The status number names no outcome.
    InvalidStatus(i32),
}

impl TestStateError {
    /// What `message` says of each rejection.
    pub open spec fn message_text(self) -> Seq<char> {
        match self {
            TestStateError::InvalidStatus(_) => "Invalid test status"@,
        }
    }

    /// One line that describes the rejection.
    pub fn message(&self) -> (text: String)
        ensures
            text@ == self.message_text(),
    {
        match self {
            TestStateError::InvalidStatus(_) => "Invalid test status".to_owned(),
        }
    }
}

impl TestStatus {
    /// The outcome that the producer numbers `code`, if there is one.
    pub open spec fn decode(code: i32) -> Option<TestStatus> {
        if code == 1 {
            Some(TestStatus::Pass)
        } else if code == 2 {
            Some(TestStatus::Fail)
        } else if code == 3 {
            Some(TestStatus::Skip)
        } else if code == 4 {
            Some(TestStatus::Omitted)
        } else if code == 5 {
            Some(TestStatus::Fatal)
        } else if code == 6 {
            Some(TestStatus::Timeout)
        } else if code == 7 {
            Some(TestStatus::Unknown)
        } else if code == 8 {
            Some(TestStatus::Rerun)
        } else if code == 9 {
            Some(TestStatus::ListingSuccess)
        } else if code == 10 {
            Some(TestStatus::ListingFailed)
        } else {
            None
        }
    }

    /// Reads a status number.
    pub fn from_code(code: i32) -> (status: Option<TestStatus>)
        ensures
            status == TestStatus::decode(code),
    {
        match code {
            1 => Some(TestStatus::Pass),
            2 => Some(TestStatus::Fail),
            3 => Some(TestStatus::Skip),
            4 => Some(TestStatus::Omitted),
            5 => Some(TestStatus::Fatal),
            6 => Some(TestStatus::Timeout),
            7 => Some(TestStatus::Unknown),
            8 => Some(TestStatus::Rerun),
            9 => Some(TestStatus::ListingSuccess),
            10 => Some(TestStatus::ListingFailed),
            _ => None,
        }
    }
}

/// How many tests were discovered, and how many ended in each way.
#[derive(Clone, Copy, Debug, PartialEq, Eq)]
pub struct TestState {
    pub discovered: u64,
    pub pass: u64,
    pub fail: u64,
    pub skipped: u64,
    pub omitted: u64,
    pub fatal: u64,
    pub timeout: u64,
    pub unknown: u64,
    pub rerun: u64,
    pub listing_success: u64,
    pub listing_failed: u64,
}

impl TestState {
    /// The counters of a run in which no test was heard of.
    pub open spec fn empty() -> TestState {
        TestState {
            discovered: 0,
            pass: 0,
            fail: 0,
            skipped: 0,
            omitted: 0,
            fatal: 0,
            timeout: 0,
            unknown: 0,
            rerun: 0,
            listing_success: 0,
            listing_failed: 0,
        }
    }

    /// The counter of the outcome `status`.
    pub open spec fn counter(self, status: TestStatus) -> u64 {
        match status {
            TestStatus::Pass => self.pass,
            TestStatus::Fail => self.fail,
            TestStatus::Skip => self.skipped,
            TestStatus::Omitted => self.omitted,
            TestStatus::Fatal => self.fatal,
            TestStatus::Timeout => self.timeout,
            TestStatus::Unknown => self.unknown,
            TestStatus::Rerun => self.rerun,
            TestStatus::ListingSuccess => self.listing_success,
            TestStatus::ListingFailed => self.listing_failed,
        }
    }

    /// The counters after one more test ended with `status`.
    pub open spec fn after(self, status: TestStatus) -> TestState {
        match status {
            TestStatus::Pass => TestState { pass: bump(self.pass), ..self },
            TestStatus::Fail => TestState { fail: bump(self.fail), ..self },
            TestStatus::Skip => TestState { skipped: bump(self.skipped), ..self },
            TestStatus::Omitted => TestState { omitted: bump(self.omitted), ..self },
            TestStatus::Fatal => TestState { fatal: bump(self.fatal), ..self },
            TestStatus::Timeout => TestState { timeout: bump(self.timeout), ..self },
            TestStatus::Unknown => TestState { unknown: bump(self.unknown), ..self },
            TestStatus::Rerun => TestState { rerun: bump(self.rerun), ..self },
            TestStatus::ListingSuccess => TestState {
                listing_success: bump(self.listing_success),
                ..self
            },
            TestStatus::ListingFailed => TestState {
                listing_failed: bump(self.listing_failed),
                ..self
            },
        }
    }

    /// The counter that a result with status number `code` advances, if any, can still be
    /// advanced.
    pub open spec fn has_room(self, code: i32) -> bool {
        TestStatus::decode(code) matches Some(status) ==> self.counter(status) < u64::MAX
    }

    /// What a result with status number `code` does: the new counters, or the reason for which
    /// it is rejected.
    pub open spec fn step(self, code: i32) -> Result<TestState, TestStateError> {
        match TestStatus::decode(code) {
            Some(status) => Ok(self.after(status)),
            None => Err(TestStateError::InvalidStatus(code)),
        }
    }

    /// Counters that are all zero.
    pub fn new() -> (state: TestState)
        ensures
            state == TestState::empty(),
    {
        TestState {
            discovered: 0,
            pass: 0,
            fail: 0,
            skipped: 0,
            omitted: 0,
            fatal: 0,
            timeout: 0,
            unknown: 0,
            rerun: 0,
            listing_success: 0,
            listing_failed: 0,
        }
    }

    /// Tells whether `update` may be called with `result`.
    pub fn can_update(&self, result: &TestResult) -> (ok: bool)
        ensures
            ok == self.has_room(result.status),
    {
        match TestStatus::from_code(result.status) {
            None => true,
            Some(TestStatus::Pass) => self.pass < u64::MAX,
            Some(TestStatus::Fail) => self.fail < u64::MAX,
            Some(TestStatus::Skip) => self.skipped < u64::MAX,
            Some(TestStatus::Omitted) => self.omitted < u64::MAX,
            Some(TestStatus::Fatal) => self.fatal < u64::MAX,
            Some(TestStatus::Timeout) => self.timeout < u64::MAX,
            Some(TestStatus::Unknown) => self.unknown < u64::MAX,
            Some(TestStatus::Rerun) => self.rerun < u64::MAX,
            Some(TestStatus::ListingSuccess) => self.listing_success < u64::MAX,
            Some(TestStatus::ListingFailed) => self.listing_failed < u64::MAX,
        }
    }

    /// Counts the outcome of one test. A result whose status number names no outcome is
    /// rejected and counts nowhere.
    pub fn update(&mut self, result: &TestResult) -> (outcome: Result<(), TestStateError>)
        requires
            old(self).has_room(result.status),
        ensures
            match old(self).step(result.status) {
                Ok(next) => outcome is Ok && *final(self) == next,
                Err(error) => outcome == Err::<(), TestStateError>(error) && *final(self) == *old(
                    self,
                ),
            },
    {
        match TestStatus::from_code(result.status) {
            None => {
                return Err(TestStateError::InvalidStatus(result.status));
            },
            Some(TestStatus::Pass) => {
                self.pass = self.pass + 1;
            },
            Some(TestStatus::Fail) => {
                self.fail = self.fail + 1;
            },
            Some(TestStatus::Skip) => {
                self.skipped = self.skipped + 1;
            },
            Some(TestStatus::Omitted) => {
                self.omitted = self.omitted + 1;
            },
            Some(TestStatus::Fatal) => {
                self.fatal = self.fatal + 1;
            },
            Some(TestStatus::Timeout) => {
                self.timeout = self.timeout + 1;
            },
            Some(TestStatus::Unknown) => {
                self.unknown = self.unknown + 1;
            },
            Some(TestStatus::Rerun) => {
                self.rerun = self.rerun + 1;
            },
            Some(TestStatus::ListingSuccess) => {
                self.listing_success = self.listing_success + 1;
            },
            Some(TestStatus::ListingFailed) => {
                self.listing_failed = self.listing_failed + 1;
            },
        }
        Ok(())
    }
}

impl Default for TestState {
    fn default() -> (state: TestState)
        ensures
            state == TestState::empty(),
    {
        TestState::new()
    }
}

} // verus!
