//! The start of the unit: test after test, then either on or to a halt.
use vstd::prelude::*;

use crate::self_test::{
    all_pending, some_failed, SelfTestItem, SelfTestReport, SelfTestStatus, Standings,
};

verus! {

/// How long a finished test stays on the screen before the next one starts.
pub const STEP_PAUSE_MS: u64 = 120;

/// How long the finished report stays on the screen when all is well.
pub const ALL_OK_PAUSE_MS: u64 = 600;

/// How long a view stays on the screen before it is drawn again unasked.
pub const REDRAW_MS: u64 = 500;

/// How far the start has come.
#[derive(Clone, Copy, Debug, PartialEq, Eq, Structural)]
pub enum BootStage {
    /// This test is next.
    Testing(SelfTestItem),
    /// Some test failed: the report stays on the screen for good.
    Halted,
    /// All tests passed: the receiver runs.
    Running,
}

impl BootStage {
    /// The stage after test `item` has ended, with the standings as they are then.
    ///
    /// The tests run in a fixed order. Without the radio there is nothing to go on
    /// with, so its failure halts at once; any other failure lets the remaining
    /// tests run first.
    pub open spec fn following(item: SelfTestItem, standings: Standings) -> BootStage {
        match item {
            SelfTestItem::Heap => BootStage::Testing(SelfTestItem::Lcd),
            SelfTestItem::Lcd => BootStage::Testing(SelfTestItem::Codec),
            SelfTestItem::Codec => BootStage::Testing(SelfTestItem::Wifi),
            SelfTestItem::Wifi => if standings[SelfTestItem::Wifi] is Fail {
                BootStage::Halted
            } else {
                BootStage::Testing(SelfTestItem::EspNow)
            },
            SelfTestItem::EspNow => BootStage::Testing(SelfTestItem::Watch),
            SelfTestItem::Watch => if some_failed(standings) {
                BootStage::Halted
            } else {
                BootStage::Running
            },
        }
    }
}

/// What a [`Boot`] stands for.
pub struct BootState {
    pub standings: Standings,
    pub stage: BootStage,
}

impl BootState {
    /// Nothing tested yet.
    pub open spec fn initial() -> BootState {
        BootState { standings: all_pending(), stage: BootStage::Testing(SelfTestItem::Heap) }
    }

    /// The state after the test that was next has ended with `status`. Once halted
    /// or running, nothing changes any more.
    pub open spec fn after(self, status: SelfTestStatus) -> BootState {
        match self.stage {
            BootStage::Testing(item) => {
                let standings = self.standings.insert(item, status);
                BootState { standings, stage: BootStage::following(item, standings) }
            },
            _ => self,
        }
    }
}

/// The start of the unit.
pub struct Boot {
    report: SelfTestReport,
    stage: BootStage,
}

impl View for Boot {
    type V = BootState;

    closed spec fn view(&self) -> BootState {
        BootState { standings: self.report@, stage: self.stage }
    }
}

impl Boot {
    /// The start, with nothing tested yet.
    pub fn new() -> (boot: Boot)
        ensures
            boot@ == BootState::initial(),
    {
        Boot { report: SelfTestReport::new(), stage: BootStage::Testing(SelfTestItem::Heap) }
    }

    /// The report to draw.
    pub fn report(&self) -> (report: &SelfTestReport)
        ensures
            report@ == self@.standings,
    {
        &self.report
    }

    /// How far the start has come.
    pub fn stage(&self) -> (stage: BootStage)
        ensures
            stage == self@.stage,
    {
        self.stage
    }

    /// Enters the result of the test that was next and says how to go on.
    pub fn finish(&mut self, status: SelfTestStatus) -> (stage: BootStage)
        ensures
            final(self)@ == old(self)@.after(status),
            stage == final(self)@.stage,
    {
        if let BootStage::Testing(item) = self.stage {
            self.report.mark(item, status);
            self.stage = match item {
                SelfTestItem::Heap => BootStage::Testing(SelfTestItem::Lcd),
                SelfTestItem::Lcd => BootStage::Testing(SelfTestItem::Codec),
                SelfTestItem::Codec => BootStage::Testing(SelfTestItem::Wifi),
                SelfTestItem::Wifi => {
                    if status.is_fail() {
                        BootStage::Halted
                    } else {
                        BootStage::Testing(SelfTestItem::EspNow)
                    }
                },
                SelfTestItem::EspNow => BootStage::Testing(SelfTestItem::Watch),
                SelfTestItem::Watch => {
                    if self.report.any_fail() {
                        BootStage::Halted
                    } else {
                        BootStage::Running
                    }
                },
            };
        }
        self.stage
    }
}

/// Standing of the radio test: whether the radio came up.
pub fn wifi_status(up: bool) -> (status: SelfTestStatus)
    ensures
        up ==> status == SelfTestStatus::Passed,
        !up ==> status == SelfTestStatus::Fail("init err"),
{
    if up {
        SelfTestStatus::Passed
    } else {
        SelfTestStatus::Fail("init err")
    }
}

/// Standing of the channel test: whether the channel had a free consumer slot.
pub fn watch_status(free_slot: bool) -> (status: SelfTestStatus)
    ensures
        free_slot ==> status == SelfTestStatus::Passed,
        !free_slot ==> status == SelfTestStatus::Fail("no slot"),
{
    if free_slot {
        SelfTestStatus::Passed
    } else {
        SelfTestStatus::Fail("no slot")
    }
}

} // verus!
