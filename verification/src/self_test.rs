//! Power-on self-test report.
use vstd::prelude::*;

verus! {

/// What the unit tests of itself before it starts.
#[derive(Clone, Copy, Debug, PartialEq, Eq, Structural)]
pub enum SelfTestItem {
    Heap,
    Lcd,
    Codec,
    Wifi,
    EspNow,
    Watch,
}

/// How a test stands.
#[derive(Clone, Copy, Debug, PartialEq, Eq)]
pub enum SelfTestStatus {
    /// Not run yet.
    Pending,
    Passed,
    /// Failed, for this reason.
    Fail(&'static str),
}

/// The standing of every test.
#[derive(Clone, Copy, Debug, PartialEq, Eq)]
pub struct SelfTestReport {
    heap: SelfTestStatus,
    lcd: SelfTestStatus,
    codec: SelfTestStatus,
    wifi: SelfTestStatus,
    esp_now: SelfTestStatus,
    watch: SelfTestStatus,
}

/// A standing for each test.
pub type Standings = Map<SelfTestItem, SelfTestStatus>;

/// Every test still to run.
pub open spec fn all_pending() -> Standings {
    Map::new(|item: SelfTestItem| true, |item: SelfTestItem| SelfTestStatus::Pending)
}

/// Whether some test has failed.
pub open spec fn some_failed(standings: Standings) -> bool {
    exists|item: SelfTestItem| #[trigger] standings[item] is Fail
}

impl View for SelfTestReport {
    type V = Standings;

    closed spec fn view(&self) -> Standings {
        Map::new(|item: SelfTestItem| true, |item: SelfTestItem| self.at(item))
    }
}

impl SelfTestReport {
    spec fn at(self, item: SelfTestItem) -> SelfTestStatus {
        match item {
            SelfTestItem::Heap => self.heap,
            SelfTestItem::Lcd => self.lcd,
            SelfTestItem::Codec => self.codec,
            SelfTestItem::Wifi => self.wifi,
            SelfTestItem::EspNow => self.esp_now,
            SelfTestItem::Watch => self.watch,
        }
    }

    /// A report with every test still to run.
    pub fn new() -> (report: SelfTestReport)
        ensures
            report@ == all_pending(),
    {
        SelfTestReport {
            heap: SelfTestStatus::Pending,
            lcd: SelfTestStatus::Pending,
            codec: SelfTestStatus::Pending,
            wifi: SelfTestStatus::Pending,
            esp_now: SelfTestStatus::Pending,
            watch: SelfTestStatus::Pending,
        }
    }

    /// How the test of `item` stands.
    pub fn status(&self, item: SelfTestItem) -> (status: SelfTestStatus)
        ensures
            status == self@[item],
    {
        match item {
            SelfTestItem::Heap => self.heap,
            SelfTestItem::Lcd => self.lcd,
            SelfTestItem::Codec => self.codec,
            SelfTestItem::Wifi => self.wifi,
            SelfTestItem::EspNow => self.esp_now,
            SelfTestItem::Watch => self.watch,
        }
    }

    /// Enters the standing of one test; the others stay as they are.
    pub fn mark(&mut self, item: SelfTestItem, status: SelfTestStatus)
        ensures
            final(self)@ == old(self)@.insert(item, status),
    {
        match item {
            SelfTestItem::Heap => self.heap = status,
            SelfTestItem::Lcd => self.lcd = status,
            SelfTestItem::Codec => self.codec = status,
            SelfTestItem::Wifi => self.wifi = status,
            SelfTestItem::EspNow => self.esp_now = status,
            SelfTestItem::Watch => self.watch = status,
        }
    }

    /// Whether some test has failed.
    pub fn any_fail(&self) -> (failed: bool)
        ensures
            failed == some_failed(self@),
    {
        let failed: bool = self.heap.is_fail() || self.lcd.is_fail() || self.codec.is_fail()
            || self.wifi.is_fail() || self.esp_now.is_fail() || self.watch.is_fail();
        proof {
            assert(self@[SelfTestItem::Heap] == self.heap);
            assert(self@[SelfTestItem::Lcd] == self.lcd);
            assert(self@[SelfTestItem::Codec] == self.codec);
            assert(self@[SelfTestItem::Wifi] == self.wifi);
            assert(self@[SelfTestItem::EspNow] == self.esp_now);
            assert(self@[SelfTestItem::Watch] == self.watch);
        }
        failed
    }
}

impl SelfTestStatus {
    /// Whether the test has failed.
    pub fn is_fail(&self) -> (failed: bool)
        ensures
            failed == (self is Fail),
    {
        match self {
            SelfTestStatus::Fail(_) => true,
            _ => false,
        }
    }
}

} // verus!
