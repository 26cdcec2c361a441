use c6::boot::{
    watch_status, wifi_status, Boot, BootStage, ALL_OK_PAUSE_MS, REDRAW_MS, STEP_PAUSE_MS,
};
use c6::self_test::{SelfTestItem, SelfTestReport, SelfTestStatus};

const ORDER: [SelfTestItem; 6] = [
    SelfTestItem::Heap,
    SelfTestItem::Lcd,
    SelfTestItem::Codec,
    SelfTestItem::Wifi,
    SelfTestItem::EspNow,
    SelfTestItem::Watch,
];

#[test]
fn pauses() {
    assert_eq!((STEP_PAUSE_MS, ALL_OK_PAUSE_MS, REDRAW_MS), (120, 600, 500));
}

#[test]
fn a_new_report_is_pending() {
    let report = SelfTestReport::new();
    for item in ORDER {
        assert_eq!(report.status(item), SelfTestStatus::Pending);
    }
    assert!(!report.any_fail());
}

#[test]
fn a_mark_touches_one_item() {
    for item in ORDER {
        let mut report = SelfTestReport::new();
        report.mark(item, SelfTestStatus::Fail("x"));
        assert!(report.any_fail());
        for other in ORDER {
            let expected =
                if other == item { SelfTestStatus::Fail("x") } else { SelfTestStatus::Pending };
            assert_eq!(report.status(other), expected);
        }
        report.mark(item, SelfTestStatus::Passed);
        assert!(!report.any_fail());
        assert_eq!(report.status(item), SelfTestStatus::Passed);
    }
}

#[test]
fn statuses_of_radio_and_channel() {
    assert_eq!(wifi_status(true), SelfTestStatus::Passed);
    assert_eq!(wifi_status(false), SelfTestStatus::Fail("init err"));
    assert_eq!(watch_status(true), SelfTestStatus::Passed);
    assert_eq!(watch_status(false), SelfTestStatus::Fail("no slot"));
    assert!(wifi_status(false).is_fail());
    assert!(!SelfTestStatus::Pending.is_fail());
}

#[test]
fn all_tests_pass_and_the_unit_runs() {
    let mut boot = Boot::new();
    for item in ORDER {
        assert_eq!(boot.stage(), BootStage::Testing(item));
        boot.finish(SelfTestStatus::Passed);
        assert_eq!(boot.report().status(item), SelfTestStatus::Passed);
    }
    assert_eq!(boot.stage(), BootStage::Running);
    assert_eq!(boot.finish(SelfTestStatus::Fail("late")), BootStage::Running);
    assert!(!boot.report().any_fail());
}

#[test]
fn a_failed_test_halts_after_the_last_one() {
    for failing in 0..6 {
        if failing == 3 {
            continue;
        }
        let mut boot = Boot::new();
        for i in 0..6 {
            assert_eq!(boot.stage(), BootStage::Testing(ORDER[i]));
            boot.finish(if i == failing {
                SelfTestStatus::Fail("bad")
            } else {
                SelfTestStatus::Passed
            });
        }
        assert_eq!(boot.stage(), BootStage::Halted);
        assert_eq!(boot.report().status(ORDER[failing]), SelfTestStatus::Fail("bad"));
    }
}

#[test]
fn without_radio_the_unit_halts_at_once() {
    let mut boot = Boot::new();
    for _ in 0..3 {
        boot.finish(SelfTestStatus::Passed);
    }
    assert_eq!(boot.finish(wifi_status(false)), BootStage::Halted);
    assert_eq!(boot.report().status(SelfTestItem::Wifi), SelfTestStatus::Fail("init err"));
    assert_eq!(boot.report().status(SelfTestItem::EspNow), SelfTestStatus::Pending);
    assert_eq!(boot.finish(SelfTestStatus::Passed), BootStage::Halted);
    assert_eq!(boot.report().status(SelfTestItem::EspNow), SelfTestStatus::Pending);
}
