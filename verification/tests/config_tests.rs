use zpl::config::{LabelVirtualization, PrinterConnectionSettings};

#[test]
fn physical_and_drop_jobs_keep_a_connection() {
    assert!(LabelVirtualization::Physical.is_connnected());
    assert!(LabelVirtualization::DropJobs {
        persist: None,
        wait_time_ms: 200,
    }
    .is_connnected());
    assert!(!LabelVirtualization::ZplOnly {
        dpmm: None,
        persist: None,
        wait_time_ms: 200,
    }
    .is_connnected());
    assert!(matches!(
        LabelVirtualization::default(),
        LabelVirtualization::Physical
    ));
}

#[test]
fn connection_settings_defaults() {
    let settings = PrinterConnectionSettings::default();
    assert_eq!(settings.retry_fail_ms, 1_000);
    assert_eq!(settings.status_report_interval_ms, 10_000);
    assert_eq!(settings.disinterest_probe_interval_ms, 60_000);
    assert_eq!(settings.connect_timeout_ms, 1_000);
    assert_eq!(settings.idle_timeout_ms, 60_000);
}
