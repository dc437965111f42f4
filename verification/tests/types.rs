use swupdate_ipc::types::{ProgressFields, RecoveryStatus};
use swupdate_ipc::wire::{cstr_from_bytes, RawProgressMsg, RawProgressMsgUnpacked, SWUPDATE_API_VERSION};
use swupdate_ipc::{InstallRequest, ProgressEvent, RunMode, Source, SubprocessCmd, UpdateState};

#[test]
fn install_request_defaults() {
    let req = InstallRequest::new();
    assert_eq!(req.source, Source::Local);
    assert_eq!(req.mode, RunMode::Default);
    assert!(req.store_swu);
}

#[test]
fn install_request_builder() {
    let req = InstallRequest::new()
        .source(Source::Suricatta)
        .mode(RunMode::DryRun)
        .info("test firmware v1.0")
        .software_set("main")
        .len(1024)
        .store_swu(false);

    assert_eq!(req.source, Source::Suricatta);
    assert_eq!(req.mode, RunMode::DryRun);
    assert_eq!(req.info, "test firmware v1.0");
    assert_eq!(req.software_set.as_deref(), Some("main"));
    assert_eq!(req.len, Some(1024));
    assert!(!req.store_swu);
}

#[test]
fn install_request_to_raw_roundtrip() {
    let req = InstallRequest::new().source(Source::Local).info("my firmware");

    let raw = req.to_raw();
    assert_eq!(raw.apiversion, SWUPDATE_API_VERSION);
    assert_eq!(raw.source, Source::Local.to_wire());
    assert_eq!(cstr_from_bytes(&raw.info), "my firmware");
    assert_eq!(raw.disable_store_swu, 0); // store_swu = true → disable = 0
}

#[test]
fn progress_event_terminal() {
    assert!(ProgressEvent::Success.is_terminal());
    assert!(ProgressEvent::Failed("oops".into()).is_terminal());
    assert!(!ProgressEvent::Idle.is_terminal());
    assert!(!ProgressEvent::Started.is_terminal());
}

#[test]
fn source_roundtrip() {
    for src in [
        Source::Unknown,
        Source::Webserver,
        Source::Suricatta,
        Source::Downloader,
        Source::Local,
        Source::ChunksDownloader,
    ] {
        assert_eq!(Source::from_wire(src.to_wire()), src);
    }
}

#[test]
fn update_state_roundtrip() {
    for state in [
        UpdateState::StateOk,
        UpdateState::Installed,
        UpdateState::Testing,
        UpdateState::Failed,
        UpdateState::NotAvailable,
        UpdateState::Error,
        UpdateState::Wait,
        UpdateState::InProgress,
    ] {
        assert_eq!(UpdateState::from_wire(state.to_wire()), Some(state));
    }
}

// ---------------------------------------------------------------------------

#[test]
fn wire_codes() {
    assert_eq!(Source::Webserver.to_wire(), 1);
    assert_eq!(Source::from_wire(42), Source::Unknown);
    assert_eq!(Source::from_wire(-1), Source::Unknown);
    assert_eq!(RunMode::Default.to_wire(), 0);
    assert_eq!(RunMode::DryRun.to_wire(), 1);
    assert_eq!(RunMode::Install.to_wire(), 2);
    assert_eq!(UpdateState::StateOk.to_wire(), b'0' as i32);
    assert_eq!(UpdateState::InProgress.to_wire(), b'7' as i32);
    assert_eq!(UpdateState::from_wire(b'8' as i32), None);
    assert_eq!(UpdateState::from_wire(0), None);
    assert_eq!(SubprocessCmd::Activation.to_wire(), 0);
    assert_eq!(SubprocessCmd::SetDownloadUrl.to_wire(), 4);
    assert_eq!(RecoveryStatus::from_wire(8), Some(RecoveryStatus::Progress));
    assert_eq!(RecoveryStatus::from_wire(9), None);
    assert_eq!(RecoveryStatus::from_wire(-1), None);
}

#[test]
fn to_raw_all_fields() {
    let req = InstallRequest::new()
        .source(Source::Webserver)
        .mode(RunMode::Install)
        .info("fw")
        .software_set("stable")
        .running_mode("copy1")
        .len(1 << 40)
        .store_swu(false);
    let raw = req.to_raw();
    assert_eq!(raw.source, 1);
    assert_eq!(raw.dry_run, 2);
    assert_eq!(raw.len, 1 << 40);
    assert_eq!(cstr_from_bytes(&raw.software_set), "stable");
    assert_eq!(cstr_from_bytes(&raw.running_mode), "copy1");
    assert_eq!(raw.disable_store_swu, 1);

    let plain = InstallRequest::new().to_raw();
    assert_eq!(plain.len, 0);
    assert_eq!(plain.software_set, [0u8; 256]);
    assert_eq!(plain.info, [0u8; 512]);
}

#[test]
fn to_raw_truncates_long_info() {
    let long = "x".repeat(600);
    let raw = InstallRequest::new().info(&long).to_raw();
    assert_eq!(cstr_from_bytes(&raw.info).len(), 511);
    assert_eq!(raw.info[511], 0);
}

fn packed_with_status(status: u32) -> RawProgressMsg {
    let mut m = RawProgressMsg::new_zeroed();
    m.status = status;
    m.dwl_percent = 40;
    m.dwl_bytes = 5000;
    m.nsteps = 3;
    m.cur_step = 2;
    m.cur_percent = 66;
    m.cur_image[..7].copy_from_slice(b"rootfs\0");
    m.hnd_name[..3].copy_from_slice(b"raw");
    m.info[..6].copy_from_slice(b"broken");
    m.infolen = 6;
    m
}

#[test]
fn progress_event_from_each_status() {
    assert_eq!(ProgressEvent::from_raw(&packed_with_status(0)), ProgressEvent::Idle);
    assert_eq!(ProgressEvent::from_raw(&packed_with_status(1)), ProgressEvent::Started);
    assert_eq!(
        ProgressEvent::from_raw(&packed_with_status(5)),
        ProgressEvent::Downloading { percent: 40, bytes_total: 5000 }
    );
    let installing = ProgressEvent::Installing {
        step: 2,
        total_steps: 3,
        percent: 66,
        image: "rootfs".to_string(),
        handler: "raw".to_string(),
    };
    for s in [2, 7, 8] {
        assert_eq!(ProgressEvent::from_raw(&packed_with_status(s)), installing);
    }
    assert_eq!(ProgressEvent::from_raw(&packed_with_status(3)), ProgressEvent::Success);
    assert_eq!(ProgressEvent::from_raw(&packed_with_status(6)), ProgressEvent::Success);
    assert_eq!(
        ProgressEvent::from_raw(&packed_with_status(4)),
        ProgressEvent::Failed("broken".to_string())
    );
    assert_eq!(
        ProgressEvent::from_raw(&packed_with_status(4294967295)),
        ProgressEvent::Failed("unknown status: 4294967295".to_string())
    );
    assert_eq!(
        ProgressEvent::from_raw(&packed_with_status(9)),
        ProgressEvent::Failed("unknown status: 9".to_string())
    );
}

#[test]
fn progress_info_is_cut_at_infolen() {
    let mut m = packed_with_status(4);
    m.infolen = 3;
    assert_eq!(ProgressEvent::from_raw(&m), ProgressEvent::Failed("bro".to_string()));
    m.infolen = 100_000;
    assert_eq!(ProgressEvent::from_raw(&m), ProgressEvent::Failed("broken".to_string()));
}

#[test]
fn progress_fields_unpacked() {
    let mut m = RawProgressMsgUnpacked::new_zeroed();
    m.status = 5;
    m.dwl_percent = 7;
    m.dwl_bytes = 1 << 33;
    m.info[..2].copy_from_slice(b"hi");
    m.infolen = 2;
    let f = ProgressFields::from_unpacked(&m);
    assert_eq!(f.info, "hi");
    assert_eq!(f.dwl_bytes, 1 << 33);
    assert_eq!(
        ProgressEvent::from_raw_unpacked(&m),
        ProgressEvent::Downloading { percent: 7, bytes_total: 1 << 33 }
    );
}

#[test]
fn progress_log_lines() {
    assert_eq!(ProgressEvent::Started.describe().as_deref(), Some("Started"));
    assert_eq!(
        ProgressEvent::Downloading { percent: 42, bytes_total: 1024 }.describe().as_deref(),
        Some("Downloading: 42% (1024 bytes total)")
    );
    assert_eq!(
        ProgressEvent::Installing {
            step: 1,
            total_steps: 3,
            percent: 50,
            image: "rootfs.img".into(),
            handler: "raw".into()
        }
        .describe()
        .as_deref(),
        Some("Installing [raw] rootfs.img: step 1/3 (50%)")
    );
    assert_eq!(ProgressEvent::Success.describe().as_deref(), Some("Success"));
    assert_eq!(ProgressEvent::Failed("x".into()).describe().as_deref(), Some("Failed: x"));
    assert_eq!(ProgressEvent::Idle.describe(), None);
}

#[test]
fn signed_decimal_extremes() {
    let mut s = String::from("v=");
    swupdate_ipc::text::push_signed_decimal(&mut s, i64::MIN);
    assert_eq!(s, "v=-9223372036854775808");
    let mut t = String::new();
    swupdate_ipc::text::push_signed_decimal(&mut t, i64::MAX);
    assert_eq!(t, "9223372036854775807");
}
