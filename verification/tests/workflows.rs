use jelly_fpga_loader::accel::{LoadFlow, UnloadFlow, UnregisterFlow};
use jelly_fpga_loader::bitdownload::BitdownloadFlow;
use jelly_fpga_loader::convert::ConvertFlow;
use jelly_fpga_loader::errors::{ErrorKind, Failure, Stage};
use jelly_fpga_loader::overlay::OverlayFlow;
use jelly_fpga_loader::protocol::{Action, Event, Step};
use jelly_fpga_loader::register::RegisterFlow;

fn upload(name: &str, local_path: &str) -> Step {
    Step::Do(Action::UploadFile {
        name: name.to_string(),
        local_path: local_path.to_string(),
    })
}

fn remove(name: &str) -> Step {
    Step::Do(Action::Remove {
        name: name.to_string(),
    })
}

fn failed(kind: ErrorKind, stage: Stage) -> Step {
    Step::Failed(Failure { kind, stage })
}

#[test]
fn bitdownload_uploads_loads_and_removes() {
    let mut flow = BitdownloadFlow::new("bits/design.bit".to_string());
    assert_eq!(flow.step(Event::Start), upload("design.bit", "bits/design.bit"));
    assert_eq!(
        flow.step(Event::Uploaded { ok: true }),
        Step::Do(Action::LoadBitstream {
            name: "design.bit".to_string()
        })
    );
    assert_eq!(flow.step(Event::BitstreamLoaded), remove("design.bit"));
    assert_eq!(flow.step(Event::Removed), Step::Done(None));
    assert!(!flow.accepts(&Event::Removed));
}

#[test]
fn bitdownload_rejects_path_without_file_name() {
    let mut flow = BitdownloadFlow::new("some/dir/".to_string());
    assert_eq!(
        flow.step(Event::Start),
        failed(ErrorKind::InvalidPath, Stage::Resolve)
    );
}

#[test]
fn bitdownload_leaves_artifact_on_load_failure() {
    let mut flow = BitdownloadFlow::new("design.bit".to_string());
    flow.step(Event::Start);
    flow.step(Event::Uploaded { ok: true });
    assert_eq!(
        flow.step(Event::Transport),
        failed(ErrorKind::Transport, Stage::Load)
    );
    // The machine halts: no removal of the uploaded artifact is ever asked for.
    assert!(!flow.accepts(&Event::Removed));
}

#[test]
fn overlay_full_run_drains_ledger_in_record_order() {
    let mut flow = OverlayFlow::new(
        "out/design.dtbo".to_string(),
        Some("out/design.bit".to_string()),
        None,
    );
    assert_eq!(flow.step(Event::Start), upload("design.bit", "out/design.bit"));
    assert_eq!(
        flow.step(Event::Uploaded { ok: true }),
        Step::Do(Action::ConvertBitstream {
            source: "design.bit".to_string(),
            target: "design.bit.bin".to_string(),
            platform: "zynqmp".to_string(),
        })
    );
    assert_eq!(flow.step(Event::Converted), upload("design.dtbo", "out/design.dtbo"));
    assert_eq!(
        flow.step(Event::Uploaded { ok: true }),
        Step::Do(Action::LoadOverlay {
            name: "design.dtbo".to_string()
        })
    );
    // Terminal success: every recorded name is removed, in record order.
    assert_eq!(flow.step(Event::OverlayLoaded { ok: true }), remove("design.bit"));
    assert_eq!(flow.step(Event::Removed), remove("design.bit.bin"));
    assert_eq!(flow.step(Event::Removed), remove("design.dtbo"));
    assert_eq!(flow.step(Event::Removed), Step::Done(None));
}

#[test]
fn overlay_failing_load_issues_no_removals() {
    let mut flow = OverlayFlow::new(
        "design.dtbo".to_string(),
        Some("design.bit".to_string()),
        None,
    );
    flow.step(Event::Start);
    flow.step(Event::Uploaded { ok: true });
    flow.step(Event::Converted);
    flow.step(Event::Uploaded { ok: true });
    assert_eq!(
        flow.step(Event::OverlayLoaded { ok: false }),
        failed(ErrorKind::RemoteRejection, Stage::Load)
    );
    // The machine halts without ever asking for a removal.
    assert!(!flow.accepts(&Event::Removed));
}

#[test]
fn overlay_drain_is_best_effort_and_reports_first_failure() {
    let mut flow = OverlayFlow::new(
        "design.dtbo".to_string(),
        Some("design.bit".to_string()),
        None,
    );
    flow.step(Event::Start);
    flow.step(Event::Uploaded { ok: true });
    flow.step(Event::Converted);
    flow.step(Event::Uploaded { ok: true });
    assert_eq!(flow.step(Event::OverlayLoaded { ok: true }), remove("design.bit"));
    // The first removal fails in transport; the drain keeps going.
    assert_eq!(flow.step(Event::Transport), remove("design.bit.bin"));
    assert_eq!(flow.step(Event::Removed), remove("design.dtbo"));
    assert_eq!(
        flow.step(Event::Removed),
        Step::Done(Some(Failure {
            kind: ErrorKind::Transport,
            stage: Stage::Cleanup
        }))
    );
}

#[test]
fn overlay_compiles_dts_source_with_full_name() {
    let mut flow = OverlayFlow::new("tree/overlay.dts".to_string(), None, None);
    assert_eq!(
        flow.step(Event::Start),
        Step::Do(Action::ReadText {
            path: "tree/overlay.dts".to_string()
        })
    );
    assert_eq!(
        flow.step(Event::TextRead {
            text: "/dts-v1/;".to_string()
        }),
        Step::Do(Action::ConvertSource {
            source_text: "/dts-v1/;".to_string()
        })
    );
    assert_eq!(
        flow.step(Event::SourceConverted {
            ok: true,
            content: vec![0xd0, 0x0d, 0xfe, 0xed],
        }),
        Step::Do(Action::UploadBytes {
            name: "overlay.dts.dtbo".to_string(),
            content: vec![0xd0, 0x0d, 0xfe, 0xed],
        })
    );
    assert_eq!(
        flow.step(Event::Uploaded { ok: true }),
        Step::Do(Action::LoadOverlay {
            name: "overlay.dts.dtbo".to_string()
        })
    );
    assert_eq!(
        flow.step(Event::OverlayLoaded { ok: true }),
        remove("overlay.dts.dtbo")
    );
    assert_eq!(flow.step(Event::Removed), Step::Done(None));
}

#[test]
fn overlay_bin_upload_stages_single_image() {
    let mut flow = OverlayFlow::new(
        "design.dtbo".to_string(),
        None,
        Some("img/design.bin".to_string()),
    );
    assert_eq!(flow.step(Event::Start), upload("design.bin", "img/design.bin"));
    assert_eq!(
        flow.step(Event::Uploaded { ok: true }),
        upload("design.dtbo", "design.dtbo")
    );
}

#[test]
fn overlay_rejected_direct_upload_fails() {
    let mut flow = OverlayFlow::new("design.dtbo".to_string(), None, None);
    flow.step(Event::Start);
    assert_eq!(
        flow.step(Event::Uploaded { ok: false }),
        failed(ErrorKind::RemoteRejection, Stage::Upload)
    );
}

#[test]
fn overlay_failed_source_read_aborts() {
    let mut flow = OverlayFlow::new("overlay.dts".to_string(), None, None);
    flow.step(Event::Start);
    assert_eq!(
        flow.step(Event::LocalIoFailed),
        failed(ErrorKind::LocalIo, Stage::ReadLocal)
    );
}

#[test]
fn overlay_rejected_compilation_aborts() {
    let mut flow = OverlayFlow::new("overlay.dts".to_string(), None, None);
    flow.step(Event::Start);
    flow.step(Event::TextRead {
        text: "/dts-v1/;".to_string(),
    });
    assert_eq!(
        flow.step(Event::SourceConverted {
            ok: false,
            content: vec![],
        }),
        failed(ErrorKind::RemoteRejection, Stage::Convert)
    );
}

#[test]
fn register_accel_end_to_end_scenario() {
    let mut flow = RegisterFlow::new(
        "myaccel".to_string(),
        "design.bit".to_string(),
        "overlay.dts".to_string(),
        None,
    );
    assert_eq!(flow.step(Event::Start), upload("design.bit", "design.bit"));
    assert_eq!(
        flow.step(Event::Uploaded { ok: true }),
        Step::Do(Action::ConvertBitstream {
            source: "design.bit".to_string(),
            target: "design.bit.bin".to_string(),
            platform: "zynqmp".to_string(),
        })
    );
    assert_eq!(
        flow.step(Event::Converted),
        Step::Do(Action::ReadText {
            path: "overlay.dts".to_string()
        })
    );
    assert_eq!(
        flow.step(Event::TextRead {
            text: "/dts-v1/;".to_string()
        }),
        Step::Do(Action::ConvertSource {
            source_text: "/dts-v1/;".to_string()
        })
    );
    // The derived overlay name uses the stem: overlay.dtbo, not overlay.dts.dtbo.
    assert_eq!(
        flow.step(Event::SourceConverted {
            ok: true,
            content: vec![1, 2, 3],
        }),
        Step::Do(Action::UploadBytes {
            name: "overlay.dtbo".to_string(),
            content: vec![1, 2, 3],
        })
    );
    assert_eq!(
        flow.step(Event::Uploaded { ok: true }),
        Step::Do(Action::Register {
            accel: "myaccel".to_string(),
            image: "design.bit.bin".to_string(),
            overlay: "overlay.dtbo".to_string(),
            metadata: None,
            cleanup: true,
        })
    );
    assert_eq!(flow.step(Event::Registered), remove("design.bit"));
    assert_eq!(flow.step(Event::Removed), remove("design.bit.bin"));
    assert_eq!(flow.step(Event::Removed), remove("overlay.dtbo"));
    assert_eq!(flow.step(Event::Removed), Step::Done(None));
}

#[test]
fn register_accel_stages_metadata_when_supplied() {
    let mut flow = RegisterFlow::new(
        "acc".to_string(),
        "img.bin".to_string(),
        "over.dtbo".to_string(),
        Some("meta/desc.json".to_string()),
    );
    assert_eq!(flow.step(Event::Start), upload("img.bin", "img.bin"));
    assert_eq!(
        flow.step(Event::Uploaded { ok: true }),
        upload("over.dtbo", "over.dtbo")
    );
    assert_eq!(
        flow.step(Event::Uploaded { ok: true }),
        upload("desc.json", "meta/desc.json")
    );
    assert_eq!(
        flow.step(Event::Uploaded { ok: true }),
        Step::Do(Action::Register {
            accel: "acc".to_string(),
            image: "img.bin".to_string(),
            overlay: "over.dtbo".to_string(),
            metadata: Some("desc.json".to_string()),
            cleanup: true,
        })
    );
    assert_eq!(flow.step(Event::Registered), remove("img.bin"));
    assert_eq!(flow.step(Event::Removed), remove("over.dtbo"));
    assert_eq!(flow.step(Event::Removed), remove("desc.json"));
    assert_eq!(flow.step(Event::Removed), Step::Done(None));
}

#[test]
fn register_accel_cleanup_fails_fast() {
    let mut flow = RegisterFlow::new(
        "myaccel".to_string(),
        "design.bit".to_string(),
        "overlay.dtbo".to_string(),
        None,
    );
    flow.step(Event::Start);
    flow.step(Event::Uploaded { ok: true });
    flow.step(Event::Converted);
    flow.step(Event::Uploaded { ok: true });
    flow.step(Event::Registered);
    // The first removal fails: the workflow aborts instead of going on.
    assert_eq!(
        flow.step(Event::Transport),
        failed(ErrorKind::Transport, Stage::Cleanup)
    );
    assert!(!flow.accepts(&Event::Removed));
}

#[test]
fn register_accel_rejected_bitstream_upload_fails() {
    let mut flow = RegisterFlow::new(
        "a".to_string(),
        "design.bit".to_string(),
        "overlay.dtbo".to_string(),
        None,
    );
    flow.step(Event::Start);
    assert_eq!(
        flow.step(Event::Uploaded { ok: false }),
        failed(ErrorKind::RemoteRejection, Stage::Upload)
    );
}

#[test]
fn register_accel_failure_before_register_skips_cleanup() {
    let mut flow = RegisterFlow::new(
        "a".to_string(),
        "design.bit".to_string(),
        "overlay.dtbo".to_string(),
        None,
    );
    flow.step(Event::Start);
    flow.step(Event::Uploaded { ok: true });
    flow.step(Event::Converted);
    flow.step(Event::Uploaded { ok: true });
    assert_eq!(
        flow.step(Event::Transport),
        failed(ErrorKind::Transport, Stage::Register)
    );
    assert!(!flow.accepts(&Event::Removed));
}

#[test]
fn unregister_issues_single_call() {
    let mut flow = UnregisterFlow::new("myaccel".to_string());
    assert_eq!(
        flow.step(Event::Start),
        Step::Do(Action::Unregister {
            accel: "myaccel".to_string()
        })
    );
    assert_eq!(flow.step(Event::Unregistered), Step::Done(None));
}

#[test]
fn unregister_transport_failure_surfaces() {
    let mut flow = UnregisterFlow::new("myaccel".to_string());
    flow.step(Event::Start);
    assert_eq!(
        flow.step(Event::Transport),
        failed(ErrorKind::Transport, Stage::Unregister)
    );
}

#[test]
fn load_records_slot_on_success() {
    let mut flow = LoadFlow::new("myaccel".to_string());
    assert_eq!(
        flow.step(Event::Start),
        Step::Do(Action::LoadAccel {
            accel: "myaccel".to_string()
        })
    );
    assert_eq!(flow.step(Event::AccelLoaded { ok: true, slot: 3 }), Step::Done(None));
    assert_eq!(flow.loaded_slot, 3);
}

#[test]
fn load_reports_failure_on_false_flag_without_transport_error() {
    let mut flow = LoadFlow::new("myaccel".to_string());
    flow.step(Event::Start);
    assert_eq!(
        flow.step(Event::AccelLoaded { ok: false, slot: 0 }),
        failed(ErrorKind::RemoteRejection, Stage::Load)
    );
}

#[test]
fn unload_defaults_to_slot_zero() {
    let mut flow = UnloadFlow::new(None);
    assert_eq!(
        flow.step(Event::Start),
        Step::Do(Action::UnloadAccel { slot: 0 })
    );
    assert_eq!(flow.step(Event::AccelUnloaded { ok: true }), Step::Done(None));
}

#[test]
fn unload_targets_given_slot_and_surfaces_false_reply() {
    let mut flow = UnloadFlow::new(Some(2));
    assert_eq!(
        flow.step(Event::Start),
        Step::Do(Action::UnloadAccel { slot: 2 })
    );
    assert_eq!(
        flow.step(Event::AccelUnloaded { ok: false }),
        failed(ErrorKind::RemoteRejection, Stage::Unload)
    );
}

#[test]
fn dts2dtbo_writes_returned_bytes_verbatim() {
    let mut flow = ConvertFlow::new("in/top.dts".to_string(), "out/top.dtbo".to_string());
    assert_eq!(
        flow.step(Event::Start),
        Step::Do(Action::ReadText {
            path: "in/top.dts".to_string()
        })
    );
    assert_eq!(
        flow.step(Event::TextRead {
            text: "/dts-v1/;".to_string()
        }),
        Step::Do(Action::ConvertSource {
            source_text: "/dts-v1/;".to_string()
        })
    );
    let compiled = vec![0xd0, 0x0d, 0xfe, 0xed, 0x00, 0x01];
    assert_eq!(
        flow.step(Event::SourceConverted {
            ok: true,
            content: compiled.clone(),
        }),
        Step::Do(Action::WriteBytes {
            path: "out/top.dtbo".to_string(),
            content: compiled,
        })
    );
    assert_eq!(flow.step(Event::Written), Step::Done(None));
}

#[test]
fn dts2dtbo_surfaces_each_failure_kind() {
    let mut read_fail = ConvertFlow::new("a.dts".to_string(), "a.dtbo".to_string());
    read_fail.step(Event::Start);
    assert_eq!(
        read_fail.step(Event::LocalIoFailed),
        failed(ErrorKind::LocalIo, Stage::ReadLocal)
    );

    let mut convert_fail = ConvertFlow::new("a.dts".to_string(), "a.dtbo".to_string());
    convert_fail.step(Event::Start);
    convert_fail.step(Event::TextRead {
        text: "x".to_string(),
    });
    assert_eq!(
        convert_fail.step(Event::SourceConverted {
            ok: false,
            content: vec![],
        }),
        failed(ErrorKind::RemoteRejection, Stage::Convert)
    );

    let mut write_fail = ConvertFlow::new("a.dts".to_string(), "a.dtbo".to_string());
    write_fail.step(Event::Start);
    write_fail.step(Event::TextRead {
        text: "x".to_string(),
    });
    write_fail.step(Event::SourceConverted {
        ok: true,
        content: vec![1],
    });
    assert_eq!(
        write_fail.step(Event::LocalIoFailed),
        failed(ErrorKind::LocalIo, Stage::WriteLocal)
    );
}

#[test]
fn overlay_prefers_bit_over_bin_when_both_given() {
    let mut flow = OverlayFlow::new(
        "design.dtbo".to_string(),
        Some("a.bit".to_string()),
        Some("b.bin".to_string()),
    );
    // The bitstream wins: it is uploaded and then converted remotely.
    assert_eq!(flow.step(Event::Start), upload("a.bit", "a.bit"));
    assert_eq!(
        flow.step(Event::Uploaded { ok: true }),
        Step::Do(Action::ConvertBitstream {
            source: "a.bit".to_string(),
            target: "a.bit.bin".to_string(),
            platform: "zynqmp".to_string(),
        })
    );
}

#[test]
fn bitdownload_rejected_upload_aborts() {
    let mut flow = BitdownloadFlow::new("design.bit".to_string());
    flow.step(Event::Start);
    assert_eq!(
        flow.step(Event::Uploaded { ok: false }),
        failed(ErrorKind::RemoteRejection, Stage::Upload)
    );
    assert!(!flow.accepts(&Event::BitstreamLoaded));
}

#[test]
fn overlay_rejected_bit_upload_aborts() {
    let mut flow = OverlayFlow::new(
        "design.dtbo".to_string(),
        Some("design.bit".to_string()),
        None,
    );
    flow.step(Event::Start);
    assert_eq!(
        flow.step(Event::Uploaded { ok: false }),
        failed(ErrorKind::RemoteRejection, Stage::Upload)
    );
    assert!(!flow.accepts(&Event::Converted));
}

#[test]
fn overlay_rejected_bin_upload_aborts() {
    let mut flow = OverlayFlow::new(
        "design.dtbo".to_string(),
        None,
        Some("design.bin".to_string()),
    );
    flow.step(Event::Start);
    assert_eq!(
        flow.step(Event::Uploaded { ok: false }),
        failed(ErrorKind::RemoteRejection, Stage::Upload)
    );
    assert!(!flow.accepts(&Event::Uploaded { ok: true }));
}

#[test]
fn overlay_rejected_compiled_upload_aborts() {
    let mut flow = OverlayFlow::new("overlay.dts".to_string(), None, None);
    flow.step(Event::Start);
    flow.step(Event::TextRead {
        text: "/dts-v1/;".to_string(),
    });
    flow.step(Event::SourceConverted {
        ok: true,
        content: vec![1, 2],
    });
    assert_eq!(
        flow.step(Event::Uploaded { ok: false }),
        failed(ErrorKind::RemoteRejection, Stage::Upload)
    );
    assert!(!flow.accepts(&Event::OverlayLoaded { ok: true }));
}

#[test]
fn register_rejected_compiled_upload_aborts() {
    let mut flow = RegisterFlow::new(
        "myaccel".to_string(),
        "design.bit".to_string(),
        "overlay.dts".to_string(),
        None,
    );
    flow.step(Event::Start);
    flow.step(Event::Uploaded { ok: true });
    flow.step(Event::Converted);
    flow.step(Event::TextRead {
        text: "/dts-v1/;".to_string(),
    });
    flow.step(Event::SourceConverted {
        ok: true,
        content: vec![1, 2],
    });
    assert_eq!(
        flow.step(Event::Uploaded { ok: false }),
        failed(ErrorKind::RemoteRejection, Stage::Upload)
    );
    // The workflow halts with no register call and no removals.
    assert!(!flow.accepts(&Event::Registered));
    assert!(!flow.accepts(&Event::Removed));
}
