use grim_rust::ewfargs::{CompressionType, EwfFormat, ExaminerForm, NumSectors, TargetForm};
use grim_rust::json_tree::JsonNumber;
use grim_rust::sysinfo::HdInfo;
use grim_rust::wizard::{Stage, Wizard};

fn some(s: &str) -> Option<String> {
    Some(s.to_string())
}

fn disk() -> HdInfo {
    HdInfo {
        product: "WDC".to_string(),
        logical_name: "/dev/sda".to_string(),
        size: JsonNumber { positive: true, mantissa: 500107862016, exponent: 0 },
        units: "bytes".to_string(),
        serial: "ABC123".to_string(),
    }
}

fn examiner() -> ExaminerForm {
    ExaminerForm {
        examiner_name: some("Ann"),
        case_number: some("CASE-1"),
        evidence_number: some("EV-1"),
        description: some("laptop"),
        notes: None,
    }
}

fn target() -> TargetForm {
    TargetForm {
        target_filename: some("image"),
        target_dir: some("/mnt/evidence"),
        two_copies: false,
        secondary_target_dir: None,
        ewf_format: EwfFormat::Encase6,
        compression_type: CompressionType::Best,
        sha1: false,
        sha256: true,
        segment: false,
        segment_file_size: None,
    }
}

#[test]
fn wizard_walks_every_stage_in_order() {
    let mut w = Wizard::new();
    assert_eq!(w.stage, Stage::SourceSelection);
    w.record_host_serial("HOST-9".to_string());
    w.choose_source(&disk());
    assert_eq!(w.stage, Stage::ExaminerInfo);
    assert_eq!(w.args.source_device, some("/dev/sda"));
    assert_eq!(w.info.drive_product, some("WDC"));
    assert_eq!(w.info.drive_serial, some("ABC123"));
    assert_eq!(w.info.host_serial, some("HOST-9"));
    w.submit_examiner(examiner()).unwrap();
    assert_eq!(w.stage, Stage::TargetInfo);
    w.submit_target(target(), None).unwrap();
    assert_eq!(w.stage, Stage::TechnicalOptions);
    assert!(!w.is_ready());
    w.submit_technical("512", NumSectors::Sectors64).unwrap();
    assert_eq!(w.stage, Stage::Ready);
    assert!(w.is_ready());
    assert_eq!(w.args.bytes_per_sector, Some(512));
}

#[test]
fn wizard_stays_on_a_failing_stage() {
    let mut w = Wizard::new();
    w.choose_source(&disk());
    let mut f = examiner();
    f.examiner_name = some("");
    assert!(w.submit_examiner(f).is_err());
    assert_eq!(w.stage, Stage::ExaminerInfo);
    assert!(w.args.case_number.is_none());
}

#[test]
fn wizard_goes_back_without_checking() {
    let mut w = Wizard::new();
    w.choose_source(&disk());
    w.submit_examiner(examiner()).unwrap();
    w.back();
    assert_eq!(w.stage, Stage::ExaminerInfo);
    assert_eq!(w.args.examiner_name, some("Ann"));
    w.back();
    assert_eq!(w.stage, Stage::SourceSelection);
    w.back();
    assert_eq!(w.stage, Stage::SourceSelection);
}
