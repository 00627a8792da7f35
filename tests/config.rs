use convert_byte_size_string::convert_to_bytes;
use grim_rust::ewfargs::{
    accept_optional, require_field, ArgsList, CompressionType, Digest, DigestType, EwfFormat,
    ExaminerForm, FieldError, NumSectors, TargetForm,
};
use grim_rust::LoggingInfo;

fn some(s: &str) -> Option<String> {
    Some(s.to_string())
}

fn examiner_form(name: &str, case: &str, evidence: &str) -> ExaminerForm {
    ExaminerForm {
        examiner_name: some(name),
        case_number: some(case),
        evidence_number: some(evidence),
        description: None,
        notes: some("seized at desk"),
    }
}

fn target_form() -> TargetForm {
    TargetForm {
        target_filename: some("image"),
        target_dir: some("/mnt/evidence"),
        two_copies: false,
        secondary_target_dir: None,
        ewf_format: EwfFormat::Encase5,
        compression_type: CompressionType::Fast,
        sha1: true,
        sha256: false,
        segment: false,
        segment_file_size: None,
    }
}

fn blank_field(e: &FieldError) -> String {
    match e {
        FieldError::Blank { field } => field.clone(),
        _ => panic!("not a blank-field error"),
    }
}

#[test]
fn new_args_hold_the_defaults() {
    let a = ArgsList::new();
    assert!(a.source_device.is_none());
    assert_eq!(a.num_sectors, NumSectors::Sectors64);
    assert_eq!(a.compression_type, CompressionType::NoCompression);
    assert_eq!(a.ewf_format, EwfFormat::Encase6);
    assert!(a.digest_type.contains(Digest::Md5));
    assert!(!a.digest_type.contains(Digest::Sha1));
    assert!(!a.digest_type.contains(Digest::Sha256));
    assert!(a.examiner_name.is_none() && a.case_number.is_none() && a.evidence_number.is_none());
    assert!(a.description.is_none() && a.notes.is_none() && a.bytes_per_sector.is_none());
    assert!(a.segment_file_size.is_none() && a.target_dir.is_none());
    assert!(a.secondary_target_dir.is_none() && a.target_filename.is_none());
    let d = ArgsList::default();
    assert_eq!(d.ewf_format, EwfFormat::Encase6);
}

#[test]
fn enum_defaults_and_values() {
    assert_eq!(NumSectors::default(), NumSectors::Sectors64);
    assert_eq!(CompressionType::default(), CompressionType::NoCompression);
    assert_eq!(EwfFormat::default(), EwfFormat::Encase6);
    assert_eq!(NumSectors::Sectors16.count(), 16);
    assert_eq!(NumSectors::Sectors64.count(), 64);
    assert_eq!(NumSectors::Sectors32768.count(), 32768);
    assert_eq!(EwfFormat::FTK.index(), 0);
    assert_eq!(EwfFormat::Encase6.index(), 5);
    assert_eq!(EwfFormat::EwfX.index(), 10);
    assert_eq!(CompressionType::Best.index(), 3);
}

#[test]
fn logging_info_starts_empty() {
    let i = LoggingInfo::new();
    assert!(i.host_serial.is_none() && i.drive_serial.is_none() && i.drive_product.is_none());
}

#[test]
fn required_field_refuses_none_and_empty_alike() {
    let a = require_field("Case Number", None).unwrap_err();
    let b = require_field("Case Number", some("")).unwrap_err();
    assert_eq!(a, b);
    assert_eq!(blank_field(&a), "Case Number");
    assert_eq!(a.message(), "Case Number is required.");
    assert_eq!(require_field("Case Number", some("C-7")).unwrap(), "C-7");
}

#[test]
fn optional_field_takes_none_and_empty_as_empty_text() {
    assert_eq!(accept_optional(None), "");
    assert_eq!(accept_optional(some("")), "");
    assert_eq!(accept_optional(some("note")), "note");
}

#[test]
fn error_messages() {
    let size = FieldError::InvalidSize { text: "abc".to_string() };
    assert_eq!(size.message(), "Invalid value for segment size");
    let num = FieldError::InvalidNumber { field: "Bytes per sector".to_string() };
    assert_eq!(num.message(), "Invalid value for Bytes per sector");
}

#[test]
fn digest_request_keeps_md5() {
    let mut a = ArgsList::new();
    a.set_digest(DigestType::requested(false, false));
    assert!(a.digest_type.contains(Digest::Md5));
    assert!(!a.digest_type.contains(Digest::Sha1));
    a.set_digest(DigestType::requested(false, true));
    assert!(a.digest_type.contains(Digest::Md5));
    assert!(a.digest_type.contains(Digest::Sha256));
    assert!(!a.digest_type.contains(Digest::Sha1));
}

#[test]
fn digest_set_operations() {
    let mut d = DigestType::md5();
    d.insert(Digest::Sha1);
    assert!(d.contains(Digest::Sha1) && d.contains(Digest::Md5) && !d.contains(Digest::Sha256));
    let u = d.union(DigestType::requested(false, true));
    assert!(u.contains(Digest::Sha1) && u.contains(Digest::Sha256) && u.contains(Digest::Md5));
    assert_eq!(DigestType::default(), DigestType::md5());
}

#[test]
fn segment_size_that_is_no_size_is_refused() {
    let mut a = ArgsList::new();
    let r = a.set_segment_size(some("abc"), true, convert_to_bytes("abc").ok());
    assert_eq!(r, Err(FieldError::InvalidSize { text: "abc".to_string() }));
    assert!(a.segment_file_size.is_none());
}

#[test]
fn segment_size_switched_off_clears_the_field() {
    let mut a = ArgsList::new();
    a.set_segment_size(some("10 GB"), true, convert_to_bytes("10 GB").ok()).unwrap();
    assert_eq!(a.segment_file_size, some("10 GB"));
    assert_eq!(a.set_segment_size(None, false, None), Ok(()));
    assert!(a.segment_file_size.is_none());

    a.set_segment_size(some("2 MiB"), true, convert_to_bytes("2 MiB").ok()).unwrap();
    assert_eq!(a.set_segment_size(some("10 GB"), false, convert_to_bytes("10 GB").ok()), Ok(()));
    assert!(a.segment_file_size.is_none());
}

#[test]
fn segment_size_switched_on_must_be_filled_in() {
    let mut a = ArgsList::new();
    a.set_segment_size(some("1 KB"), true, convert_to_bytes("1 KB").ok()).unwrap();
    let e = a.set_segment_size(some(""), true, None).unwrap_err();
    assert_eq!(blank_field(&e), "Segment size");
    assert_eq!(a.segment_file_size, some("1 KB"));
}

#[test]
fn secondary_target_follows_its_switch() {
    let mut a = ArgsList::new();
    let e = a.set_secondary_target(None, true).unwrap_err();
    assert_eq!(blank_field(&e), "Secondary target directory");
    a.set_secondary_target(some("/mnt/copy"), true).unwrap();
    assert_eq!(a.secondary_target_dir, some("/mnt/copy"));
    a.set_secondary_target(some("/mnt/other"), false).unwrap();
    assert!(a.secondary_target_dir.is_none());
}

#[test]
fn examiner_stage_with_blank_name_commits_nothing() {
    let mut a = ArgsList::new();
    let e = a.examiner_stage(examiner_form("", "CASE-1", "EV-1")).unwrap_err();
    assert_eq!(e.message(), "Examiner Name is required.");
    assert!(a.case_number.is_none());
    assert!(a.evidence_number.is_none());
    assert!(a.examiner_name.is_none());
    assert!(a.notes.is_none());
}

#[test]
fn examiner_stage_reports_first_blank_field() {
    let mut a = ArgsList::new();
    let e = a.examiner_stage(examiner_form("Ann", "CASE-1", "")).unwrap_err();
    assert_eq!(blank_field(&e), "Evidence Number");
    assert!(a.examiner_name.is_none());
    let e = a.examiner_stage(examiner_form("Ann", "", "")).unwrap_err();
    assert_eq!(blank_field(&e), "Case Number");
}

#[test]
fn examiner_stage_commits_every_field() {
    let mut a = ArgsList::new();
    a.examiner_stage(examiner_form("Ann", "CASE-1", "EV-1")).unwrap();
    assert_eq!(a.examiner_name, some("Ann"));
    assert_eq!(a.case_number, some("CASE-1"));
    assert_eq!(a.evidence_number, some("EV-1"));
    assert_eq!(a.description, some(""));
    assert_eq!(a.notes, some("seized at desk"));
}

#[test]
fn target_stage_commits_the_form() {
    let mut a = ArgsList::new();
    a.target_stage(target_form(), None).unwrap();
    assert_eq!(a.target_filename, some("image"));
    assert_eq!(a.target_dir, some("/mnt/evidence"));
    assert!(a.secondary_target_dir.is_none());
    assert!(a.segment_file_size.is_none());
    assert_eq!(a.ewf_format, EwfFormat::Encase5);
    assert_eq!(a.compression_type, CompressionType::Fast);
    assert!(a.digest_type.contains(Digest::Md5) && a.digest_type.contains(Digest::Sha1));
    assert!(!a.digest_type.contains(Digest::Sha256));
}

#[test]
fn target_stage_refusals_leave_args_alone() {
    let mut a = ArgsList::new();
    let mut f = target_form();
    f.target_filename = None;
    assert_eq!(blank_field(&a.target_stage(f, None).unwrap_err()), "Filename");
    let mut f = target_form();
    f.target_dir = some("");
    assert_eq!(blank_field(&a.target_stage(f, None).unwrap_err()), "Target directory");
    let mut f = target_form();
    f.two_copies = true;
    assert_eq!(blank_field(&a.target_stage(f, None).unwrap_err()), "Secondary target directory");
    let mut f = target_form();
    f.segment = true;
    f.segment_file_size = some("lots");
    let parsed = convert_to_bytes("lots").ok();
    assert_eq!(a.target_stage(f, parsed), Err(FieldError::InvalidSize { text: "lots".to_string() }));
    assert!(a.target_filename.is_none());
    assert_eq!(a.ewf_format, EwfFormat::Encase6);
    assert!(!a.digest_type.contains(Digest::Sha1));
}

#[test]
fn target_stage_keeps_switched_on_extras() {
    let mut a = ArgsList::new();
    let mut f = target_form();
    f.two_copies = true;
    f.secondary_target_dir = some("/mnt/copy");
    f.segment = true;
    f.segment_file_size = some("4 GiB");
    let parsed = convert_to_bytes("4 GiB").ok();
    assert_eq!(parsed, Some(4 * 1024 * 1024 * 1024));
    a.target_stage(f, parsed).unwrap();
    assert_eq!(a.secondary_target_dir, some("/mnt/copy"));
    assert_eq!(a.segment_file_size, some("4 GiB"));
}

#[test]
fn technical_stage_reads_bytes_per_sector() {
    let mut a = ArgsList::new();
    a.technical_stage_text("512", NumSectors::Sectors128).unwrap();
    assert_eq!(a.bytes_per_sector, Some(512));
    assert_eq!(a.num_sectors, NumSectors::Sectors128);
    let e = a.technical_stage_text("", NumSectors::Sectors16).unwrap_err();
    assert_eq!(e.message(), "Invalid value for Bytes per sector");
    assert!(a.technical_stage_text("abc", NumSectors::Sectors16).is_err());
    assert!(a.technical_stage_text("99999999999", NumSectors::Sectors16).is_err());
    assert_eq!(a.bytes_per_sector, Some(512));
    assert_eq!(a.num_sectors, NumSectors::Sectors128);
    a.technical_stage(Some(4096), NumSectors::Sectors32).unwrap();
    assert_eq!(a.bytes_per_sector, Some(4096));
    assert!(a.technical_stage(None, NumSectors::Sectors32).is_err());
}
