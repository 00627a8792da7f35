use vstd::prelude::*;

use crate::ewfargs::{
    default_args, examiner_committed, examiner_error, decimal_i32, is_blank_error, is_number_error,
    target_committed, target_ok, target_refusal, ArgsList, ExaminerForm, FieldError, NumSectors, TargetForm,
};
use crate::sysinfo::HdInfo;
use crate::LoggingInfo;

verus! {

/// The screens of an acquisition, in the order in which they are filled in.
#[derive(Clone, Copy, PartialEq, Eq, Structural, Debug)]
pub enum Stage {
    SourceSelection,
    ExaminerInfo,
    TargetInfo,
    TechnicalOptions,
    /// Every stage passed: the arguments may be handed to the imager.
    Ready,
}

/// The stage that follows `s` once it passes.
pub open spec fn next_stage(s: Stage) -> Stage {
    match s {
        Stage::SourceSelection => Stage::ExaminerInfo,
        Stage::ExaminerInfo => Stage::TargetInfo,
        Stage::TargetInfo => Stage::TechnicalOptions,
        Stage::TechnicalOptions => Stage::Ready,
        Stage::Ready => Stage::Ready,
    }
}

/// The stage that going back from `s` leads to.
pub open spec fn previous_stage(s: Stage) -> Stage {
    match s {
        Stage::SourceSelection => Stage::SourceSelection,
        Stage::ExaminerInfo => Stage::SourceSelection,
        Stage::TargetInfo => Stage::ExaminerInfo,
        Stage::TechnicalOptions => Stage::TargetInfo,
        Stage::Ready => Stage::TechnicalOptions,
    }
}

/// The position of a stage in the order of the screens.
pub open spec fn stage_index(s: Stage) -> int {
    match s {
        Stage::SourceSelection => 0,
        Stage::ExaminerInfo => 1,
        Stage::TargetInfo => 2,
        Stage::TechnicalOptions => 3,
        Stage::Ready => 4,
    }
}

/// No stage is skipped: passing a stage leads to the one right after it,
/// going back to the one right before it, and only the technical options
/// lead to `Ready`.
pub proof fn lemma_no_stage_skipped(s: Stage)
    ensures
        s != Stage::Ready ==> stage_index(next_stage(s)) == stage_index(s) + 1,
        s != Stage::SourceSelection ==> stage_index(previous_stage(s)) == stage_index(s) - 1,
        next_stage(s) == Stage::Ready ==> s == Stage::TechnicalOptions || s == Stage::Ready,
{
}

/// One acquisition being set up: the stage reached, the arguments gathered
/// so far, and what is recorded about host and drive.
#[derive(Debug)]
pub struct Wizard {
    pub stage: Stage,
    pub args: ArgsList,
    pub info: LoggingInfo,
}

impl Wizard {
    /// A fresh acquisition: default arguments, nothing recorded, at the
    /// choice of the source drive.
    pub fn new() -> (r: Wizard)
        ensures
            r.stage == Stage::SourceSelection,
            default_args(r.args),
            r.info.host_serial is None,
            r.info.drive_serial is None,
            r.info.drive_product is None,
    {
        Wizard { stage: Stage::SourceSelection, args: ArgsList::new(), info: LoggingInfo::new() }
    }

    /// Records the serial number of the host.
    pub fn record_host_serial(&mut self, serial: String)
        ensures
            final(self).info.host_serial == Some(serial),
            final(self).info.drive_serial == old(self).info.drive_serial,
            final(self).info.drive_product == old(self).info.drive_product,
            final(self).stage == old(self).stage,
            final(self).args == old(self).args,
    {
        self.info.host_serial = Some(serial);
    }

    /// Takes `disk` as the drive to image and moves on to the examiner form.
    pub fn choose_source(&mut self, disk: &HdInfo)
        requires
            old(self).stage == Stage::SourceSelection,
        ensures
            final(self).stage == next_stage(old(self).stage),
            final(self).args == (ArgsList { source_device: Some(disk.logical_name), ..old(self).args }),
            final(self).info == (LoggingInfo {
                drive_product: Some(disk.product),
                drive_serial: Some(disk.serial),
                ..old(self).info
            }),
    {
        self.info.drive_product = Some(disk.product.clone());
        self.info.drive_serial = Some(disk.serial.clone());
        self.args.source_device = Some(disk.logical_name.clone());
        self.stage = Stage::ExaminerInfo;
    }

    /// Submits the examiner form: moves on only where it passes.
    pub fn submit_examiner(&mut self, form: ExaminerForm) -> (r: Result<(), FieldError>)
        requires
            old(self).stage == Stage::ExaminerInfo,
        ensures
            r is Ok <==> examiner_error(form) is None,
            examiner_error(form) matches Some(name)
                ==> (r matches Err(e) && is_blank_error(e, name)),
            r is Ok
                ==> final(self).stage == next_stage(old(self).stage) && examiner_committed(old(self).args, final(self).args, form),
            r is Err ==> final(self).stage == old(self).stage && final(self).args == old(self).args,
            final(self).info == old(self).info,
    {
        let r = self.args.examiner_stage(form);
        if r.is_ok() {
            self.stage = Stage::TargetInfo;
        }
        r
    }

    /// Submits the target form: moves on only where it passes.
    /// `parsed_size` must be what `convert_byte_size_string::convert_to_bytes`
    /// returned for the form's segment size (`None` where it failed or
    /// panicked), as for `ArgsList::target_stage`.
    pub fn submit_target(&mut self, form: TargetForm, parsed_size: Option<u128>) -> (r: Result<(), FieldError>)
        requires
            old(self).stage == Stage::TargetInfo,
        ensures
            r is Ok <==> target_ok(form, parsed_size),
            r matches Err(e) ==> target_refusal(form, parsed_size, e),
            r is Ok
                ==> final(self).stage == next_stage(old(self).stage) && target_committed(old(self).args, final(self).args, form),
            r is Err ==> final(self).stage == old(self).stage && final(self).args == old(self).args,
            final(self).info == old(self).info,
    {
        let r = self.args.target_stage(form, parsed_size);
        if r.is_ok() {
            self.stage = Stage::TechnicalOptions;
        }
        r
    }

    /// Submits the technical options: the arguments are ready only where
    /// the bytes-per-sector text denotes an i32.
    pub fn submit_technical(&mut self, bytes_per_sector: &str, num_sectors: NumSectors) -> (r: Result<(), FieldError>)
        requires
            old(self).stage == Stage::TechnicalOptions,
        ensures
            r is Ok <==> decimal_i32(bytes_per_sector@) is Some,
            r matches Err(e) ==> is_number_error(e),
            r is Ok ==> final(self).stage == next_stage(old(self).stage) && final(self).args == (ArgsList {
                bytes_per_sector: decimal_i32(bytes_per_sector@),
                num_sectors,
                ..old(self).args
            }),
            r is Err ==> final(self).stage == old(self).stage && final(self).args == old(self).args,
            final(self).info == old(self).info,
    {
        let r = self.args.technical_stage_text(bytes_per_sector, num_sectors);
        if r.is_ok() {
            self.stage = Stage::Ready;
        }
        r
    }

    /// Goes back one stage, without checking anything and keeping what was
    /// entered.
    pub fn back(&mut self)
        ensures
            final(self).stage == previous_stage(old(self).stage),
            final(self).args == old(self).args,
            final(self).info == old(self).info,
    {
        self.stage = match self.stage {
            Stage::SourceSelection => Stage::SourceSelection,
            Stage::ExaminerInfo => Stage::SourceSelection,
            Stage::TargetInfo => Stage::ExaminerInfo,
            Stage::TechnicalOptions => Stage::TargetInfo,
            Stage::Ready => Stage::TechnicalOptions,
        };
    }

    /// Whether the arguments may be handed to the imager.
    pub fn is_ready(&self) -> (r: bool)
        ensures
            r == (self.stage == Stage::Ready),
    {
        match self.stage {
            Stage::Ready => true,
            _ => false,
        }
    }
}

} // verus!
