use vstd::prelude::*;
use vstd::string::StringExecFns;

verus! {

/// How many sectors the imager reads at once.
#[derive(Clone, Copy, PartialEq, Eq, Structural, Debug)]
pub enum NumSectors {
    Sectors16,
    Sectors32,
    Sectors64,
    Sectors128,
    Sectors256,
    Sectors512,
    Sectors1024,
    Sectors2048,
    Sectors4096,
    Sectors8192,
    Sectors16384,
    Sectors32768,
}

impl Default for NumSectors {
    fn default() -> (r: Self)
        ensures
            r == NumSectors::Sectors64,
    {
        NumSectors::Sectors64
    }
}

impl NumSectors {
    /// The number of sectors that the variant names.
    pub open spec fn spec_count(self) -> u32 {
        match self {
            NumSectors::Sectors16 => 16,
            NumSectors::Sectors32 => 32,
            NumSectors::Sectors64 => 64,
            NumSectors::Sectors128 => 128,
            NumSectors::Sectors256 => 256,
            NumSectors::Sectors512 => 512,
            NumSectors::Sectors1024 => 1024,
            NumSectors::Sectors2048 => 2048,
            NumSectors::Sectors4096 => 4096,
            NumSectors::Sectors8192 => 8192,
            NumSectors::Sectors16384 => 16384,
            NumSectors::Sectors32768 => 32768,
        }
    }

    /// The number of sectors that the variant names.
    pub fn count(self) -> (r: u32)
        ensures
            r == self.spec_count(),
    {
        match self {
            NumSectors::Sectors16 => 16,
            NumSectors::Sectors32 => 32,
            NumSectors::Sectors64 => 64,
            NumSectors::Sectors128 => 128,
            NumSectors::Sectors256 => 256,
            NumSectors::Sectors512 => 512,
            NumSectors::Sectors1024 => 1024,
            NumSectors::Sectors2048 => 2048,
            NumSectors::Sectors4096 => 4096,
            NumSectors::Sectors8192 => 8192,
            NumSectors::Sectors16384 => 16384,
            NumSectors::Sectors32768 => 32768,
        }
    }
}

/// How hard the imager compresses.
#[derive(Clone, Copy, PartialEq, Eq, Structural, Debug)]
pub enum CompressionType {
    NoCompression,
    EmptyBlock,
    Fast,
    Best,
}

impl Default for CompressionType {
    fn default() -> (r: Self)
        ensures
            r == CompressionType::NoCompression,
    {
        CompressionType::NoCompression
    }
}

impl CompressionType {
    /// The position of the variant in declaration order.
    pub fn index(self) -> (r: usize)
        ensures
            r < 4,
            self == CompressionType::NoCompression ==> r == 0,
            self == CompressionType::EmptyBlock ==> r == 1,
            self == CompressionType::Fast ==> r == 2,
            self == CompressionType::Best ==> r == 3,
    {
        match self {
            CompressionType::NoCompression => 0,
            CompressionType::EmptyBlock => 1,
            CompressionType::Fast => 2,
            CompressionType::Best => 3,
        }
    }
}

/// The container format of the image files.
#[derive(Clone, Copy, PartialEq, Eq, Structural, Debug)]
pub enum EwfFormat {
    FTK,
    Encase2,
    Encase3,
    Encase4,
    Encase5,
    Encase6,
    Encase7,
    Linen5,
    Linen6,
    Linen7,
    EwfX,
}

impl Default for EwfFormat {
    fn default() -> (r: Self)
        ensures
            r == EwfFormat::Encase6,
    {
        EwfFormat::Encase6
    }
}

impl EwfFormat {
    /// The position of the variant in declaration order.
    pub open spec fn spec_index(self) -> usize {
        match self {
            EwfFormat::FTK => 0,
            EwfFormat::Encase2 => 1,
            EwfFormat::Encase3 => 2,
            EwfFormat::Encase4 => 3,
            EwfFormat::Encase5 => 4,
            EwfFormat::Encase6 => 5,
            EwfFormat::Encase7 => 6,
            EwfFormat::Linen5 => 7,
            EwfFormat::Linen6 => 8,
            EwfFormat::Linen7 => 9,
            EwfFormat::EwfX => 10,
        }
    }

    /// The position of the variant in declaration order.
    pub fn index(self) -> (r: usize)
        ensures
            r == self.spec_index(),
            r < 11,
    {
        match self {
            EwfFormat::FTK => 0,
            EwfFormat::Encase2 => 1,
            EwfFormat::Encase3 => 2,
            EwfFormat::Encase4 => 3,
            EwfFormat::Encase5 => 4,
            EwfFormat::Encase6 => 5,
            EwfFormat::Encase7 => 6,
            EwfFormat::Linen5 => 7,
            EwfFormat::Linen6 => 8,
            EwfFormat::Linen7 => 9,
            EwfFormat::EwfX => 10,
        }
    }
}

/// One digest that the imager can compute.
#[derive(Clone, Copy, PartialEq, Eq, Structural, Debug)]
pub enum Digest {
    /// Always computed.
    Md5,
    Sha1,
    Sha256,
}

/// MD5 together with SHA-1 and SHA-256 where asked for.
pub open spec fn digest_set(sha1: bool, sha256: bool) -> Set<Digest> {
    Set::new(
        |d: Digest|
            d == Digest::Md5 || (d == Digest::Sha1 && sha1) || (d == Digest::Sha256 && sha256),
    )
}

/// The digests to compute. MD5 is always among them: no operation removes it.
#[derive(Clone, Copy, PartialEq, Eq, Structural, Debug)]
pub struct DigestType {
    sha1: bool,
    sha256: bool,
}

impl View for DigestType {
    type V = Set<Digest>;

    closed spec fn view(&self) -> Set<Digest> {
        digest_set(self.sha1, self.sha256)
    }
}

impl Default for DigestType {
    fn default() -> (r: Self)
        ensures
            r@ == set![Digest::Md5],
    {
        DigestType::md5()
    }
}

impl DigestType {
    /// MD5 alone.
    pub fn md5() -> (r: DigestType)
        ensures
            r@ == set![Digest::Md5],
    {
        let r = DigestType { sha1: false, sha256: false };
        assert(r@ =~= set![Digest::Md5]);
        r
    }

    /// MD5 with the optional digests that are asked for.
    pub fn requested(sha1: bool, sha256: bool) -> (r: DigestType)
        ensures
            r@ == digest_set(sha1, sha256),
    {
        DigestType { sha1, sha256 }
    }

    /// Every digest set holds MD5.
    pub proof fn lemma_md5_always(self)
        ensures
            self@.contains(Digest::Md5),
    {
    }

    /// Asking for no optional digest still leaves MD5 to compute, and
    /// adding MD5 to a request never changes it.
    pub proof fn lemma_request_keeps_md5(self)
        ensures
            self@.insert(Digest::Md5).contains(Digest::Md5),
            self@.insert(Digest::Md5) == self@,
    {
        assert(self@.insert(Digest::Md5) =~= self@);
    }

    /// Whether the set holds `d`.
    pub fn contains(&self, d: Digest) -> (r: bool)
        ensures
            r == self@.contains(d),
    {
        match d {
            Digest::Md5 => true,
            Digest::Sha1 => self.sha1,
            Digest::Sha256 => self.sha256,
        }
    }

    /// Adds `d` to the set.
    pub fn insert(&mut self, d: Digest)
        ensures
            final(self)@ == old(self)@.insert(d),
    {
        match d {
            Digest::Md5 => {},
            Digest::Sha1 => {
                self.sha1 = true;
            },
            Digest::Sha256 => {
                self.sha256 = true;
            },
        }
        assert(self@ =~= old(self)@.insert(d));
    }

    /// The digests of both sets.
    pub fn union(self, other: DigestType) -> (r: DigestType)
        ensures
            r@ == self@.union(other@),
    {
        let r = DigestType { sha1: self.sha1 || other.sha1, sha256: self.sha256 || other.sha256 };
        assert(r@ =~= self@.union(other@));
        r
    }
}

/// Why a value offered for a field was refused.
#[derive(PartialEq, Eq, Debug)]
pub enum FieldError {
    /// A required field was left empty; names the field.
    Blank { field: String },
    /// The segment size is no byte size; holds the text offered.
    InvalidSize { text: String },
    /// A numeric field holds no number of its kind; names the field.
    InvalidNumber { field: String },
}

/// The message shown for a refused value.
pub open spec fn message_of(e: FieldError) -> Seq<char> {
    match e {
        FieldError::Blank { field } => field@ + " is required."@,
        FieldError::InvalidSize { text } => "Invalid value for segment size"@,
        FieldError::InvalidNumber { field } => "Invalid value for "@ + field@,
    }
}

impl FieldError {
    /// The message to show the user.
    pub fn message(&self) -> (r: String)
        ensures
            r@ == message_of(*self),
    {
        match self {
            FieldError::Blank { field } => field.clone().concat(" is required."),
            FieldError::InvalidSize { text } => String::from_str("Invalid value for segment size"),
            FieldError::InvalidNumber { field } => String::from_str("Invalid value for ").concat(
                field.as_str(),
            ),
        }
    }
}

/// An offered value is blank when it is missing or empty.
pub open spec fn blank(proposed: Option<String>) -> bool {
    match proposed {
        None => true,
        Some(s) => s@.len() == 0,
    }
}

/// The error that a blank required field gives.
pub open spec fn is_blank_error(r: FieldError, name: Seq<char>) -> bool {
    r matches FieldError::Blank { field } && field@ == name
}

/// The text that an optional field takes: what was offered, or the empty
/// text.
pub open spec fn optional_text(proposed: Option<String>) -> Seq<char> {
    match proposed {
        None => Seq::empty(),
        Some(s) => s@,
    }
}

/// A missing value and an empty one are the same to the fields: both are
/// blank, so a required field refuses both, and an optional field takes both
/// as the empty text.
pub proof fn lemma_blank_forms_agree(empty: String)
    requires
        empty@.len() == 0,
    ensures
        blank(None),
        blank(Some(empty)),
        optional_text(None) == Seq::<char>::empty(),
        optional_text(Some(empty)) == Seq::<char>::empty(),
{
}

/// Accepts the value of a required field, or refuses it as blank, naming
/// the field.
pub fn require_field(name: &str, proposed: Option<String>) -> (r: Result<String, FieldError>)
    ensures
        blank(proposed) ==> (r matches Err(e) && is_blank_error(e, name@)),
        !blank(proposed) ==> r == Ok::<String, FieldError>(proposed->Some_0),
{
    match proposed {
        Some(v) => {
            if v.as_str().is_empty() {
                Err(FieldError::Blank { field: String::from_str(name) })
            } else {
                Ok(v)
            }
        },
        None => Err(FieldError::Blank { field: String::from_str(name) }),
    }
}

/// The value of an optional field: what was offered, or the empty text
/// where nothing was. Never refuses.
pub fn accept_optional(proposed: Option<String>) -> (r: String)
    ensures
        r@ == optional_text(proposed),
{
    match proposed {
        Some(v) => v,
        None => String::new(),
    }
}

/// The arguments handed to the imager for one acquisition.
#[derive(Debug)]
pub struct ArgsList {
    /// The device to image.
    pub source_device: Option<String>,
    /// The number of sectors to read at once.
    pub num_sectors: NumSectors,
    /// The type of compression to use.
    pub compression_type: CompressionType,
    /// The case number.
    pub case_number: Option<String>,
    /// Which digests to compute (MD5 always).
    pub digest_type: DigestType,
    /// The description of the evidence.
    pub description: Option<String>,
    /// The examiner's name.
    pub examiner_name: Option<String>,
    /// The evidence number of the evidence being imaged.
    pub evidence_number: Option<String>,
    /// Which file format to use for the images.
    pub ewf_format: EwfFormat,
    /// Notes about the evidence.
    pub notes: Option<String>,
    /// How many bytes are in a sector.
    pub bytes_per_sector: Option<i32>,
    /// How large to make the segments of a segmented image, as the user wrote it.
    pub segment_file_size: Option<String>,
    /// The directory of the image.
    pub target_dir: Option<String>,
    /// The directory of the second copy, where two copies are made.
    pub secondary_target_dir: Option<String>,
    /// The file name of the image and of its copy.
    pub target_filename: Option<String>,
}

/// What the examiner form holds when it is submitted.
pub struct ExaminerForm {
    pub examiner_name: Option<String>,
    pub case_number: Option<String>,
    pub evidence_number: Option<String>,
    pub description: Option<String>,
    pub notes: Option<String>,
}

/// What the target form holds when it is submitted.
pub struct TargetForm {
    pub target_filename: Option<String>,
    pub target_dir: Option<String>,
    /// Whether a second copy is to be made.
    pub two_copies: bool,
    pub secondary_target_dir: Option<String>,
    pub ewf_format: EwfFormat,
    pub compression_type: CompressionType,
    pub sha1: bool,
    pub sha256: bool,
    /// Whether the image is to be split into segments.
    pub segment: bool,
    pub segment_file_size: Option<String>,
}

/// A copy of an optional text.
pub fn copy_option(o: &Option<String>) -> (r: Option<String>)
    ensures
        r == *o,
{
    match o {
        Some(s) => Some(s.clone()),
        None => None,
    }
}

impl ExaminerForm {
    /// The form as it is first shown: holding what the arguments already
    /// hold.
    pub fn from_args(args: &ArgsList) -> (r: ExaminerForm)
        ensures
            r.examiner_name == args.examiner_name,
            r.case_number == args.case_number,
            r.evidence_number == args.evidence_number,
            r.description == args.description,
            r.notes == args.notes,
    {
        ExaminerForm {
            examiner_name: copy_option(&args.examiner_name),
            case_number: copy_option(&args.case_number),
            evidence_number: copy_option(&args.evidence_number),
            description: copy_option(&args.description),
            notes: copy_option(&args.notes),
        }
    }
}

impl TargetForm {
    /// The form as it is first shown: holding what the arguments already
    /// hold, with the second copy and the segments switched on where their
    /// fields are set.
    pub fn from_args(args: &ArgsList) -> (r: TargetForm)
        ensures
            r.target_filename == args.target_filename,
            r.target_dir == args.target_dir,
            r.two_copies == args.secondary_target_dir is Some,
            r.secondary_target_dir == args.secondary_target_dir,
            r.ewf_format == args.ewf_format,
            r.compression_type == args.compression_type,
            r.sha1 == args.digest_type@.contains(Digest::Sha1),
            r.sha256 == args.digest_type@.contains(Digest::Sha256),
            r.segment == args.segment_file_size is Some,
            r.segment_file_size == args.segment_file_size,
    {
        TargetForm {
            target_filename: copy_option(&args.target_filename),
            target_dir: copy_option(&args.target_dir),
            two_copies: args.secondary_target_dir.is_some(),
            secondary_target_dir: copy_option(&args.secondary_target_dir),
            ewf_format: args.ewf_format,
            compression_type: args.compression_type,
            sha1: args.digest_type.contains(Digest::Sha1),
            sha256: args.digest_type.contains(Digest::Sha256),
            segment: args.segment_file_size.is_some(),
            segment_file_size: copy_option(&args.segment_file_size),
        }
    }
}

/// The arguments that a fresh acquisition starts from.
pub open spec fn default_args(a: ArgsList) -> bool {
    &&& a.source_device is None
    &&& a.num_sectors == NumSectors::Sectors64
    &&& a.compression_type == CompressionType::NoCompression
    &&& a.case_number is None
    &&& a.digest_type@ == set![Digest::Md5]
    &&& a.description is None
    &&& a.examiner_name is None
    &&& a.evidence_number is None
    &&& a.ewf_format == EwfFormat::Encase6
    &&& a.notes is None
    &&& a.bytes_per_sector is None
    &&& a.segment_file_size is None
    &&& a.target_dir is None
    &&& a.secondary_target_dir is None
    &&& a.target_filename is None
}

impl Default for ArgsList {
    fn default() -> (r: Self)
        ensures
            default_args(r),
    {
        ArgsList::new()
    }
}

/// Whether `v` is the optional text that `proposed` gives.
pub open spec fn holds_optional(v: Option<String>, proposed: Option<String>) -> bool {
    v matches Some(s) && s@ == optional_text(proposed)
}

/// The error that the examiner form gives, if any: the first blank one of
/// its required fields, in form order.
pub open spec fn examiner_error(form: ExaminerForm) -> Option<Seq<char>> {
    if blank(form.examiner_name) {
        Some("Examiner Name"@)
    } else if blank(form.case_number) {
        Some("Case Number"@)
    } else if blank(form.evidence_number) {
        Some("Evidence Number"@)
    } else {
        None
    }
}

/// `after` is `before` with the examiner form committed.
pub open spec fn examiner_committed(before: ArgsList, after: ArgsList, form: ExaminerForm) -> bool {
    &&& after == (ArgsList {
        examiner_name: form.examiner_name,
        case_number: form.case_number,
        evidence_number: form.evidence_number,
        description: after.description,
        notes: after.notes,
        ..before
    })
    &&& holds_optional(after.description, form.description)
    &&& holds_optional(after.notes, form.notes)
}

/// Whether the target form passes: its required fields are filled in, and
/// the segment size, where segments are asked for, is a byte size.
/// `parsed_size` must be what `convert_byte_size_string::convert_to_bytes`
/// returned for the offered segment size: `Some(bytes)` where it succeeded,
/// `None` where it failed (or panicked). The caller makes that call: the
/// parser panics on some texts (a two-letter unit whose second letter is
/// not `b`), which no precondition here could leave out.
pub open spec fn target_ok(form: TargetForm, parsed_size: Option<u128>) -> bool {
    &&& !blank(form.target_filename)
    &&& !blank(form.target_dir)
    &&& form.two_copies ==> !blank(form.secondary_target_dir)
    &&& form.segment ==> !blank(form.segment_file_size) && parsed_size is Some
}

/// `after` is `before` with the target form committed. A second directory
/// and a segment size are kept only where they are switched on.
pub open spec fn target_committed(before: ArgsList, after: ArgsList, form: TargetForm) -> bool {
    &&& after == (ArgsList {
        target_filename: form.target_filename,
        target_dir: form.target_dir,
        secondary_target_dir: if form.two_copies {
            form.secondary_target_dir
        } else {
            None
        },
        ewf_format: form.ewf_format,
        compression_type: form.compression_type,
        digest_type: after.digest_type,
        segment_file_size: if form.segment {
            form.segment_file_size
        } else {
            None
        },
        ..before
    })
    &&& after.digest_type@ == digest_set(form.sha1, form.sha256)
}

/// The text of a size offered for the segments, where it is a refused one.
pub open spec fn is_size_error(e: FieldError, proposed: Option<String>) -> bool {
    e matches FieldError::InvalidSize { text } && text@ == proposed->Some_0@
}

/// The refusal that a failing target form gives: the first failing field in
/// form order (file name, directory, second directory, segment size).
pub open spec fn target_refusal(
    form: TargetForm,
    parsed_size: Option<u128>,
    e: FieldError,
) -> bool {
    if blank(form.target_filename) {
        is_blank_error(e, "Filename"@)
    } else if blank(form.target_dir) {
        is_blank_error(e, "Target directory"@)
    } else if form.two_copies && blank(form.secondary_target_dir) {
        is_blank_error(e, "Secondary target directory"@)
    } else if form.segment && blank(form.segment_file_size) {
        is_blank_error(e, "Segment size"@)
    } else {
        is_size_error(e, form.segment_file_size)
    }
}

/// The refusal of a bytes-per-sector value that is no number.
pub open spec fn is_number_error(e: FieldError) -> bool {
    e matches FieldError::InvalidNumber { field } && field@ == "Bytes per sector"@
}

/// Whether the text is one or more ASCII decimal digits.
pub open spec fn decimal_digits(s: Seq<char>) -> bool {
    s.len() > 0 && forall|i: int| 0 <= i < s.len() ==> '0' <= #[trigger] s[i] <= '9'
}

/// The value of a run of decimal digits.
pub open spec fn digits_value(s: Seq<char>) -> int
    decreases s.len(),
{
    if s.len() == 0 {
        0
    } else {
        digits_value(s.drop_last()) * 10 + (s.last() as int - '0' as int)
    }
}

/// The i32 that a text denotes: an optional `+` or `-` followed by one or
/// more decimal digits, whose value lies within i32's range; `None` for any
/// other text.
pub open spec fn decimal_i32(s: Seq<char>) -> Option<i32> {
    if s.len() > 0 && s[0] == '-' {
        let v = -digits_value(s.drop_first());
        if decimal_digits(s.drop_first()) && i32::MIN <= v {
            Some(v as i32)
        } else {
            None
        }
    } else {
        let d = if s.len() > 0 && s[0] == '+' {
            s.drop_first()
        } else {
            s
        };
        let v = digits_value(d);
        if decimal_digits(d) && v <= i32::MAX {
            Some(v as i32)
        } else {
            None
        }
    }
}

/// Relies on i32's FromStr (`from_str_radix` with radix 10): as its
/// documentation states, the text must be an optional sign followed by
/// decimal digits only, and the value must fit an i32.
#[verifier::external_body]
fn read_i32(text: &str) -> (r: Option<i32>)
    ensures
        r == decimal_i32(text@),
{
    text.parse::<i32>().ok()
}

/// The value to commit for an optional second directory: none where it is
/// switched off, else the required text.
fn check_secondary(
    proposed: Option<String>,
    enabled: bool,
) -> (r: Result<Option<String>, FieldError>)
    ensures
        !enabled ==> r == Ok::<Option<String>, FieldError>(None),
        enabled && blank(proposed)
            ==> (r matches Err(e) && is_blank_error(e, "Secondary target directory"@)),
        enabled && !blank(proposed) ==> r == Ok::<Option<String>, FieldError>(proposed),
{
    if enabled {
        match require_field("Secondary target directory", proposed) {
            Ok(v) => Ok(Some(v)),
            Err(e) => Err(e),
        }
    } else {
        Ok(None)
    }
}

/// The value to commit for an optional segment size: none where segments
/// are switched off, else the required text, which must be a byte size.
fn check_segment(
    proposed: Option<String>,
    enabled: bool,
    parsed: Option<u128>,
) -> (r: Result<Option<String>, FieldError>)
    ensures
        !enabled ==> r == Ok::<Option<String>, FieldError>(None),
        enabled && blank(proposed) ==> (r matches Err(e) && is_blank_error(e, "Segment size"@)),
        enabled && !blank(proposed) && parsed is None
            ==> (r matches Err(e) && is_size_error(e, proposed)),
        enabled && !blank(proposed) && parsed is Some
            ==> r == Ok::<Option<String>, FieldError>(proposed),
{
    if enabled {
        match require_field("Segment size", proposed) {
            Ok(v) => {
                if parsed.is_some() {
                    Ok(Some(v))
                } else {
                    Err(FieldError::InvalidSize { text: v })
                }
            },
            Err(e) => Err(e),
        }
    } else {
        Ok(None)
    }
}

impl ArgsList {
    /// Returns a new `ArgsList` with all default options.
    pub fn new() -> (r: ArgsList)
        ensures
            default_args(r),
    {
        ArgsList {
            source_device: None,
            num_sectors: NumSectors::Sectors64,
            compression_type: CompressionType::NoCompression,
            case_number: None,
            digest_type: DigestType::md5(),
            description: None,
            examiner_name: None,
            evidence_number: None,
            ewf_format: EwfFormat::Encase6,
            notes: None,
            bytes_per_sector: None,
            segment_file_size: None,
            target_dir: None,
            secondary_target_dir: None,
            target_filename: None,
        }
    }

    /// Takes the digests asked for, together with MD5, which is never left out.
    pub fn set_digest(&mut self, requested: DigestType)
        ensures
            *final(self) == (ArgsList { digest_type: final(self).digest_type, ..*old(self) }),
            final(self).digest_type@ == requested@.insert(Digest::Md5),
    {
        let mut d = requested;
        d.insert(Digest::Md5);
        self.digest_type = d;
    }

    /// Sets or clears the segment size. Switched off, the field is cleared
    /// whatever was offered. Switched on, the offered text must be filled in
    /// and be a byte size. `parsed` must be what
    /// `convert_byte_size_string::convert_to_bytes` returned for the offered
    /// text: `Some(bytes)` where it succeeded, `None` where it failed (or
    /// panicked); the caller makes that call, as the parser panics on some
    /// texts, which no precondition here could leave out.
    /// A refused value leaves the arguments as they were.
    pub fn set_segment_size(
        &mut self,
        proposed: Option<String>,
        enabled: bool,
        parsed: Option<u128>,
    ) -> (r: Result<(), FieldError>)
        ensures
            !enabled
                ==> r is Ok && *final(self) == (ArgsList { segment_file_size: None, ..*old(self) }),
            enabled && blank(proposed)
                ==> (r matches Err(e) && is_blank_error(e, "Segment size"@)) && *final(self) == *old(self),
            enabled && !blank(proposed) && parsed is None
                ==> (r matches Err(e) && is_size_error(e, proposed)) && *final(self) == *old(self),
            enabled && !blank(proposed) && parsed is Some
                ==> r is Ok && *final(self) == (ArgsList { segment_file_size: proposed, ..*old(self) }),
    {
        match check_segment(proposed, enabled, parsed) {
            Ok(v) => {
                self.segment_file_size = v;
                Ok(())
            },
            Err(e) => Err(e),
        }
    }

    /// Sets or clears the directory of the second copy. Switched off, the
    /// field is cleared whatever was offered; switched on, the offered text
    /// must be filled in. A refused value leaves the arguments as they were.
    pub fn set_secondary_target(
        &mut self,
        proposed: Option<String>,
        enabled: bool,
    ) -> (r: Result<(), FieldError>)
        ensures
            !enabled
                ==> r is Ok && *final(self) == (ArgsList { secondary_target_dir: None, ..*old(self) }),
            enabled && blank(proposed)
                ==> (r matches Err(e) && is_blank_error(e, "Secondary target directory"@)) && *final(self) == *old(self),
            enabled && !blank(proposed)
                ==> r is Ok && *final(self) == (ArgsList { secondary_target_dir: proposed, ..*old(self) }),
    {
        match check_secondary(proposed, enabled) {
            Ok(v) => {
                self.secondary_target_dir = v;
                Ok(())
            },
            Err(e) => Err(e),
        }
    }

    /// Commits the examiner form, or refuses it with the first blank one of
    /// its required fields and leaves the arguments as they were.
    pub fn examiner_stage(&mut self, form: ExaminerForm) -> (r: Result<(), FieldError>)
        ensures
            examiner_error(form) matches Some(name)
                ==> (r matches Err(e) && is_blank_error(e, name)) && *final(self) == *old(self),
            examiner_error(form) is None
                ==> r is Ok && examiner_committed(*old(self), *final(self), form),
    {
        let ExaminerForm { examiner_name, case_number, evidence_number, description, notes } = form;
        let examiner_name = match require_field("Examiner Name", examiner_name) {
            Ok(v) => v,
            Err(e) => return Err(e),
        };
        let case_number = match require_field("Case Number", case_number) {
            Ok(v) => v,
            Err(e) => return Err(e),
        };
        let evidence_number = match require_field("Evidence Number", evidence_number) {
            Ok(v) => v,
            Err(e) => return Err(e),
        };
        self.examiner_name = Some(examiner_name);
        self.case_number = Some(case_number);
        self.evidence_number = Some(evidence_number);
        self.description = Some(accept_optional(description));
        self.notes = Some(accept_optional(notes));
        Ok(())
    }

    /// Commits the target form, or refuses it with the first failing field
    /// in form order (file name, directory, second directory, segment size)
    /// and leaves the arguments as they were. `parsed_size` must be what
    /// `convert_byte_size_string::convert_to_bytes` returned for the form's
    /// segment size (`None` where it failed or panicked), as for
    /// `set_segment_size`.
    pub fn target_stage(
        &mut self,
        form: TargetForm,
        parsed_size: Option<u128>,
    ) -> (r: Result<(), FieldError>)
        ensures
            !target_ok(form, parsed_size)
                ==> (r matches Err(e) && target_refusal(form, parsed_size, e)) && *final(self) == *old(self),
            target_ok(form, parsed_size)
                ==> r is Ok && target_committed(*old(self), *final(self), form),
    {
        let TargetForm {
            target_filename,
            target_dir,
            two_copies,
            secondary_target_dir,
            ewf_format,
            compression_type,
            sha1,
            sha256,
            segment,
            segment_file_size,
        } = form;
        let target_filename = match require_field("Filename", target_filename) {
            Ok(v) => v,
            Err(e) => return Err(e),
        };
        let target_dir = match require_field("Target directory", target_dir) {
            Ok(v) => v,
            Err(e) => return Err(e),
        };
        let secondary_target_dir = match check_secondary(secondary_target_dir, two_copies) {
            Ok(v) => v,
            Err(e) => return Err(e),
        };
        let segment_file_size = match check_segment(segment_file_size, segment, parsed_size) {
            Ok(v) => v,
            Err(e) => return Err(e),
        };
        self.target_filename = Some(target_filename);
        self.target_dir = Some(target_dir);
        self.secondary_target_dir = secondary_target_dir;
        self.ewf_format = ewf_format;
        self.compression_type = compression_type;
        self.set_digest(DigestType::requested(sha1, sha256));
        assert(digest_set(sha1, sha256).insert(Digest::Md5) =~= digest_set(sha1, sha256));
        self.segment_file_size = segment_file_size;
        Ok(())
    }

    /// Commits the technical options. `bytes_per_sector` is what reading the
    /// field as an integer gave; where it gave nothing the stage is refused
    /// and the arguments stay as they were.
    pub fn technical_stage(
        &mut self,
        bytes_per_sector: Option<i32>,
        num_sectors: NumSectors,
    ) -> (r: Result<(), FieldError>)
        ensures
            bytes_per_sector is None
                ==> (r matches Err(e) && is_number_error(e)) && *final(self) == *old(self),
            bytes_per_sector is Some
                ==> r is Ok && *final(self) == (ArgsList { bytes_per_sector, num_sectors, ..*old(self) }),
    {
        match bytes_per_sector {
            Some(b) => {
                self.bytes_per_sector = Some(b);
                self.num_sectors = num_sectors;
                Ok(())
            },
            None => Err(FieldError::InvalidNumber { field: String::from_str("Bytes per sector") }),
        }
    }

    /// Commits the technical options from the text of the bytes-per-sector
    /// field, which must denote an i32.
    pub fn technical_stage_text(
        &mut self,
        bytes_per_sector: &str,
        num_sectors: NumSectors,
    ) -> (r: Result<(), FieldError>)
        ensures
            decimal_i32(bytes_per_sector@) is None
                ==> (r matches Err(e) && is_number_error(e)) && *final(self) == *old(self),
            bytes_per_sector@.len() == 0 ==> r is Err,
            decimal_i32(bytes_per_sector@) is Some ==> r is Ok && *final(self) == (ArgsList {
                bytes_per_sector: decimal_i32(bytes_per_sector@),
                num_sectors,
                ..*old(self)
            }),
    {
        let parsed = read_i32(bytes_per_sector);
        self.technical_stage(parsed, num_sectors)
    }
}

} // verus!
