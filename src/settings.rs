//! Program icons and the per-package upload settings read from the
//! package's `v5` metadata table.
use vstd::prelude::*;

use crate::names::{find_char, text_eq};
use crate::upload::UploadStrategy;

verus! {

/// A program file icon.
#[derive(Clone, Copy, Debug, PartialEq, Eq, Structural)]
pub enum ProgramIcon {
    VexCodingStudio,
    CoolX,
    QuestionMark,
    Pizza,
    Clawbot,
    Robot,
    PowerButton,
    Planets,
    Alien,
    AlienInUfo,
    CupInField,
    CupAndBall,
    Matlab,
    Pros,
    RobotMesh,
    RobotMeshCpp,
    RobotMeshBlockly,
    RobotMeshFlowol,
    RobotMeshJS,
    RobotMeshPy,
    CodeFile,
    VexcodeBrackets,
    VexcodeBlocks,
    VexcodePython,
    VexcodeCpp,
}

/// The icon's number on the device.
pub open spec fn icon_id(icon: ProgramIcon) -> u16 {
    match icon {
        ProgramIcon::VexCodingStudio => 0,
        ProgramIcon::CoolX => 1,
        ProgramIcon::QuestionMark => 2,
        ProgramIcon::Pizza => 3,
        ProgramIcon::Clawbot => 10,
        ProgramIcon::Robot => 11,
        ProgramIcon::PowerButton => 12,
        ProgramIcon::Planets => 13,
        ProgramIcon::Alien => 27,
        ProgramIcon::AlienInUfo => 29,
        ProgramIcon::CupInField => 50,
        ProgramIcon::CupAndBall => 51,
        ProgramIcon::Matlab => 901,
        ProgramIcon::Pros => 902,
        ProgramIcon::RobotMesh => 903,
        ProgramIcon::RobotMeshCpp => 911,
        ProgramIcon::RobotMeshBlockly => 912,
        ProgramIcon::RobotMeshFlowol => 913,
        ProgramIcon::RobotMeshJS => 914,
        ProgramIcon::RobotMeshPy => 915,
        ProgramIcon::CodeFile => 920,
        ProgramIcon::VexcodeBrackets => 921,
        ProgramIcon::VexcodeBlocks => 922,
        ProgramIcon::VexcodePython => 925,
        ProgramIcon::VexcodeCpp => 926,
    }
}

/// The icon that `name` selects, if any.
pub open spec fn icon_named(name: Seq<char>) -> Option<ProgramIcon> {
    if name == "vex-coding-studio"@ {
        Some(ProgramIcon::VexCodingStudio)
    } else if name == "cool-x"@ {
        Some(ProgramIcon::CoolX)
    } else if name == "question-mark"@ {
        Some(ProgramIcon::QuestionMark)
    } else if name == "pizza"@ {
        Some(ProgramIcon::Pizza)
    } else if name == "clawbot"@ {
        Some(ProgramIcon::Clawbot)
    } else if name == "robot"@ {
        Some(ProgramIcon::Robot)
    } else if name == "power-button"@ {
        Some(ProgramIcon::PowerButton)
    } else if name == "planets"@ {
        Some(ProgramIcon::Planets)
    } else if name == "alien"@ {
        Some(ProgramIcon::Alien)
    } else if name == "alien-in-ufo"@ {
        Some(ProgramIcon::AlienInUfo)
    } else if name == "cup-in-field"@ {
        Some(ProgramIcon::CupInField)
    } else if name == "cup-and-ball"@ {
        Some(ProgramIcon::CupAndBall)
    } else if name == "matlab"@ {
        Some(ProgramIcon::Matlab)
    } else if name == "pros"@ {
        Some(ProgramIcon::Pros)
    } else if name == "robot-mesh"@ {
        Some(ProgramIcon::RobotMesh)
    } else if name == "robot-mesh-cpp"@ {
        Some(ProgramIcon::RobotMeshCpp)
    } else if name == "robot-mesh-blockly"@ {
        Some(ProgramIcon::RobotMeshBlockly)
    } else if name == "robot-mesh-flowol"@ {
        Some(ProgramIcon::RobotMeshFlowol)
    } else if name == "robot-mesh-js"@ {
        Some(ProgramIcon::RobotMeshJS)
    } else if name == "robot-mesh-py"@ {
        Some(ProgramIcon::RobotMeshPy)
    } else if name == "code-file"@ {
        Some(ProgramIcon::CodeFile)
    } else if name == "vexcode-brackets"@ {
        Some(ProgramIcon::VexcodeBrackets)
    } else if name == "vexcode-blocks"@ {
        Some(ProgramIcon::VexcodeBlocks)
    } else if name == "vexcode-python"@ {
        Some(ProgramIcon::VexcodePython)
    } else if name == "vexcode-cpp"@ {
        Some(ProgramIcon::VexcodeCpp)
    } else {
        None
    }
}

impl ProgramIcon {
    /// The icon's number on the device.
    pub fn id(self) -> (r: u16)
        ensures
            r == icon_id(self),
            r < 1000,
    {
        match self {
            ProgramIcon::VexCodingStudio => 0,
            ProgramIcon::CoolX => 1,
            ProgramIcon::QuestionMark => 2,
            ProgramIcon::Pizza => 3,
            ProgramIcon::Clawbot => 10,
            ProgramIcon::Robot => 11,
            ProgramIcon::PowerButton => 12,
            ProgramIcon::Planets => 13,
            ProgramIcon::Alien => 27,
            ProgramIcon::AlienInUfo => 29,
            ProgramIcon::CupInField => 50,
            ProgramIcon::CupAndBall => 51,
            ProgramIcon::Matlab => 901,
            ProgramIcon::Pros => 902,
            ProgramIcon::RobotMesh => 903,
            ProgramIcon::RobotMeshCpp => 911,
            ProgramIcon::RobotMeshBlockly => 912,
            ProgramIcon::RobotMeshFlowol => 913,
            ProgramIcon::RobotMeshJS => 914,
            ProgramIcon::RobotMeshPy => 915,
            ProgramIcon::CodeFile => 920,
            ProgramIcon::VexcodeBrackets => 921,
            ProgramIcon::VexcodeBlocks => 922,
            ProgramIcon::VexcodePython => 925,
            ProgramIcon::VexcodeCpp => 926,
        }
    }

    /// The icon a setting names.
    pub fn from_name(name: &str) -> (r: Option<ProgramIcon>)
        ensures
            r == icon_named(name@),
    {
        if text_eq(name, "vex-coding-studio") {
            Some(ProgramIcon::VexCodingStudio)
        } else if text_eq(name, "cool-x") {
            Some(ProgramIcon::CoolX)
        } else if text_eq(name, "question-mark") {
            Some(ProgramIcon::QuestionMark)
        } else if text_eq(name, "pizza") {
            Some(ProgramIcon::Pizza)
        } else if text_eq(name, "clawbot") {
            Some(ProgramIcon::Clawbot)
        } else if text_eq(name, "robot") {
            Some(ProgramIcon::Robot)
        } else if text_eq(name, "power-button") {
            Some(ProgramIcon::PowerButton)
        } else if text_eq(name, "planets") {
            Some(ProgramIcon::Planets)
        } else if text_eq(name, "alien") {
            Some(ProgramIcon::Alien)
        } else if text_eq(name, "alien-in-ufo") {
            Some(ProgramIcon::AlienInUfo)
        } else if text_eq(name, "cup-in-field") {
            Some(ProgramIcon::CupInField)
        } else if text_eq(name, "cup-and-ball") {
            Some(ProgramIcon::CupAndBall)
        } else if text_eq(name, "matlab") {
            Some(ProgramIcon::Matlab)
        } else if text_eq(name, "pros") {
            Some(ProgramIcon::Pros)
        } else if text_eq(name, "robot-mesh") {
            Some(ProgramIcon::RobotMesh)
        } else if text_eq(name, "robot-mesh-cpp") {
            Some(ProgramIcon::RobotMeshCpp)
        } else if text_eq(name, "robot-mesh-blockly") {
            Some(ProgramIcon::RobotMeshBlockly)
        } else if text_eq(name, "robot-mesh-flowol") {
            Some(ProgramIcon::RobotMeshFlowol)
        } else if text_eq(name, "robot-mesh-js") {
            Some(ProgramIcon::RobotMeshJS)
        } else if text_eq(name, "robot-mesh-py") {
            Some(ProgramIcon::RobotMeshPy)
        } else if text_eq(name, "code-file") {
            Some(ProgramIcon::CodeFile)
        } else if text_eq(name, "vexcode-brackets") {
            Some(ProgramIcon::VexcodeBrackets)
        } else if text_eq(name, "vexcode-blocks") {
            Some(ProgramIcon::VexcodeBlocks)
        } else if text_eq(name, "vexcode-python") {
            Some(ProgramIcon::VexcodePython)
        } else if text_eq(name, "vexcode-cpp") {
            Some(ProgramIcon::VexcodeCpp)
        } else {
            None
        }
    }
}

/// The icon used when none is configured.
pub const DEFAULT_ICON: ProgramIcon = ProgramIcon::QuestionMark;

/// The upload strategy that `name` selects, if any.
pub open spec fn strategy_named(name: Seq<char>) -> Option<UploadStrategy> {
    if name == "monolith"@ {
        Some(UploadStrategy::Monolith)
    } else if name == "differential"@ {
        Some(UploadStrategy::Differential)
    } else {
        None
    }
}

/// The upload strategy a setting names.
pub fn strategy_from_name(name: &str) -> (r: Option<UploadStrategy>)
    ensures
        r == strategy_named(name@),
{
    if text_eq(name, "monolith") {
        Some(UploadStrategy::Monolith)
    } else if text_eq(name, "differential") {
        Some(UploadStrategy::Differential)
    } else {
        None
    }
}

/// A value of the package's metadata table, as far as the settings read it.
#[derive(Clone, Debug)]
pub enum FieldValue {
    Null,
    Bool(bool),
    /// A number, with its value when it is a non-negative integer.
    Number(Option<u64>),
    Text(String),
    Array,
    Object,
}

/// The name of a value's kind, as error messages give it.
pub open spec fn kind_name(v: FieldValue) -> Seq<char> {
    match v {
        FieldValue::Array => "array"@,
        FieldValue::Bool(_) => "bool"@,
        FieldValue::Null => "null"@,
        FieldValue::Object => "object"@,
        FieldValue::Text(_) => "string"@,
        FieldValue::Number(_) => "number"@,
    }
}

/// The name of a value's kind.
pub fn field_type(v: &FieldValue) -> (r: &'static str)
    ensures
        r@ == kind_name(*v),
{
    match v {
        FieldValue::Array => "array",
        FieldValue::Bool(_) => "bool",
        FieldValue::Null => "null",
        FieldValue::Object => "object",
        FieldValue::Text(_) => "string",
        FieldValue::Number(_) => "number",
    }
}

/// Subcommands that manage the compiler toolchain.
#[derive(Clone, Copy, Debug, PartialEq, Eq, Structural)]
pub enum ToolchainCmd {
    /// Install the toolchain the project asks for.
    Install,
}

/// The kind of toolchain a package asks for.
#[derive(Clone, Copy, Debug, PartialEq, Eq, Structural)]
pub enum ToolchainType {
    LLVM,
}

/// A toolchain setting: its kind and the version text after the dash.
#[derive(Clone, Debug)]
pub struct ToolchainCfg {
    pub ty: ToolchainType,
    pub version: String,
}

/// Why a toolchain setting could not be read.
#[derive(Clone, Debug)]
pub enum BadFieldDataError {
    /// The kind before the dash is not supported; holds it in lower case.
    ToolchainTypeUnsupported { request: String },
    /// The setting has no dash between kind and version.
    ToolchainMissingDash,
}

/// The lower-case form of a text, as `str::to_lowercase` gives it.
pub uninterp spec fn lowercase_of(s: Seq<char>) -> Seq<char>;

/// Relies on `str::to_lowercase`: the result depends on the characters alone.
#[verifier::external_body]
fn lowercase(s: &str) -> (r: String)
    ensures
        r@ == lowercase_of(s@),
{
    s.to_lowercase()
}

impl ToolchainType {
    /// Reads a toolchain kind; only `llvm` is supported.
    pub fn parse(s: &str) -> (r: Result<ToolchainType, BadFieldDataError>)
        ensures
            s@ == "llvm"@ ==> r matches Ok(ToolchainType::LLVM),
            s@ != "llvm"@ ==> (r matches Err(BadFieldDataError::ToolchainTypeUnsupported { request })
                && request@ == lowercase_of(s@)),
    {
        let lower = lowercase(s);
        if text_eq(s, "llvm") {
            Ok(ToolchainType::LLVM)
        } else {
            Err(BadFieldDataError::ToolchainTypeUnsupported { request: lower })
        }
    }
}

/// Where the first dash of `s` stands; `s.len()` when there is none.
pub open spec fn first_dash(s: Seq<char>) -> nat
    decreases s.len(),
{
    if s.len() == 0 {
        0
    } else if s[0] == '-' {
        0
    } else {
        1 + first_dash(s.drop_first())
    }
}

proof fn lemma_first_dash(s: Seq<char>, i: int)
    requires
        0 <= i <= s.len(),
        forall|k: int| 0 <= k < i ==> s[k] != '-',
        i == s.len() || s[i] == '-',
    ensures
        first_dash(s) == i,
    decreases s.len(),
{
    if s.len() > 0 && i > 0 {
        let t = s.drop_first();
        assert forall|k: int| 0 <= k < i - 1 implies t[k] != '-' by {
            assert(t[k] == s[k + 1]);
        }
        if i < s.len() {
            assert(t[i - 1] == s[i]);
        }
        lemma_first_dash(t, i - 1);
    }
}

/// The kind part of a toolchain setting: what precedes the first dash.
pub open spec fn toolchain_kind(s: Seq<char>) -> Seq<char> {
    s.subrange(0, first_dash(s) as int)
}

/// The version part of a toolchain setting: what follows the first dash.
pub open spec fn toolchain_version(s: Seq<char>) -> Seq<char> {
    s.subrange(first_dash(s) as int + 1, s.len() as int)
}

/// A toolchain setting is read when it has a dash and its kind is `llvm`.
pub open spec fn toolchain_parses(s: Seq<char>) -> bool {
    first_dash(s) < s.len() && toolchain_kind(s) == "llvm"@
}

/// `e` is the error for a toolchain setting `s` that is not read.
pub open spec fn toolchain_error(s: Seq<char>, e: BadFieldDataError) -> bool {
    if first_dash(s) >= s.len() {
        e is ToolchainMissingDash
    } else {
        e matches BadFieldDataError::ToolchainTypeUnsupported { request } && request@ == lowercase_of(
            toolchain_kind(s),
        )
    }
}

impl ToolchainCfg {
    /// Reads `<kind>-<version>`, split at the first dash.
    pub fn parse(s: &str) -> (r: Result<ToolchainCfg, BadFieldDataError>)
        ensures
            toolchain_parses(s@) ==> (r matches Ok(cfg) && cfg.ty == ToolchainType::LLVM
                && cfg.version@ == toolchain_version(s@)),
            !toolchain_parses(s@) ==> (r matches Err(e) && toolchain_error(s@, e)),
    {
        match find_char(s, '-') {
            None => {
                proof {
                    lemma_first_dash(s@, s@.len() as int);
                }
                Err(BadFieldDataError::ToolchainMissingDash)
            },
            Some(i) => {
                proof {
                    lemma_first_dash(s@, i as int);
                }
                let n = s.unicode_len();
                let left = s.substring_char(0, i);
                let right = s.substring_char(i + 1, n);
                let ty = ToolchainType::parse(left)?;
                Ok(ToolchainCfg { ty, version: String::from_str(right) })
            },
        }
    }
}

/// Why the package's upload settings could not be read.
#[derive(Clone, Debug)]
pub enum MetadataError {
    /// A setting has a value of the wrong kind.
    BadFieldType { field: String, expected: String, found: String },
    /// The icon setting names no known icon.
    InvalidIcon(String),
    /// The strategy setting names no known strategy.
    InvalidUploadStrategy(String),
    /// The toolchain setting is malformed.
    BadFieldData(BadFieldDataError),
}

/// `e` reports that setting `field`, expected of kind `expected`, held `v`.
pub open spec fn is_bad_type(e: MetadataError, field: Seq<char>, expected: Seq<char>, v: FieldValue) -> bool {
    e matches MetadataError::BadFieldType { field: f, expected: x, found: k } && f@ == field && x@
        == expected && k@ == kind_name(v)
}

fn bad_type(field: &str, expected: &str, v: &FieldValue) -> (e: MetadataError)
    ensures
        is_bad_type(e, field@, expected@, *v),
{
    MetadataError::BadFieldType {
        field: String::from_str(field),
        expected: String::from_str(expected),
        found: String::from_str(field_type(v)),
    }
}

/// The value stored under `key`: the first entry with that key.
pub open spec fn lookup(entries: Seq<(String, FieldValue)>, key: Seq<char>) -> Option<FieldValue>
    decreases entries.len(),
{
    if entries.len() == 0 {
        None
    } else if entries[0].0@ == key {
        Some(entries[0].1)
    } else {
        lookup(entries.drop_first(), key)
    }
}

/// The value behind an optional reference.
pub open spec fn field_of(v: Option<&FieldValue>) -> Option<FieldValue> {
    match v {
        Some(x) => Some(*x),
        None => None,
    }
}

/// Finds the value stored under `key`.
pub fn get_field<'a>(entries: &'a Vec<(String, FieldValue)>, key: &str) -> (r: Option<&'a FieldValue>)
    ensures
        field_of(r) == lookup(entries@, key@),
{
    let n = entries.len();
    let mut i: usize = 0;
    assert(entries@.subrange(0, n as int) =~= entries@);
    while i < n
        invariant
            n == entries@.len(),
            i <= n,
            lookup(entries@, key@) == lookup(entries@.subrange(i as int, n as int), key@),
        decreases n - i,
    {
        let ghost rest = entries@.subrange(i as int, n as int);
        assert(rest.drop_first() =~= entries@.subrange(i + 1, n as int));
        if text_eq(entries[i].0.as_str(), key) {
            return Some(&entries[i].1);
        }
        i = i + 1;
    }
    assert(entries@.subrange(n as int, n as int).len() == 0);
    None
}

/// A slot setting is absent or a non-negative integer.
pub open spec fn slot_ok(v: Option<FieldValue>) -> bool {
    v is None || v matches Some(FieldValue::Number(Some(_)))
}

/// The slot a well-formed setting gives, kept to its low byte.
pub open spec fn slot_value(v: Option<FieldValue>) -> Option<u8> {
    match v {
        Some(FieldValue::Number(Some(n))) => Some((n % 256) as u8),
        _ => None,
    }
}

/// The error for a malformed slot setting.
pub open spec fn slot_error(v: Option<FieldValue>, e: MetadataError) -> bool {
    is_bad_type(e, "slot"@, "integer"@, v->0)
}

/// An icon setting is absent or the name of a known icon.
pub open spec fn icon_ok(v: Option<FieldValue>) -> bool {
    match v {
        None => true,
        Some(FieldValue::Text(s)) => icon_named(s@) is Some,
        _ => false,
    }
}

/// The icon a well-formed setting gives.
pub open spec fn icon_value(v: Option<FieldValue>) -> Option<ProgramIcon> {
    match v {
        Some(FieldValue::Text(s)) => icon_named(s@),
        _ => None,
    }
}

/// The error for a malformed icon setting.
pub open spec fn icon_error(v: Option<FieldValue>, e: MetadataError) -> bool {
    match v {
        Some(FieldValue::Text(s)) => e matches MetadataError::InvalidIcon(t) && t@ == s@,
        _ => is_bad_type(e, "icon"@, "string"@, v->0),
    }
}

/// A compression setting is absent or a boolean.
pub open spec fn compress_ok(v: Option<FieldValue>) -> bool {
    v is None || v matches Some(FieldValue::Bool(_))
}

/// The compression choice a well-formed setting gives.
pub open spec fn compress_value(v: Option<FieldValue>) -> Option<bool> {
    match v {
        Some(FieldValue::Bool(b)) => Some(b),
        _ => None,
    }
}

/// The error for a malformed compression setting.
pub open spec fn compress_error(v: Option<FieldValue>, e: MetadataError) -> bool {
    is_bad_type(e, "compress"@, "bool"@, v->0)
}

/// A strategy setting is absent or the name of a strategy.
pub open spec fn strategy_ok(v: Option<FieldValue>) -> bool {
    match v {
        None => true,
        Some(FieldValue::Text(s)) => strategy_named(s@) is Some,
        _ => false,
    }
}

/// The strategy a well-formed setting gives.
pub open spec fn strategy_value(v: Option<FieldValue>) -> Option<UploadStrategy> {
    match v {
        Some(FieldValue::Text(s)) => strategy_named(s@),
        _ => None,
    }
}

/// The error for a malformed strategy setting.
pub open spec fn strategy_error(v: Option<FieldValue>, e: MetadataError) -> bool {
    match v {
        Some(FieldValue::Text(s)) => e matches MetadataError::InvalidUploadStrategy(t) && t@ == s@,
        _ => is_bad_type(e, "upload-strategy"@, "string"@, v->0),
    }
}

/// A toolchain setting is absent or `<kind>-<version>` text of a supported kind.
pub open spec fn toolchain_ok(v: Option<FieldValue>) -> bool {
    match v {
        None => true,
        Some(FieldValue::Text(s)) => toolchain_parses(s@),
        _ => false,
    }
}

/// `c` is what a well-formed toolchain setting gives.
pub open spec fn toolchain_value_is(v: Option<FieldValue>, c: Option<ToolchainCfg>) -> bool {
    match v {
        None => c is None,
        Some(FieldValue::Text(s)) => c matches Some(cfg) && cfg.ty == ToolchainType::LLVM
            && cfg.version@ == toolchain_version(s@),
        _ => false,
    }
}

/// The error for a malformed toolchain setting.
pub open spec fn toolchain_setting_error(v: Option<FieldValue>, e: MetadataError) -> bool {
    match v {
        Some(FieldValue::Text(s)) => e matches MetadataError::BadFieldData(be) && toolchain_error(s@, be),
        _ => is_bad_type(e, "toolchain"@, "table"@, v->0),
    }
}

/// The slot setting: a non-negative integer, kept to its low byte (the range
/// is checked later).
pub fn slot_setting(v: Option<&FieldValue>) -> (r: Result<Option<u8>, MetadataError>)
    ensures
        slot_ok(field_of(v)) ==> r == Ok::<Option<u8>, MetadataError>(slot_value(field_of(v))),
        !slot_ok(field_of(v)) ==> (r matches Err(e) && slot_error(field_of(v), e)),
{
    match v {
        None => Ok(None),
        Some(FieldValue::Number(Some(n))) => Ok(Some((*n % 256) as u8)),
        Some(other) => Err(bad_type("slot", "integer", other)),
    }
}

/// The icon setting: the name of a known icon.
pub fn icon_setting(v: Option<&FieldValue>) -> (r: Result<Option<ProgramIcon>, MetadataError>)
    ensures
        icon_ok(field_of(v)) ==> r == Ok::<Option<ProgramIcon>, MetadataError>(icon_value(field_of(v))),
        !icon_ok(field_of(v)) ==> (r matches Err(e) && icon_error(field_of(v), e)),
{
    match v {
        None => Ok(None),
        Some(FieldValue::Text(s)) => match ProgramIcon::from_name(s.as_str()) {
            Some(icon) => Ok(Some(icon)),
            None => Err(MetadataError::InvalidIcon(s.clone())),
        },
        Some(other) => Err(bad_type("icon", "string", other)),
    }
}

/// The compression setting: a boolean.
pub fn compress_setting(v: Option<&FieldValue>) -> (r: Result<Option<bool>, MetadataError>)
    ensures
        compress_ok(field_of(v)) ==> r == Ok::<Option<bool>, MetadataError>(compress_value(field_of(v))),
        !compress_ok(field_of(v)) ==> (r matches Err(e) && compress_error(field_of(v), e)),
{
    match v {
        None => Ok(None),
        Some(FieldValue::Bool(b)) => Ok(Some(*b)),
        Some(other) => Err(bad_type("compress", "bool", other)),
    }
}

/// The upload strategy setting: the name of a strategy.
pub fn strategy_setting(v: Option<&FieldValue>) -> (r: Result<Option<UploadStrategy>, MetadataError>)
    ensures
        strategy_ok(field_of(v)) ==> r == Ok::<Option<UploadStrategy>, MetadataError>(
            strategy_value(field_of(v)),
        ),
        !strategy_ok(field_of(v)) ==> (r matches Err(e) && strategy_error(field_of(v), e)),
{
    match v {
        None => Ok(None),
        Some(FieldValue::Text(s)) => match strategy_from_name(s.as_str()) {
            Some(st) => Ok(Some(st)),
            None => Err(MetadataError::InvalidUploadStrategy(s.clone())),
        },
        Some(other) => Err(bad_type("upload-strategy", "string", other)),
    }
}

/// The toolchain setting: `<kind>-<version>` text.
pub fn toolchain_setting(v: Option<&FieldValue>) -> (r: Result<Option<ToolchainCfg>, MetadataError>)
    ensures
        toolchain_ok(field_of(v)) ==> (r matches Ok(c) && toolchain_value_is(field_of(v), c)),
        !toolchain_ok(field_of(v)) ==> (r matches Err(e) && toolchain_setting_error(field_of(v), e)),
{
    match v {
        None => Ok(None),
        Some(FieldValue::Text(s)) => match ToolchainCfg::parse(s.as_str()) {
            Ok(cfg) => Ok(Some(cfg)),
            Err(e) => Err(MetadataError::BadFieldData(e)),
        },
        Some(other) => Err(bad_type("toolchain", "table", other)),
    }
}

/// Upload settings from the package's `v5` metadata table.
#[derive(Clone, Debug)]
pub struct Metadata {
    pub slot: Option<u8>,
    pub icon: Option<ProgramIcon>,
    pub compress: Option<bool>,
    pub upload_strategy: Option<UploadStrategy>,
    pub toolchain: Option<ToolchainCfg>,
}

impl Metadata {
    /// No settings at all.
    pub fn empty() -> (r: Metadata)
        ensures
            r.slot is None && r.icon is None && r.compress is None && r.upload_strategy is None
                && r.toolchain is None,
    {
        Metadata { slot: None, icon: None, compress: None, upload_strategy: None, toolchain: None }
    }

    /// Reads the settings from the entries of the package's `v5` table;
    /// `None` when the package has no such table, which gives no settings.
    /// Settings are read in the order slot, icon, compress, upload-strategy,
    /// toolchain, and the first malformed one is reported.
    pub fn from_fields(table: Option<&Vec<(String, FieldValue)>>) -> (r: Result<Metadata, MetadataError>)
        ensures
            table is None ==> (r matches Ok(m) && m.slot is None && m.icon is None && m.compress
                is None && m.upload_strategy is None && m.toolchain is None),
            table matches Some(t) ==> {
                let vs = lookup(t@, "slot"@);
                let vi = lookup(t@, "icon"@);
                let vc = lookup(t@, "compress"@);
                let vu = lookup(t@, "upload-strategy"@);
                let vt = lookup(t@, "toolchain"@);
                if !slot_ok(vs) {
                    r matches Err(e) && slot_error(vs, e)
                } else if !icon_ok(vi) {
                    r matches Err(e) && icon_error(vi, e)
                } else if !compress_ok(vc) {
                    r matches Err(e) && compress_error(vc, e)
                } else if !strategy_ok(vu) {
                    r matches Err(e) && strategy_error(vu, e)
                } else if !toolchain_ok(vt) {
                    r matches Err(e) && toolchain_setting_error(vt, e)
                } else {
                    r matches Ok(m) && m.slot == slot_value(vs) && m.icon == icon_value(vi)
                        && m.compress == compress_value(vc) && m.upload_strategy == strategy_value(vu)
                        && toolchain_value_is(vt, m.toolchain)
                }
            },
    {
        let t = match table {
            None => {
                return Ok(Metadata::empty());
            },
            Some(t) => t,
        };
        let slot = slot_setting(get_field(t, "slot"))?;
        let icon = icon_setting(get_field(t, "icon"))?;
        let compress = compress_setting(get_field(t, "compress"))?;
        let upload_strategy = strategy_setting(get_field(t, "upload-strategy"))?;
        let toolchain = toolchain_setting(get_field(t, "toolchain"))?;
        Ok(Metadata { slot, icon, compress, upload_strategy, toolchain })
    }
}

} // verus!
