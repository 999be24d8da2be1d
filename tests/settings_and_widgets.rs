use cargo_v5::handshake::UploadError;
use cargo_v5::names::{icon_bitmap_name, slot_file_name, starts_with, text_eq};
use cargo_v5::options::{resolve_slot, resolve_upload, UploadOpts};
use cargo_v5::settings::{
    field_type, strategy_from_name, BadFieldDataError, FieldValue, Metadata, MetadataError, ProgramIcon,
    ToolchainCfg, ToolchainType, DEFAULT_ICON,
};
use cargo_v5::tools::{cache_is_fresh, Config, ExternalUpdateManager, FileCompleter, SelfUpdateMode};
use cargo_v5::upload::UploadStrategy;
use cargo_v5::widgets::{set_duration_digit, CursorPos, DurationInput, HelpPopup, Mode};
use cargo_v5::workspace::{ChangesCtx, FileChange, FileOperationStore, FileOperationsDisplay};

#[test]
fn duration_digits_edit_mm_ss() {
    // 01:45 is 105 seconds.
    assert_eq!(set_duration_digit(2, 0, 105), 1305);
    assert_eq!(set_duration_digit(3, 1, 105), 225);
    assert_eq!(set_duration_digit(2, 2, 105), 85);
    assert_eq!(set_duration_digit(9, 2, 105), 115);
    assert_eq!(set_duration_digit(0, 3, 105), 100);
    assert_eq!(set_duration_digit(7, 3, 0), 7);
}

#[test]
fn cursor_moves_within_four_digits() {
    let mut c = CursorPos(0);
    c.move_left();
    assert_eq!(c, CursorPos(0));
    c.move_right();
    c.move_right();
    c.move_right();
    c.move_right();
    assert_eq!(c, CursorPos(3));
    c.move_left();
    assert_eq!(c, CursorPos(2));
}

#[test]
fn duration_input_and_mode_state() {
    let mut input = DurationInput::new(15);
    assert_eq!(input.cursor_position, 0);
    assert!(!input.selected);
    input.set_cursor_position(1);
    assert_eq!(input.cursor_column(), 1);
    input.set_cursor_position(3);
    assert_eq!(input.cursor_column(), 4);

    let mut mode = Mode::new("Auto".to_string(), 15);
    assert!(!mode.selected && !mode.current);
    mode.set_cursor_position(2);
    assert_eq!(mode.input.cursor_position, 2);
    mode.select();
    assert!(mode.selected && mode.input.selected);
    assert_eq!(mode.input.duration_secs, 15);
    assert_eq!(HelpPopup::LINES, 9);
    assert!(HelpPopup::HELP_TEXT.starts_with("'q', 'esc'"));
}

#[test]
fn icons_by_name_and_number() {
    assert_eq!(ProgramIcon::from_name("cool-x"), Some(ProgramIcon::CoolX));
    assert_eq!(ProgramIcon::from_name("robot-mesh-js"), Some(ProgramIcon::RobotMeshJS));
    assert_eq!(ProgramIcon::from_name("vexcode-cpp"), Some(ProgramIcon::VexcodeCpp));
    assert_eq!(ProgramIcon::from_name("CoolX"), None);
    assert_eq!(ProgramIcon::Pros.id(), 902);
    assert_eq!(DEFAULT_ICON.id(), 2);
    assert_eq!(icon_bitmap_name(ProgramIcon::Pros.id()), "USER902x.bmp");
    assert_eq!(icon_bitmap_name(ProgramIcon::Pizza.id()), "USER003x.bmp");
    assert_eq!(strategy_from_name("differential"), Some(UploadStrategy::Differential));
    assert_eq!(strategy_from_name("monolith"), Some(UploadStrategy::Monolith));
    assert_eq!(strategy_from_name("Monolith"), None);
}

#[test]
fn texts_and_file_names() {
    assert_eq!(slot_file_name(3, ".base.bin"), "slot_3.base.bin");
    assert_eq!(slot_file_name(8, ".ini"), "slot_8.ini");
    assert!(text_eq("abc", "abc"));
    assert!(!text_eq("abc", "abd"));
    assert!(!text_eq("abc", "ab"));
    assert!(starts_with("/opt/homebrew/bin/cargo-v5", "/opt/homebrew/bin/"));
    assert!(!starts_with("/usr/bin/cargo-v5", "/opt/homebrew/bin/"));
    assert!(starts_with("anything", ""));
}

fn table(entries: Vec<(&str, FieldValue)>) -> Vec<(String, FieldValue)> {
    entries.into_iter().map(|(k, v)| (k.to_string(), v)).collect()
}

#[test]
fn metadata_reads_each_setting() {
    let t = table(vec![
        ("slot", FieldValue::Number(Some(3))),
        ("icon", FieldValue::Text("alien".to_string())),
        ("compress", FieldValue::Bool(false)),
        ("upload-strategy", FieldValue::Text("differential".to_string())),
        ("toolchain", FieldValue::Text("llvm-21.1.1".to_string())),
    ]);
    let m = Metadata::from_fields(Some(&t)).unwrap();
    assert_eq!(m.slot, Some(3));
    assert_eq!(m.icon, Some(ProgramIcon::Alien));
    assert_eq!(m.compress, Some(false));
    assert_eq!(m.upload_strategy, Some(UploadStrategy::Differential));
    let tc = m.toolchain.unwrap();
    assert_eq!(tc.ty, ToolchainType::LLVM);
    assert_eq!(tc.version, "21.1.1");

    let none = Metadata::from_fields(None).unwrap();
    assert!(none.slot.is_none() && none.icon.is_none() && none.toolchain.is_none());
    let empty = Metadata::from_fields(Some(&Vec::new())).unwrap();
    assert!(empty.compress.is_none() && empty.upload_strategy.is_none());
    let big = Metadata::from_fields(Some(&table(vec![("slot", FieldValue::Number(Some(258)))]))).unwrap();
    assert_eq!(big.slot, Some(2));
}

#[test]
fn metadata_reports_bad_settings() {
    match Metadata::from_fields(Some(&table(vec![("slot", FieldValue::Text("1".to_string()))]))) {
        Err(MetadataError::BadFieldType { field, expected, found }) => {
            assert_eq!((field.as_str(), expected.as_str(), found.as_str()), ("slot", "integer", "string"));
        }
        _ => panic!("expected a bad field type"),
    }
    match Metadata::from_fields(Some(&table(vec![("icon", FieldValue::Text("nope".to_string()))]))) {
        Err(MetadataError::InvalidIcon(name)) => assert_eq!(name, "nope"),
        _ => panic!("expected an invalid icon"),
    }
    match Metadata::from_fields(Some(&table(vec![("compress", FieldValue::Number(Some(1)))]))) {
        Err(MetadataError::BadFieldType { field, found, .. }) => {
            assert_eq!((field.as_str(), found.as_str()), ("compress", "number"));
        }
        _ => panic!("expected a bad field type"),
    }
    match Metadata::from_fields(Some(&table(vec![("upload-strategy", FieldValue::Text("fast".to_string()))]))) {
        Err(MetadataError::InvalidUploadStrategy(name)) => assert_eq!(name, "fast"),
        _ => panic!("expected an invalid strategy"),
    }
    match Metadata::from_fields(Some(&table(vec![("upload-strategy", FieldValue::Bool(true))]))) {
        Err(MetadataError::BadFieldType { field, expected, found }) => {
            assert_eq!((field.as_str(), expected.as_str(), found.as_str()), ("upload-strategy", "string", "bool"));
        }
        _ => panic!("expected a bad field type"),
    }
    // The first malformed setting, in reading order, is the one reported.
    let both = table(vec![
        ("compress", FieldValue::Null),
        ("icon", FieldValue::Text("nope".to_string())),
    ]);
    assert!(matches!(Metadata::from_fields(Some(&both)), Err(MetadataError::InvalidIcon(_))));
    match Metadata::from_fields(Some(&table(vec![("toolchain", FieldValue::Text("gcc".to_string()))]))) {
        Err(MetadataError::BadFieldData(BadFieldDataError::ToolchainMissingDash)) => {}
        _ => panic!("expected a missing dash"),
    }
    match Metadata::from_fields(Some(&table(vec![("toolchain", FieldValue::Array)]))) {
        Err(MetadataError::BadFieldType { field, expected, found }) => {
            assert_eq!((field.as_str(), expected.as_str(), found.as_str()), ("toolchain", "table", "array"));
        }
        _ => panic!("expected a bad field type"),
    }
    assert_eq!(field_type(&FieldValue::Null), "null");
    assert_eq!(field_type(&FieldValue::Object), "object");
}

#[test]
fn toolchain_settings_parse() {
    assert!(matches!(ToolchainCfg::parse("llvm"), Err(BadFieldDataError::ToolchainMissingDash)));
    match ToolchainCfg::parse("GCC-13-2") {
        Err(BadFieldDataError::ToolchainTypeUnsupported { request }) => assert_eq!(request, "gcc"),
        _ => panic!("expected an unsupported type"),
    }
    let cfg = ToolchainCfg::parse("llvm-19-rc").unwrap();
    assert_eq!(cfg.version, "19-rc");
    assert!(matches!(ToolchainType::parse("LLVM"), Err(BadFieldDataError::ToolchainTypeUnsupported { .. })));
}

fn no_opts() -> UploadOpts {
    UploadOpts {
        slot: None,
        name: None,
        description: None,
        icon: None,
        uncompressed: None,
        upload_strategy: None,
        cold: false,
    }
}

#[test]
fn upload_options_fall_back_in_order() {
    assert_eq!(resolve_slot(None, None), Err(UploadError::NoSlot));
    assert_eq!(resolve_slot(Some(9), None), Err(UploadError::SlotOutOfRange));
    assert_eq!(resolve_slot(Some(0), None), Err(UploadError::SlotOutOfRange));
    let meta = Metadata {
        slot: Some(4),
        icon: Some(ProgramIcon::Robot),
        compress: Some(false),
        upload_strategy: Some(UploadStrategy::Differential),
        toolchain: None,
    };
    assert_eq!(resolve_slot(None, Some(&meta)), Ok(4));
    assert_eq!(resolve_slot(Some(8), Some(&meta)), Ok(8));

    let r = resolve_upload(no_opts(), Some(&meta), Some("robot".to_string()), None).unwrap();
    assert_eq!(r.slot, 4);
    assert_eq!(r.name, "robot");
    assert_eq!(r.description, "Uploaded with cargo-v5.");
    assert_eq!(r.icon, ProgramIcon::Robot);
    assert!(!r.compress);
    assert_eq!(r.strategy, UploadStrategy::Differential);

    let mut opts = no_opts();
    opts.slot = Some(1);
    opts.uncompressed = Some(false);
    opts.name = Some("mine".to_string());
    let r = resolve_upload(opts, Some(&meta), Some("robot".to_string()), Some("desc".to_string())).unwrap();
    assert_eq!(r.slot, 1);
    assert_eq!(r.name, "mine");
    assert_eq!(r.description, "desc");
    assert!(r.compress);

    let mut opts = no_opts();
    opts.slot = Some(2);
    let r = resolve_upload(opts, None, None, None).unwrap();
    assert_eq!(r.name, "cargo-v5");
    assert_eq!(r.icon, ProgramIcon::QuestionMark);
    assert!(r.compress);
    assert_eq!(r.strategy, UploadStrategy::Monolith);
    assert!(resolve_upload(no_opts(), None, None, None).is_err());
}

#[test]
fn self_update_mode_detection() {
    assert_eq!(SelfUpdateMode::detect("/home/u/.cargo/bin/cargo-v5", true, "/opt/homebrew/bin/", true), SelfUpdateMode::Cargo);
    assert_eq!(
        SelfUpdateMode::detect("/opt/homebrew/bin/cargo-v5", false, "/opt/homebrew/bin/", true),
        SelfUpdateMode::Unmanaged(Some(ExternalUpdateManager::Homebrew))
    );
    assert_eq!(SelfUpdateMode::detect("/usr/bin/cargo-v5", false, "/opt/homebrew/bin/", true), SelfUpdateMode::Axoupdate);
    assert_eq!(SelfUpdateMode::detect("", true, "", false), SelfUpdateMode::Unmanaged(None));
    assert_eq!(SelfUpdateMode::Cargo.advice(), None);
    assert_eq!(
        SelfUpdateMode::Unmanaged(Some(ExternalUpdateManager::Homebrew)).advice(),
        Some("run `brew upgrade cargo-v5`")
    );
    assert_eq!(Config::default().defaults.slot, None);
}

#[test]
fn completion_filters_by_prefix() {
    let files = vec!["slot_1.bin".to_string(), "slot_1.ini".to_string(), "log.txt".to_string()];
    assert_eq!(FileCompleter.complete(&files, "slot_1."), vec!["slot_1.bin".to_string(), "slot_1.ini".to_string()]);
    assert_eq!(FileCompleter.complete(&files, "").len(), 3);
    assert!(FileCompleter.complete(&files, "x").is_empty());
    assert!(cache_is_fresh(1000, 500));
    assert!(!cache_is_fresh(1100, 500));
    assert!(!cache_is_fresh(400, 500));
}

#[test]
fn pending_changes_keep_the_latest() {
    let mut store = FileOperationStore::new("/work".to_string());
    assert_eq!(store.root(), "/work");
    assert!(store.pending("Cargo.toml").is_none());
    store.record("Cargo.toml".to_string(), FileChange::Change("a".to_string()));
    store.record("old.json".to_string(), FileChange::Delete);
    store.record("Cargo.toml".to_string(), FileChange::Change("b".to_string()));
    assert!(matches!(store.pending("Cargo.toml"), Some(FileChange::Change(c)) if c == "b"));
    assert!(matches!(store.pending("old.json"), Some(FileChange::Delete)));

    let plain = FileOperationsDisplay { show_contents: true, highlight: false };
    assert_eq!(plain.header("Cargo.toml", &FileChange::Change(String::new()), false), "File modified: Cargo.toml");
    assert_eq!(plain.header("a.json", &FileChange::Delete, false), "File deleted: a.json");
    let coloured = FileOperationsDisplay { show_contents: false, highlight: true };
    assert_eq!(coloured.header("x.toml", &FileChange::Change(String::new()), true), "File created x.toml");

    let mut ctx = ChangesCtx::new("/work".to_string());
    assert!(!ctx.will_disable_rustup_override);
    ctx.describe("Updated to Rust 2024 edition".to_string());
    assert_eq!(ctx.description, vec!["Updated to Rust 2024 edition".to_string()]);
    assert_eq!(ctx.fs.root(), "/work");
}
