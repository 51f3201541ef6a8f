use stringbar::config::{Config, Decoration, Module, Section};
use stringbar::store::{load_plan, ConfigStore, LoadPlan, ReadOutcome};

#[test]
fn default_config_contents() {
    let config = Config::default();
    assert_eq!(" | ", config.separator);
    assert_eq!(1000, config.update_interval_ms);
    assert!(!config.decimal_data_units);
    assert_eq!(4, config.sections.len());
    assert_eq!(Module::MemoryUsage, config.sections[0].module);
    assert_eq!(Some("dram ".to_string()), config.sections[0].decoration.before);
    assert_eq!(
        Module::DiskUsage { name: "/dev/sda".to_string() },
        config.sections[1].module
    );
    assert_eq!(
        Module::DiskUsageTotal { include_removables: false },
        config.sections[2].module
    );
    assert_eq!(
        Module::Timestamp { template: "%d/%m/%Y %H:%M".to_string() },
        config.sections[3].module
    );
    assert_eq!(None, config.sections[3].decoration.before);
    assert_eq!(None, config.sections[3].decoration.after);
}

#[test]
fn failed_reload_keeps_value_intact() {
    let mut store = ConfigStore::new(Config::default());
    let before = store.get_snapshot();
    assert!(matches!(load_plan(ReadOutcome::ParseFailed), LoadPlan::Fail));
    assert!(!store.apply_reload(None));
    assert_eq!(before, store.get_snapshot());
    assert!(!store.apply_reload(None));
    assert_eq!(before, store.get_snapshot());
}

#[test]
fn successful_reload_replaces_whole_value() {
    let mut store = ConfigStore::new(Config::default());
    let new_config = Config {
        separator: " / ".to_string(),
        update_interval_ms: 250,
        decimal_data_units: true,
        sections: vec![Section {
            module: Module::CpuUsage,
            decoration: Decoration { before: None, after: None },
        }],
    };
    let expected = Config {
        separator: " / ".to_string(),
        update_interval_ms: 250,
        decimal_data_units: true,
        sections: vec![Section {
            module: Module::CpuUsage,
            decoration: Decoration { before: None, after: None },
        }],
    };
    assert!(store.apply_reload(Some(new_config)));
    assert_eq!(expected, store.get_snapshot());
}

#[test]
fn replace_swaps_the_snapshot() {
    let mut store = ConfigStore::new(Config::default());
    let new_config = Config {
        separator: ", ".to_string(),
        update_interval_ms: 2000,
        decimal_data_units: false,
        sections: vec![],
    };
    store.replace(new_config);
    let snapshot = store.get_snapshot();
    assert_eq!(", ", snapshot.separator);
    assert_eq!(2000, snapshot.update_interval_ms);
    assert!(snapshot.sections.is_empty());
}

#[test]
fn load_adopts_parsed_config() {
    let config = Config {
        separator: " ".to_string(),
        update_interval_ms: 500,
        decimal_data_units: true,
        sections: vec![],
    };
    let expected = Config {
        separator: " ".to_string(),
        update_interval_ms: 500,
        decimal_data_units: true,
        sections: vec![],
    };
    let plan = load_plan(ReadOutcome::Parsed(config));
    assert_eq!(LoadPlan::UseParsed(expected), plan);
}

#[test]
fn load_writes_default_on_missing_file() {
    let plan = load_plan(ReadOutcome::Missing);
    assert_eq!(LoadPlan::WriteDefault(Config::default()), plan);
}

#[test]
fn unreadable_or_unparseable_file_fails_the_load() {
    assert_eq!(LoadPlan::Fail, load_plan(ReadOutcome::ParseFailed));
    assert_eq!(LoadPlan::Fail, load_plan(ReadOutcome::IoFailed));
}
