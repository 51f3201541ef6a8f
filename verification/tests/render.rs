use stringbar::config::{Config, Decoration, Module, Section};
use stringbar::render::{needed_metrics, render_tick, DiskInfo, MetricsSnapshot};

#[test]
fn separator_before_every_later_section_even_if_empty() {
    // The middle section's module renders the empty string, yet both
    // later sections still get a separator in front of them.
    let config = Config {
        separator: " | ".to_string(),
        update_interval_ms: 1000,
        decimal_data_units: false,
        sections: vec![
            Section {
                module: Module::ProcessCount,
                decoration: Decoration { before: None, after: None },
            },
            Section {
                module: Module::Timestamp { template: "".to_string() },
                decoration: Decoration { before: None, after: None },
            },
            Section {
                module: Module::ProcessCount,
                decoration: Decoration { before: None, after: None },
            },
        ],
    };
    let metrics = MetricsSnapshot {
        memory_used: 0,
        memory_total: 0,
        swap_used: 0,
        swap_total: 0,
        cpu_hundredths: 0,
        process_count: 5,
        disks: vec![],
    };
    let output = render_tick(&config, &metrics);
    assert_eq!("5 |  | 5".to_string(), output);
    assert_eq!(2, output.matches(" | ").count());
}

#[test]
fn no_separator_while_buffer_is_empty() {
    let config = Config {
        separator: " | ".to_string(),
        update_interval_ms: 1000,
        decimal_data_units: false,
        sections: vec![
            Section {
                module: Module::Timestamp { template: "".to_string() },
                decoration: Decoration { before: None, after: None },
            },
            Section {
                module: Module::ProcessCount,
                decoration: Decoration { before: None, after: None },
            },
        ],
    };
    let metrics = MetricsSnapshot {
        memory_used: 0,
        memory_total: 0,
        swap_used: 0,
        swap_total: 0,
        cpu_hundredths: 0,
        process_count: 7,
        disks: vec![],
    };
    assert_eq!("7".to_string(), render_tick(&config, &metrics));
}

#[test]
fn memory_cpu_and_decorations() {
    let config = Config {
        separator: " | ".to_string(),
        update_interval_ms: 1000,
        decimal_data_units: false,
        sections: vec![
            Section {
                module: Module::MemoryUsage,
                decoration: Decoration {
                    before: Some("dram ".to_string()),
                    after: Some("!".to_string()),
                },
            },
            Section {
                module: Module::CpuUsage,
                decoration: Decoration { before: None, after: None },
            },
        ],
    };
    let metrics = MetricsSnapshot {
        memory_used: 512,
        memory_total: 1024,
        swap_used: 0,
        swap_total: 0,
        cpu_hundredths: 1234,
        process_count: 0,
        disks: vec![],
    };
    assert_eq!(
        "dram 0.50/1.00 KiB! | 12.34%".to_string(),
        render_tick(&config, &metrics)
    );
}

#[test]
fn swap_respects_decimal_units() {
    let config = Config {
        separator: " ".to_string(),
        update_interval_ms: 1000,
        decimal_data_units: true,
        sections: vec![Section {
            module: Module::SwapUsage,
            decoration: Decoration { before: None, after: None },
        }],
    };
    let metrics = MetricsSnapshot {
        memory_used: 0,
        memory_total: 0,
        swap_used: 250_000_000,
        swap_total: 1_000_000_000,
        cpu_hundredths: 0,
        process_count: 0,
        disks: vec![],
    };
    assert_eq!("0.25/1.00 GB".to_string(), render_tick(&config, &metrics));
}

#[test]
fn disk_usage_finds_disk_by_exact_name() {
    let config = Config {
        separator: " | ".to_string(),
        update_interval_ms: 1000,
        decimal_data_units: false,
        sections: vec![Section {
            module: Module::DiskUsage { name: "/dev/sda".to_string() },
            decoration: Decoration { before: None, after: None },
        }],
    };
    let metrics = MetricsSnapshot {
        memory_used: 0,
        memory_total: 0,
        swap_used: 0,
        swap_total: 0,
        cpu_hundredths: 0,
        process_count: 0,
        disks: vec![
            DiskInfo {
                name: "/dev/sdb".to_string(),
                total_space: 4096,
                available_space: 4096,
                removable: false,
            },
            DiskInfo {
                name: "/dev/sda".to_string(),
                total_space: 1024,
                available_space: 512,
                removable: false,
            },
        ],
    };
    assert_eq!("0.50/1.00 KiB".to_string(), render_tick(&config, &metrics));
}

#[test]
fn disk_usage_absent_name_yields_sentinel() {
    let config = Config {
        separator: " | ".to_string(),
        update_interval_ms: 1000,
        decimal_data_units: false,
        sections: vec![Section {
            module: Module::DiskUsage { name: "/dev/missing".to_string() },
            decoration: Decoration { before: None, after: None },
        }],
    };
    let metrics = MetricsSnapshot {
        memory_used: 0,
        memory_total: 0,
        swap_used: 0,
        swap_total: 0,
        cpu_hundredths: 0,
        process_count: 0,
        disks: vec![DiskInfo {
            name: "/dev/sda".to_string(),
            total_space: 1024,
            available_space: 512,
            removable: false,
        }],
    };
    assert_eq!("N/A".to_string(), render_tick(&config, &metrics));
}

#[test]
fn disk_total_filters_removables_unless_included() {
    let disks = vec![
        DiskInfo {
            name: "/dev/sda".to_string(),
            total_space: 1024,
            available_space: 512,
            removable: false,
        },
        DiskInfo {
            name: "/dev/sdb".to_string(),
            total_space: 1024,
            available_space: 1024,
            removable: true,
        },
    ];
    let metrics = MetricsSnapshot {
        memory_used: 0,
        memory_total: 0,
        swap_used: 0,
        swap_total: 0,
        cpu_hundredths: 0,
        process_count: 0,
        disks,
    };
    let mut config = Config {
        separator: " | ".to_string(),
        update_interval_ms: 1000,
        decimal_data_units: false,
        sections: vec![Section {
            module: Module::DiskUsageTotal { include_removables: false },
            decoration: Decoration { before: None, after: None },
        }],
    };
    assert_eq!("0.50/1.00 KiB".to_string(), render_tick(&config, &metrics));
    config.sections = vec![Section {
        module: Module::DiskUsageTotal { include_removables: true },
        decoration: Decoration { before: None, after: None },
    }];
    assert_eq!("0.50/2.00 KiB".to_string(), render_tick(&config, &metrics));
}

#[test]
fn disk_sections_need_one_disk_listing() {
    // Both disk modules read the same memoized disk list: the needs
    // report a single flag, so the caller fetches the list once per tick.
    let config = Config {
        separator: " | ".to_string(),
        update_interval_ms: 1000,
        decimal_data_units: false,
        sections: vec![
            Section {
                module: Module::DiskUsage { name: "/dev/sda".to_string() },
                decoration: Decoration { before: None, after: None },
            },
            Section {
                module: Module::DiskUsageTotal { include_removables: false },
                decoration: Decoration { before: None, after: None },
            },
        ],
    };
    let needs = needed_metrics(&config);
    assert!(needs.disks);
    assert!(!needs.memory);
    assert!(!needs.swap);
    assert!(!needs.cpu);
    assert!(!needs.processes);
}

#[test]
fn needed_metrics_reports_each_family() {
    let config = Config {
        separator: " | ".to_string(),
        update_interval_ms: 1000,
        decimal_data_units: false,
        sections: vec![
            Section {
                module: Module::MemoryUsage,
                decoration: Decoration { before: None, after: None },
            },
            Section {
                module: Module::SwapUsage,
                decoration: Decoration { before: None, after: None },
            },
            Section {
                module: Module::CpuUsage,
                decoration: Decoration { before: None, after: None },
            },
            Section {
                module: Module::ProcessCount,
                decoration: Decoration { before: None, after: None },
            },
            Section {
                module: Module::Timestamp { template: "%H:%M".to_string() },
                decoration: Decoration { before: None, after: None },
            },
        ],
    };
    let needs = needed_metrics(&config);
    assert!(needs.memory);
    assert!(needs.swap);
    assert!(needs.cpu);
    assert!(needs.processes);
    assert!(!needs.disks);
}
