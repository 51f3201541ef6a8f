//! The declarative configuration model: global render options plus an
//! ordered sequence of sections, each a module selector with optional
//! before/after decoration text. The order of `sections` is the render
//! order and is significant.

use vstd::prelude::*;

verus! {

/// Selects what one section of the status line shows.
#[derive(Debug, PartialEq)]
pub enum Module {
    Timestamp { template: String },
    MemoryUsage,
    SwapUsage,
    CpuUsage,
    ProcessCount,
    DiskUsage { name: String },
    DiskUsageTotal { include_removables: bool },
}

/// Optional text placed before and after a section's rendered module.
#[derive(Debug, PartialEq)]
pub struct Decoration {
    pub before: Option<String>,
    pub after: Option<String>,
}

/// One renderable slot of the status line.
#[derive(Debug, PartialEq)]
pub struct Section {
    pub module: Module,
    pub decoration: Decoration,
}

/// The whole configuration a render tick consumes.
#[derive(Debug, PartialEq)]
pub struct Config {
    pub separator: String,
    pub update_interval_ms: u64,
    pub decimal_data_units: bool,
    pub sections: Vec<Section>,
}

/// The mathematical model of a `Module`.
#[verifier::ext_equal]
pub ghost enum ModuleV {
    Timestamp { template: Seq<char> },
    MemoryUsage,
    SwapUsage,
    CpuUsage,
    ProcessCount,
    DiskUsage { name: Seq<char> },
    DiskUsageTotal { include_removables: bool },
}

/// The mathematical model of a `Decoration`.
#[verifier::ext_equal]
pub ghost struct DecorationV {
    pub before: Option<Seq<char>>,
    pub after: Option<Seq<char>>,
}

/// The mathematical model of a `Section`.
#[verifier::ext_equal]
pub ghost struct SectionV {
    pub module: ModuleV,
    pub decoration: DecorationV,
}

/// The mathematical model of a `Config`.
#[verifier::ext_equal]
pub ghost struct ConfigV {
    pub separator: Seq<char>,
    pub update_interval_ms: u64,
    pub decimal_data_units: bool,
    pub sections: Seq<SectionV>,
}

impl View for Module {
    type V = ModuleV;

    open spec fn view(&self) -> ModuleV {
        match self {
            Module::Timestamp { template } => ModuleV::Timestamp { template: template@ },
            Module::MemoryUsage => ModuleV::MemoryUsage,
            Module::SwapUsage => ModuleV::SwapUsage,
            Module::CpuUsage => ModuleV::CpuUsage,
            Module::ProcessCount => ModuleV::ProcessCount,
            Module::DiskUsage { name } => ModuleV::DiskUsage { name: name@ },
            Module::DiskUsageTotal { include_removables } => ModuleV::DiskUsageTotal {
                include_removables: *include_removables,
            },
        }
    }
}

impl View for Decoration {
    type V = DecorationV;

    open spec fn view(&self) -> DecorationV {
        DecorationV {
            before: match self.before {
                Some(s) => Some(s@),
                None => None,
            },
            after: match self.after {
                Some(s) => Some(s@),
                None => None,
            },
        }
    }
}

impl View for Section {
    type V = SectionV;

    open spec fn view(&self) -> SectionV {
        SectionV { module: self.module@, decoration: self.decoration@ }
    }
}

impl DeepView for Section {
    type V = SectionV;

    open spec fn deep_view(&self) -> SectionV {
        self.view()
    }
}

impl View for Config {
    type V = ConfigV;

    open spec fn view(&self) -> ConfigV {
        ConfigV {
            separator: self.separator@,
            update_interval_ms: self.update_interval_ms,
            decimal_data_units: self.decimal_data_units,
            sections: self.sections.deep_view(),
        }
    }
}

impl Clone for Module {
    fn clone(&self) -> (r: Self)
        ensures
            r@ == self@,
    {
        match self {
            Module::Timestamp { template } => Module::Timestamp { template: template.clone() },
            Module::MemoryUsage => Module::MemoryUsage,
            Module::SwapUsage => Module::SwapUsage,
            Module::CpuUsage => Module::CpuUsage,
            Module::ProcessCount => Module::ProcessCount,
            Module::DiskUsage { name } => Module::DiskUsage { name: name.clone() },
            Module::DiskUsageTotal { include_removables } => Module::DiskUsageTotal {
                include_removables: *include_removables,
            },
        }
    }
}

impl Clone for Decoration {
    fn clone(&self) -> (r: Self)
        ensures
            r@ == self@,
    {
        Decoration {
            before: match &self.before {
                Some(s) => Some(s.clone()),
                None => None,
            },
            after: match &self.after {
                Some(s) => Some(s.clone()),
                None => None,
            },
        }
    }
}

impl Clone for Section {
    fn clone(&self) -> (r: Self)
        ensures
            r@ == self@,
    {
        Section { module: self.module.clone(), decoration: self.decoration.clone() }
    }
}

impl Clone for Config {
    fn clone(&self) -> (r: Self)
        ensures
            r@ == self@,
    {
        let mut sections: Vec<Section> = Vec::new();
        let mut i: usize = 0;
        while i < self.sections.len()
            invariant
                i <= self.sections.len(),
                sections.len() == i,
                forall|j: int| 0 <= j < i ==> sections@[j]@ == self.sections@[j]@,
            decreases self.sections.len() - i,
        {
            sections.push(self.sections[i].clone());
            i = i + 1;
        }
        let r = Config {
            separator: self.separator.clone(),
            update_interval_ms: self.update_interval_ms,
            decimal_data_units: self.decimal_data_units,
            sections,
        };
        proof {
            assert(r.sections.deep_view() =~= self.sections.deep_view());
            assert(r@ =~= self@);
        }
        r
    }
}

/// The built-in default configuration: memory, one named disk, the disk
/// total, and a timestamp, separated by " | ", refreshed every second,
/// with binary units.
pub open spec fn default_config() -> ConfigV {
    ConfigV {
        separator: " | "@,
        update_interval_ms: 1000,
        decimal_data_units: false,
        sections: seq![
            SectionV {
                module: ModuleV::MemoryUsage,
                decoration: DecorationV { before: Some("dram "@), after: None },
            },
            SectionV {
                module: ModuleV::DiskUsage { name: "/dev/sda"@ },
                decoration: DecorationV { before: Some("sda "@), after: None },
            },
            SectionV {
                module: ModuleV::DiskUsageTotal { include_removables: false },
                decoration: DecorationV { before: Some("total "@), after: None },
            },
            SectionV {
                module: ModuleV::Timestamp { template: "%d/%m/%Y %H:%M"@ },
                decoration: DecorationV { before: None, after: None },
            },
        ],
    }
}

impl Default for Config {
    /// Synthesizes the built-in default configuration.
    fn default() -> (r: Self)
        ensures
            r@ == default_config(),
    {
        let mut sections: Vec<Section> = Vec::new();
        sections.push(Section {
            module: Module::MemoryUsage,
            decoration: Decoration { before: Some("dram ".to_owned()), after: None },
        });
        sections.push(Section {
            module: Module::DiskUsage { name: "/dev/sda".to_owned() },
            decoration: Decoration { before: Some("sda ".to_owned()), after: None },
        });
        sections.push(Section {
            module: Module::DiskUsageTotal { include_removables: false },
            decoration: Decoration { before: Some("total ".to_owned()), after: None },
        });
        sections.push(Section {
            module: Module::Timestamp { template: "%d/%m/%Y %H:%M".to_owned() },
            decoration: Decoration { before: None, after: None },
        });
        let r = Config {
            separator: " | ".to_owned(),
            update_interval_ms: 1000,
            decimal_data_units: false,
            sections,
        };
        proof {
            assert(r.sections.deep_view() =~= default_config().sections);
            assert(r@ =~= default_config());
        }
        r
    }
}

} // verus!
