//! The render pipeline: consumes a configuration snapshot and a metrics
//! snapshot, evaluates each section's module, applies decoration, joins
//! with the separator, and produces the tick's status string. Metrics are
//! collected by the caller into plain values beforehand; `needed_metrics`
//! says which of them a given configuration asks for, so the disk list is
//! fetched at most once per tick and only when some section reads it.

use std::fmt::Write;

use vstd::prelude::*;
use vstd::string::StringExecFns;

use crate::config::{Config, ConfigV, DecorationV, Module, ModuleV, SectionV};
use crate::units::{byte_usage_str, dec_str, format_byte_usage, hundredths_str, render_hundredths, u64_to_dec};

verus! {

/// One disk of the metrics snapshot, as plain values.
pub struct DiskInfo {
    pub name: String,
    pub total_space: u64,
    pub available_space: u64,
    pub removable: bool,
}

/// The mathematical model of a `DiskInfo`.
#[verifier::ext_equal]
pub ghost struct DiskInfoV {
    pub name: Seq<char>,
    pub total_space: u64,
    pub available_space: u64,
    pub removable: bool,
}

impl View for DiskInfo {
    type V = DiskInfoV;

    open spec fn view(&self) -> DiskInfoV {
        DiskInfoV {
            name: self.name@,
            total_space: self.total_space,
            available_space: self.available_space,
            removable: self.removable,
        }
    }
}

impl DeepView for DiskInfo {
    type V = DiskInfoV;

    open spec fn deep_view(&self) -> DiskInfoV {
        self.view()
    }
}

/// One tick's metrics, collected up front as plain values. The CPU load
/// is carried in hundredths of a percent, so 1234 renders as "12.34%".
pub struct MetricsSnapshot {
    pub memory_used: u64,
    pub memory_total: u64,
    pub swap_used: u64,
    pub swap_total: u64,
    pub cpu_hundredths: u64,
    pub process_count: u64,
    pub disks: Vec<DiskInfo>,
}

/// The mathematical model of a `MetricsSnapshot`.
#[verifier::ext_equal]
pub ghost struct MetricsV {
    pub memory_used: u64,
    pub memory_total: u64,
    pub swap_used: u64,
    pub swap_total: u64,
    pub cpu_hundredths: u64,
    pub process_count: u64,
    pub disks: Seq<DiskInfoV>,
}

impl View for MetricsSnapshot {
    type V = MetricsV;

    open spec fn view(&self) -> MetricsV {
        MetricsV {
            memory_used: self.memory_used,
            memory_total: self.memory_total,
            swap_used: self.swap_used,
            swap_total: self.swap_total,
            cpu_hundredths: self.cpu_hundredths,
            process_count: self.process_count,
            disks: self.disks.deep_view(),
        }
    }
}

/// A metrics snapshot is well formed when no disk reports more available
/// than total space and the sum of all total spaces fits in a u64 (so
/// aggregation cannot overflow).
pub open spec fn metrics_wf(metrics: MetricsV) -> bool {
    &&& forall|i: int|
        0 <= i < metrics.disks.len() ==> (#[trigger] metrics.disks[i]).available_space
            <= metrics.disks[i].total_space
    &&& disk_agg(metrics.disks, true).1 <= u64::MAX
}

/// The (used, total) aggregate over a disk list, filtering out removable
/// disks unless `include_removables` is set; used = total - available.
pub open spec fn disk_agg(disks: Seq<DiskInfoV>, include_removables: bool) -> (int, int)
    decreases disks.len(),
{
    if disks.len() == 0 {
        (0, 0)
    } else {
        let rest = disk_agg(disks.drop_last(), include_removables);
        let d = disks.last();
        if include_removables || !d.removable {
            (rest.0 + d.total_space - d.available_space, rest.1 + d.total_space)
        } else {
            rest
        }
    }
}

/// The first disk of the list bearing the given name, if any.
pub open spec fn find_disk(disks: Seq<DiskInfoV>, name: Seq<char>) -> Option<DiskInfoV>
    decreases disks.len(),
{
    if disks.len() == 0 {
        None
    } else if disks.first().name == name {
        Some(disks.first())
    } else {
        find_disk(disks.drop_first(), name)
    }
}

/// What a disk-usage section shows: the named disk's used/total pair, or
/// the sentinel "N/A" when no disk bears the name.
pub open spec fn disk_usage_str(disks: Seq<DiskInfoV>, name: Seq<char>, si_units: bool) -> Seq<
    char,
> {
    match find_disk(disks, name) {
        Some(d) => byte_usage_str(
            d.total_space - d.available_space,
            d.total_space as int,
            si_units,
        ),
        None => "N/A"@,
    }
}

/// What a disk-total section shows: the aggregated used/total pair.
pub open spec fn disk_total_str(
    disks: Seq<DiskInfoV>,
    include_removables: bool,
    si_units: bool,
) -> Seq<char> {
    let agg = disk_agg(disks, include_removables);
    byte_usage_str(agg.0, agg.1, si_units)
}

/// What a module's evaluation yields, for the modules whose output is a
/// function of the metrics snapshot alone. A timestamp module reads the
/// clock, so its output is not pinned here.
pub open spec fn deterministic_module_output(
    module: ModuleV,
    decimal_data_units: bool,
    metrics: MetricsV,
) -> Option<Seq<char>> {
    match module {
        ModuleV::Timestamp { template } => None,
        ModuleV::MemoryUsage => Some(
            byte_usage_str(
                metrics.memory_used as int,
                metrics.memory_total as int,
                decimal_data_units,
            ),
        ),
        ModuleV::SwapUsage => Some(
            byte_usage_str(metrics.swap_used as int, metrics.swap_total as int, decimal_data_units),
        ),
        ModuleV::CpuUsage => Some(hundredths_str(metrics.cpu_hundredths as int) + seq!['%']),
        ModuleV::ProcessCount => Some(dec_str(metrics.process_count as int)),
        ModuleV::DiskUsage { name } => Some(disk_usage_str(metrics.disks, name, decimal_data_units)),
        ModuleV::DiskUsageTotal { include_removables } => Some(
            disk_total_str(metrics.disks, include_removables, decimal_data_units),
        ),
    }
}

/// A section output agrees with the model wherever the model pins it.
pub open spec fn module_output_ok(
    module: ModuleV,
    decimal_data_units: bool,
    metrics: MetricsV,
    out: Seq<char>,
) -> bool {
    match deterministic_module_output(module, decimal_data_units, metrics) {
        Some(s) => out == s,
        None => true,
    }
}

/// A section's decorated output: before-text, module output, after-text.
pub open spec fn decorated(decoration: DecorationV, out: Seq<char>) -> Seq<char> {
    (match decoration.before {
        Some(b) => b,
        None => Seq::<char>::empty(),
    }) + out + (match decoration.after {
        Some(a) => a,
        None => Seq::<char>::empty(),
    })
}

/// The decorated outputs of all sections, in render order.
pub open spec fn decorated_pieces(sections: Seq<SectionV>, outs: Seq<Seq<char>>) -> Seq<Seq<char>>
    recommends
        outs.len() == sections.len(),
{
    Seq::new(outs.len(), |i: int| decorated(sections[i].decoration, outs[i]))
}

/// Pieces joined left to right: the separator is appended before every
/// piece whenever the buffer built so far is non-empty — so every piece
/// after the first gets a separator, even if that piece is empty, unless
/// everything before it rendered empty.
pub open spec fn joined(separator: Seq<char>, pieces: Seq<Seq<char>>) -> Seq<char>
    decreases pieces.len(),
{
    if pieces.len() == 0 {
        Seq::empty()
    } else {
        let prev = joined(separator, pieces.drop_last());
        prev + (if prev.len() > 0 {
            separator
        } else {
            Seq::<char>::empty()
        }) + pieces.last()
    }
}

/// The rendered string is the sections' outputs, decorated and joined,
/// where every non-timestamp output is the one the model pins.
pub open spec fn render_matches(
    config: ConfigV,
    metrics: MetricsV,
    outs: Seq<Seq<char>>,
    out: Seq<char>,
) -> bool {
    &&& outs.len() == config.sections.len()
    &&& forall|i: int|
        0 <= i < outs.len() ==> module_output_ok(
            (#[trigger] config.sections[i]).module,
            config.decimal_data_units,
            metrics,
            outs[i],
        )
    &&& out == joined(config.separator, decorated_pieces(config.sections, outs))
}

/// Relies on chrono::Local::now and chrono's strftime-style formatting
/// (DelayedFormat): the result depends on the clock, so nothing is
/// promised of it; an unusable template makes the formatter report an
/// error instead of text, returned here as None.
#[verifier::external_body]
fn format_local_now(template: &str) -> (r: Option<String>) {
    let mut s = String::new();
    match write!(s, "{}", chrono::Local::now().format(template)) {
        Ok(()) => Some(s),
        Err(_) => None,
    }
}

proof fn lemma_disk_agg_le(disks: Seq<DiskInfoV>, include_removables: bool)
    requires
        forall|i: int|
            0 <= i < disks.len() ==> (#[trigger] disks[i]).available_space
                <= disks[i].total_space,
    ensures
        0 <= disk_agg(disks, include_removables).0 <= disk_agg(disks, include_removables).1,
    decreases disks.len(),
{
    if disks.len() > 0 {
        assert(forall|i: int|
            0 <= i < disks.drop_last().len() ==> (#[trigger] disks.drop_last()[i])
                == disks[i]);
        lemma_disk_agg_le(disks.drop_last(), include_removables);
        assert(disks.last() == disks[disks.len() - 1]);
    }
}

proof fn lemma_disk_agg_filtered_le_all(disks: Seq<DiskInfoV>)
    ensures
        disk_agg(disks, false).1 <= disk_agg(disks, true).1,
    decreases disks.len(),
{
    if disks.len() > 0 {
        lemma_disk_agg_filtered_le_all(disks.drop_last());
    }
}

proof fn lemma_disk_agg_prefix_le(disks: Seq<DiskInfoV>, include_removables: bool, i: int)
    requires
        0 <= i <= disks.len(),
    ensures
        disk_agg(disks.take(i), include_removables).1 <= disk_agg(disks, include_removables).1,
    decreases disks.len() - i,
{
    if i == disks.len() {
        assert(disks.take(i) =~= disks);
    } else {
        lemma_disk_agg_prefix_le(disks, include_removables, i + 1);
        assert(disks.take(i + 1).drop_last() =~= disks.take(i));
        assert(disks.take(i + 1).last() == disks[i]);
    }
}

proof fn lemma_find_disk_skip(disks: Seq<DiskInfoV>, name: Seq<char>, i: int)
    requires
        0 <= i <= disks.len(),
        forall|j: int| 0 <= j < i ==> (#[trigger] disks[j]).name != name,
    ensures
        find_disk(disks, name) == find_disk(disks.skip(i), name),
    decreases i,
{
    if i == 0 {
        assert(disks.skip(0) =~= disks);
    } else {
        lemma_find_disk_skip(disks, name, i - 1);
        assert(disks.skip(i - 1).first() == disks[i - 1]);
        assert(disks.skip(i - 1).drop_first() =~= disks.skip(i));
    }
}

/// Evaluates one section's module against the metrics snapshot.
fn eval_section_module(module: &Module, decimal_data_units: bool, metrics: &MetricsSnapshot) -> (r:
    String)
    requires
        metrics_wf(metrics@),
    ensures
        module_output_ok(module@, decimal_data_units, metrics@, r@),
{
    match module {
        Module::Timestamp { template } => {
            match format_local_now(template.as_str()) {
                Some(s) => s,
                None => String::new(),
            }
        },
        Module::MemoryUsage => {
            format_byte_usage(metrics.memory_used, metrics.memory_total, decimal_data_units)
        },
        Module::SwapUsage => {
            format_byte_usage(metrics.swap_used, metrics.swap_total, decimal_data_units)
        },
        Module::CpuUsage => {
            let mut r = render_hundredths(metrics.cpu_hundredths);
            proof {
                reveal_strlit("%");
                assert("%"@ =~= seq!['%']);
            }
            r.append("%");
            proof {
                assert(r@ =~= hundredths_str(metrics@.cpu_hundredths as int) + seq!['%']);
            }
            r
        },
        Module::ProcessCount => u64_to_dec(metrics.process_count),
        Module::DiskUsage { name } => disk_usage_string(metrics, name, decimal_data_units),
        Module::DiskUsageTotal { include_removables } => {
            disk_total_string(metrics, *include_removables, decimal_data_units)
        },
    }
}

/// Looks a disk up by exact name in the snapshot's list; an absent name
/// yields the sentinel "N/A".
fn disk_usage_string(metrics: &MetricsSnapshot, name: &String, decimal_data_units: bool) -> (r:
    String)
    requires
        metrics_wf(metrics@),
    ensures
        r@ == disk_usage_str(metrics@.disks, name@, decimal_data_units),
{
    let n = metrics.disks.len();
    let mut i: usize = 0;
    while i < n
        invariant
            n == metrics.disks@.len(),
            i <= n,
            metrics_wf(metrics@),
            forall|j: int| 0 <= j < i ==> (#[trigger] metrics@.disks[j]).name != name@,
        decreases n - i,
    {
        let d = &metrics.disks[i];
        if d.name == *name {
            proof {
                lemma_find_disk_skip(metrics@.disks, name@, i as int);
                assert(metrics@.disks.skip(i as int).first() == metrics@.disks[i as int]);
                assert(find_disk(metrics@.disks, name@) == Some(metrics@.disks[i as int]));
            }
            let used = d.total_space - d.available_space;
            return format_byte_usage(used, d.total_space, decimal_data_units);
        }
        i = i + 1;
    }
    proof {
        lemma_find_disk_skip(metrics@.disks, name@, n as int);
        assert(metrics@.disks.skip(n as int).len() == 0);
    }
    "N/A".to_owned()
}

/// Aggregates used/total over the snapshot's disks, filtering out
/// removable disks unless asked to include them.
fn disk_total_string(metrics: &MetricsSnapshot, include_removables: bool, decimal_data_units: bool)
    -> (r: String)
    requires
        metrics_wf(metrics@),
    ensures
        r@ == disk_total_str(metrics@.disks, include_removables, decimal_data_units),
{
    let n = metrics.disks.len();
    let mut used: u64 = 0;
    let mut total: u64 = 0;
    let mut i: usize = 0;
    while i < n
        invariant
            n == metrics.disks@.len(),
            i <= n,
            metrics_wf(metrics@),
            used as int == disk_agg(metrics@.disks.take(i as int), include_removables).0,
            total as int == disk_agg(metrics@.disks.take(i as int), include_removables).1,
        decreases n - i,
    {
        let d = &metrics.disks[i];
        proof {
            assert(metrics@.disks.take(i + 1).drop_last() =~= metrics@.disks.take(i as int));
            assert(metrics@.disks.take(i + 1).last() == metrics@.disks[i as int]);
            assert(forall|j: int|
                0 <= j < metrics@.disks.take(i + 1).len() ==> (#[trigger] metrics@.disks.take(
                    i + 1,
                )[j]) == metrics@.disks[j]);
            lemma_disk_agg_le(metrics@.disks.take(i + 1), include_removables);
            lemma_disk_agg_prefix_le(metrics@.disks, include_removables, i + 1);
            lemma_disk_agg_filtered_le_all(metrics@.disks);
            lemma_disk_agg_le(metrics@.disks, true);
        }
        if include_removables || !d.removable {
            used = used + (d.total_space - d.available_space);
            total = total + d.total_space;
        }
        i = i + 1;
    }
    proof {
        assert(metrics@.disks.take(n as int) =~= metrics@.disks);
    }
    format_byte_usage(used, total, decimal_data_units)
}

/// Consumes a configuration snapshot and a metrics snapshot and produces
/// the tick's status string: each section's module evaluated in order,
/// decorated, and joined with the separator, which is appended before
/// every section whose predecessors rendered anything at all.
pub fn render_tick(config: &Config, metrics: &MetricsSnapshot) -> (r: String)
    requires
        metrics_wf(metrics@),
    ensures
        exists|outs: Seq<Seq<char>>| render_matches(config@, metrics@, outs, r@),
{
    let mut output = String::new();
    let ghost mut outs: Seq<Seq<char>> = Seq::empty();
    let n = config.sections.len();
    let mut idx: usize = 0;
    while idx < n
        invariant
            n == config.sections@.len(),
            idx <= n,
            metrics_wf(metrics@),
            outs.len() == idx as int,
            forall|i: int|
                0 <= i < idx as int ==> module_output_ok(
                    (#[trigger] config@.sections[i]).module,
                    config@.decimal_data_units,
                    metrics@,
                    outs[i],
                ),
            output@ == joined(
                config@.separator,
                decorated_pieces(config@.sections.take(idx as int), outs),
            ),
        decreases n - idx,
    {
        let section = &config.sections[idx];
        let module_out = eval_section_module(&section.module, config.decimal_data_units, metrics);
        let ghost prev_output = output@;
        let ghost prev_outs = outs;
        if !output.as_str().is_empty() {
            output.append(config.separator.as_str());
        }
        if let Some(before) = &section.decoration.before {
            output.append(before.as_str());
        }
        output.append(module_out.as_str());
        if let Some(after) = &section.decoration.after {
            output.append(after.as_str());
        }
        proof {
            outs = outs.push(module_out@);
            let pieces_new = decorated_pieces(config@.sections.take(idx + 1), outs);
            let pieces_old = decorated_pieces(config@.sections.take(idx as int), prev_outs);
            assert(pieces_new.drop_last() =~= pieces_old);
            assert(pieces_new.last() == decorated(
                config@.sections[idx as int].decoration,
                module_out@,
            ));
            assert(output@ =~= joined(config@.separator, pieces_new));
        }
        idx = idx + 1;
    }
    proof {
        assert(config@.sections.take(n as int) =~= config@.sections);
        assert(render_matches(config@, metrics@, outs, output@));
    }
    output
}

/// Which metric families a configuration's sections read. The caller
/// collects exactly these before a tick, so each family — the disk list
/// in particular — is fetched at most once per tick and reused by every
/// section that reads it.
pub struct MetricsNeeds {
    pub memory: bool,
    pub swap: bool,
    pub cpu: bool,
    pub processes: bool,
    pub disks: bool,
}

/// Some section shows memory usage.
pub open spec fn uses_memory(sections: Seq<SectionV>) -> bool {
    exists|i: int| 0 <= i < sections.len() && (#[trigger] sections[i]).module is MemoryUsage
}

/// Some section shows swap usage.
pub open spec fn uses_swap(sections: Seq<SectionV>) -> bool {
    exists|i: int| 0 <= i < sections.len() && (#[trigger] sections[i]).module is SwapUsage
}

/// Some section shows CPU usage.
pub open spec fn uses_cpu(sections: Seq<SectionV>) -> bool {
    exists|i: int| 0 <= i < sections.len() && (#[trigger] sections[i]).module is CpuUsage
}

/// Some section shows the process count.
pub open spec fn uses_processes(sections: Seq<SectionV>) -> bool {
    exists|i: int| 0 <= i < sections.len() && (#[trigger] sections[i]).module is ProcessCount
}

/// Some section reads the disk list.
pub open spec fn uses_disks(sections: Seq<SectionV>) -> bool {
    exists|i: int|
        0 <= i < sections.len() && ((#[trigger] sections[i]).module is DiskUsage
            || sections[i].module is DiskUsageTotal)
}

/// Says which metric families the configuration's sections read.
pub fn needed_metrics(config: &Config) -> (needs: MetricsNeeds)
    ensures
        needs.memory == uses_memory(config@.sections),
        needs.swap == uses_swap(config@.sections),
        needs.cpu == uses_cpu(config@.sections),
        needs.processes == uses_processes(config@.sections),
        needs.disks == uses_disks(config@.sections),
{
    let mut memory = false;
    let mut swap = false;
    let mut cpu = false;
    let mut processes = false;
    let mut disks = false;
    let n = config.sections.len();
    let mut idx: usize = 0;
    while idx < n
        invariant
            n == config.sections@.len(),
            idx <= n,
            memory == exists|i: int|
                0 <= i < idx as int && (#[trigger] config@.sections[i]).module is MemoryUsage,
            swap == exists|i: int|
                0 <= i < idx as int && (#[trigger] config@.sections[i]).module is SwapUsage,
            cpu == exists|i: int|
                0 <= i < idx as int && (#[trigger] config@.sections[i]).module is CpuUsage,
            processes == exists|i: int|
                0 <= i < idx as int && (#[trigger] config@.sections[i]).module is ProcessCount,
            disks == exists|i: int|
                0 <= i < idx as int && ((#[trigger] config@.sections[i]).module is DiskUsage
                    || config@.sections[i].module is DiskUsageTotal),
        decreases n - idx,
    {
        let section = &config.sections[idx];
        proof {
            assert(config@.sections[idx as int] == section@);
        }
        match &section.module {
            Module::Timestamp { .. } => {},
            Module::MemoryUsage => {
                memory = true;
            },
            Module::SwapUsage => {
                swap = true;
            },
            Module::CpuUsage => {
                cpu = true;
            },
            Module::ProcessCount => {
                processes = true;
            },
            Module::DiskUsage { .. } => {
                disks = true;
            },
            Module::DiskUsageTotal { .. } => {
                disks = true;
            },
        }
        idx = idx + 1;
    }
    MetricsNeeds { memory, swap, cpu, processes, disks }
}

} // verus!
