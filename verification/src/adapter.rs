//! A physical graphics adapter (GPU): identity, display modes, format
//! support, multisampling levels and feature caps, answered with legacy
//! semantics from what the modern API reported.

use vstd::prelude::*;
use crate::backend::{
    AdapterInfo, AdapterProbe, FormatSupportEntry, ModeTableEntry, MultisampleEntry, OutputInfo,
};
use crate::caps::{self, Caps};
use crate::error::Error;
use crate::fmt::{self, Format, ModernFormat};
use crate::ident::{
    self, AdapterIdentifier, Guid128, DESCRIPTION_BUFFER_LEN, DEVICE_NAME_BUFFER_LEN,
    DRIVER_BUFFER_LEN,
};
use crate::modes::{self, DisplayMode, RawMode};
use crate::support::{self, ResourceType};
use crate::table::{first_value, lemma_first_value_push, lemma_first_value_skip};

verus! {

/// One display-mode list the adapter has already looked up, keyed by the
/// legacy format it was asked for.  An entry with an empty list means
/// "queried and unsupported", so failed lookups are remembered and never
/// retried.
pub struct ModeCacheEntry {
    pub format: Format,
    pub modes: Vec<RawMode>,
}

/// A physical graphics adapter.
///
/// The capability tables hold what the modern API reported at
/// construction: the output's display modes per modern format and the
/// capability device's per-format support masks and multisample quality
/// levels.  The mode cache grows lazily, one legacy format at a time, and
/// never re-queries or evicts a key.
pub struct Adapter {
    /// Ordinal of this adapter in the context's list of GPUs.
    pub index: u32,
    /// The GPU's description, captured once at construction.
    pub desc: AdapterInfo,
    /// Whether a display is attached.  Headless GPUs are legitimate and
    /// simply report no display modes.
    pub has_output: bool,
    /// The display's properties; absent when there is no display or its
    /// description query failed.
    pub output_desc: Option<OutputInfo>,
    /// Display modes per modern format, as the output reported them.
    pub mode_table: Vec<ModeTableEntry>,
    /// Mode lists already looked up, keyed by legacy format.
    pub mode_cache: Vec<ModeCacheEntry>,
    /// The feature level the capability device negotiated.
    pub feature_level: u32,
    /// Per-format capability masks of the capability device.
    pub format_support: Vec<FormatSupportEntry>,
    /// Quality levels per modern format and sample count.
    pub multisample: Vec<MultisampleEntry>,
}

/// The association-list view of the mode cache.
pub open spec fn cache_view(cache: Seq<ModeCacheEntry>) -> Seq<(Format, Seq<RawMode>)> {
    cache.map_values(|e: ModeCacheEntry| (e.format, e.modes@))
}

/// The association-list view of the output's mode table.
pub open spec fn table_view(table: Seq<ModeTableEntry>) -> Seq<(ModernFormat, Seq<RawMode>)> {
    table.map_values(|e: ModeTableEntry| (e.format, e.modes@))
}

/// The association-list view of the format-support table.
pub open spec fn support_view(entries: Seq<FormatSupportEntry>) -> Seq<(ModernFormat, u32)> {
    entries.map_values(|e: FormatSupportEntry| (e.format, e.mask))
}

/// The association-list view of the multisample table, keyed by format and
/// sample count together.
pub open spec fn multisample_view(entries: Seq<MultisampleEntry>) -> Seq<((ModernFormat, u32), u32)> {
    entries.map_values(|e: MultisampleEntry| ((e.format, e.sample_count), e.quality_levels))
}

/// The mathematical model of an adapter.  Every contract of `Adapter`
/// speaks of this view; the mode-query methods are specified as a state
/// transition on it.
#[verifier::ext_equal]
pub struct AdapterModel {
    pub index: u32,
    pub vendor_id: u32,
    pub device_id: u32,
    pub subsys_id: u32,
    pub revision: u32,
    pub description: Seq<u8>,
    pub dedicated_video_memory: u64,
    pub dedicated_system_memory: u64,
    pub shared_system_memory: u64,
    pub luid: u64,
    pub has_output: bool,
    pub output_desc: Option<OutputInfo>,
    pub mode_table: Seq<(ModernFormat, Seq<RawMode>)>,
    pub mode_cache: Seq<(Format, Seq<RawMode>)>,
    pub feature_level: u32,
    pub format_support: Seq<(ModernFormat, u32)>,
    pub multisample: Seq<((ModernFormat, u32), u32)>,
}

impl View for Adapter {
    type V = AdapterModel;

    open spec fn view(&self) -> AdapterModel {
        AdapterModel {
            index: self.index,
            vendor_id: self.desc.vendor_id,
            device_id: self.desc.device_id,
            subsys_id: self.desc.subsys_id,
            revision: self.desc.revision,
            description: self.desc.description@,
            dedicated_video_memory: self.desc.dedicated_video_memory,
            dedicated_system_memory: self.desc.dedicated_system_memory,
            shared_system_memory: self.desc.shared_system_memory,
            luid: self.desc.luid,
            has_output: self.has_output,
            output_desc: self.output_desc,
            mode_table: table_view(self.mode_table@),
            mode_cache: cache_view(self.mode_cache@),
            feature_level: self.feature_level,
            format_support: support_view(self.format_support@),
            multisample: multisample_view(self.multisample@),
        }
    }
}

impl AdapterModel {
    /// The modes the output reports for a legacy format: the table entry of
    /// its modern translation, or the empty list when the lookup fails.
    pub open spec fn source_modes(self, fmt: Format) -> Seq<RawMode> {
        match first_value(self.mode_table, fmt::spec_to_modern(fmt)) {
            Some(m) => m,
            None => Seq::empty(),
        }
    }

    /// Whether the mode cache already holds a key for this format.
    pub open spec fn cached(self, fmt: Format) -> bool {
        first_value(self.mode_cache, fmt) is Some
    }

    /// The mode list a query for `fmt` reads: the cached list if the key is
    /// present, else the output's.
    pub open spec fn effective_modes(self, fmt: Format) -> Seq<RawMode> {
        match first_value(self.mode_cache, fmt) {
            Some(m) => m,
            None => self.source_modes(fmt),
        }
    }

    /// The adapter after its cache-population step for `fmt`: a no-op
    /// without an output or when the key is present, else the cache gains
    /// the key — with the output's answer, even an empty one.
    pub open spec fn after_cache_populate(self, fmt: Format) -> AdapterModel {
        if self.has_output && !self.cached(fmt) {
            AdapterModel { mode_cache: self.mode_cache.push((fmt, self.source_modes(fmt))), ..self }
        } else {
            self
        }
    }

    /// The adapter after a mode-count or mode query for `fmt`: population
    /// runs only for a display-mode format on an adapter with an output.
    pub open spec fn after_mode_query(self, fmt: Format) -> AdapterModel {
        if self.has_output && fmt::spec_is_display_mode_format(fmt) {
            self.after_cache_populate(fmt)
        } else {
            self
        }
    }

    /// The number of display modes reported for `fmt`: 0 without an output
    /// or for a non-display format, else the length of the list the query
    /// reads (saturated to the 32-bit counter of the legacy API).
    pub open spec fn mode_count(self, fmt: Format) -> u32 {
        if !self.has_output || !fmt::spec_is_display_mode_format(fmt) {
            0u32
        } else if self.effective_modes(fmt).len() > u32::MAX {
            u32::MAX
        } else {
            self.effective_modes(fmt).len() as u32
        }
    }

    /// The mode reported at `index` for `fmt`, if any, with the refresh
    /// rate reduced to whole hertz.
    pub open spec fn mode_at(self, fmt: Format, index: u32) -> Option<DisplayMode> {
        if !self.has_output || !fmt::spec_is_display_mode_format(fmt) {
            None
        } else if index < self.effective_modes(fmt).len() {
            Some(modes::spec_legacy_mode(self.effective_modes(fmt)[index as int], fmt))
        } else {
            None
        }
    }

    /// The capability mask reported for a legacy format's modern
    /// translation; `None` when the underlying query fails.
    pub open spec fn support_mask(self, fmt: Format) -> Option<u32> {
        first_value(self.format_support, fmt::spec_to_modern(fmt))
    }

    /// Whether a format is usable for a resource kind and usage flags:
    /// unsupported for a format with no modern equivalent, false whenever
    /// the capability query fails, else the bitmask checks.
    pub open spec fn format_supported(self, fmt: Format, rt: ResourceType, usage: u32) -> bool {
        if fmt::spec_to_modern(fmt) == ModernFormat::Unknown {
            false
        } else {
            match self.support_mask(fmt) {
                None => false,
                Some(mask) => support::spec_mask_allows(mask, rt, usage),
            }
        }
    }

    /// The maximum multisampling quality level for a format and sample
    /// count; 0 — the legacy signal of "unsupported" — for a format with
    /// no modern equivalent, and when the query fails or reports nothing.
    pub open spec fn multisample_quality(self, fmt: Format, sample_count: u32) -> u32 {
        if fmt::spec_to_modern(fmt) == ModernFormat::Unknown {
            0u32
        } else {
            match first_value(self.multisample, (fmt::spec_to_modern(fmt), sample_count)) {
                Some(q) => q,
                None => 0u32,
            }
        }
    }

    /// The monitor handle of the output description, or the null handle.
    pub open spec fn monitor(self) -> u64 {
        match self.output_desc {
            Some(d) => d.monitor,
            None => 0u64,
        }
    }

    /// Total memory in bytes — dedicated video, dedicated system and shared
    /// system — rounded down to whole mebibytes and saturated to the 32-bit
    /// range of the legacy API.
    pub open spec fn available_memory(self) -> u32 {
        let rounded = ((self.dedicated_video_memory + self.dedicated_system_memory
            + self.shared_system_memory) / 0x10_0000) * 0x10_0000;
        if rounded > u32::MAX {
            u32::MAX
        } else {
            rounded as u32
        }
    }
}

/// Whether a probe lets adapter construction succeed: the description
/// query and the capability-device creation must both have answered.
pub open spec fn spec_probe_ok(probe: AdapterProbe) -> bool {
    probe.desc is Some && probe.device is Some
}

/// The model of the adapter built at `index` from a successful probe: the
/// probe's answers captured as the capability tables, and an empty cache.
pub open spec fn spec_adapter_from(index: u32, probe: AdapterProbe) -> AdapterModel
    recommends
        spec_probe_ok(probe),
{
    AdapterModel {
        index: index,
        vendor_id: probe.desc.unwrap().vendor_id,
        device_id: probe.desc.unwrap().device_id,
        subsys_id: probe.desc.unwrap().subsys_id,
        revision: probe.desc.unwrap().revision,
        description: probe.desc.unwrap().description@,
        dedicated_video_memory: probe.desc.unwrap().dedicated_video_memory,
        dedicated_system_memory: probe.desc.unwrap().dedicated_system_memory,
        shared_system_memory: probe.desc.unwrap().shared_system_memory,
        luid: probe.desc.unwrap().luid,
        has_output: probe.output is Some,
        output_desc: match probe.output {
            Some(o) => o.desc,
            None => None,
        },
        mode_table: match probe.output {
            Some(o) => table_view(o.mode_table@),
            None => Seq::empty(),
        },
        mode_cache: Seq::empty(),
        feature_level: probe.device.unwrap().feature_level,
        format_support: support_view(probe.device.unwrap().format_support@),
        multisample: multisample_view(probe.device.unwrap().multisample@),
    }
}

/// Whether the identifier record is the one synthesized for this adapter:
/// a fixed driver name, the modern description plus a fixed suffix, a
/// device name of "DISPLAY" and the ordinal, the identity fields passed
/// through unchanged, a constant driver-version sentinel, and a 128-bit
/// identifier combining the 64-bit low-level identifier with the ordinal.
pub open spec fn spec_identifier_of(id: AdapterIdentifier, a: AdapterModel) -> bool {
    &&& id.driver@ == ident::spec_truncated(ident::spec_driver_name(), DRIVER_BUFFER_LEN as nat)
    &&& id.description@ == ident::spec_truncated(
        a.description + ident::spec_description_suffix(),
        DESCRIPTION_BUFFER_LEN as nat,
    )
    &&& id.device_name@ == ident::spec_truncated(
        ident::spec_device_name_prefix() + ident::spec_decimal(a.index as nat),
        DEVICE_NAME_BUFFER_LEN as nat,
    )
    &&& id.driver_version == 1
    &&& id.vendor_id == a.vendor_id
    &&& id.device_id == a.device_id
    &&& id.subsys_id == a.subsys_id
    &&& id.revision == a.revision
    &&& id.device_identifier == (Guid128 { low: a.luid, high: a.index as u64 })
    &&& id.whql_level == 1
}

/// Copies a list of raw modes.
fn copy_modes(src: &Vec<RawMode>) -> (r: Vec<RawMode>)
    ensures
        r@ == src@,
{
    let mut out: Vec<RawMode> = Vec::new();
    let mut i: usize = 0;
    while i < src.len()
        invariant
            i <= src@.len(),
            out@.len() == i,
            forall|j: int| 0 <= j < i ==> out@[j] == src@[j],
        decreases src.len() - i,
    {
        out.push(src[i]);
        i += 1;
    }
    proof {
        assert(out@ =~= src@);
    }
    out
}

/// Finds the cache entry for a legacy format, if one is present.
fn cache_index_of(cache: &Vec<ModeCacheEntry>, fmt: Format) -> (r: Option<usize>)
    ensures
        match r {
            Some(i) => i < cache@.len() && cache@[i as int].format == fmt && first_value(
                cache_view(cache@),
                fmt,
            ) == Some(cache@[i as int].modes@),
            None => first_value(cache_view(cache@), fmt) is None,
        },
{
    let mut i: usize = 0;
    while i < cache.len()
        invariant
            i <= cache@.len(),
            forall|j: int| 0 <= j < i ==> cache_view(cache@)[j].0 != fmt,
        decreases cache@.len() - i,
    {
        if cache[i].format == fmt {
            proof {
                lemma_first_value_skip(cache_view(cache@), fmt, i as int);
                assert(cache_view(cache@).subrange(i as int, cache@.len() as int)[0]
                    == cache_view(cache@)[i as int]);
            }
            return Some(i);
        }
        proof {
            assert(cache_view(cache@)[i as int].0 == cache@[i as int].format);
        }
        i += 1;
    }
    proof {
        lemma_first_value_skip(cache_view(cache@), fmt, cache@.len() as int);
        assert(cache_view(cache@).subrange(cache@.len() as int, cache@.len() as int)
            =~= Seq::<(Format, Seq<RawMode>)>::empty());
    }
    None
}

/// Looks up the output's mode list for a modern format; a failed lookup
/// yields the empty list.
fn table_modes_of(table: &Vec<ModeTableEntry>, f: ModernFormat) -> (r: Vec<RawMode>)
    ensures
        r@ == (match first_value(table_view(table@), f) {
            Some(m) => m,
            None => Seq::<RawMode>::empty(),
        }),
{
    let mut i: usize = 0;
    while i < table.len()
        invariant
            i <= table@.len(),
            forall|j: int| 0 <= j < i ==> table_view(table@)[j].0 != f,
        decreases table@.len() - i,
    {
        if table[i].format == f {
            proof {
                lemma_first_value_skip(table_view(table@), f, i as int);
                assert(table_view(table@).subrange(i as int, table@.len() as int)[0]
                    == table_view(table@)[i as int]);
            }
            return copy_modes(&table[i].modes);
        }
        proof {
            assert(table_view(table@)[i as int].0 == table@[i as int].format);
        }
        i += 1;
    }
    proof {
        lemma_first_value_skip(table_view(table@), f, table@.len() as int);
        assert(table_view(table@).subrange(table@.len() as int, table@.len() as int)
            =~= Seq::<(ModernFormat, Seq<RawMode>)>::empty());
    }
    Vec::new()
}

/// Looks up the capability mask for a modern format; `None` stands for a
/// failed query.
fn support_mask_of(entries: &Vec<FormatSupportEntry>, f: ModernFormat) -> (r: Option<u32>)
    ensures
        r == first_value(support_view(entries@), f),
{
    let mut i: usize = 0;
    while i < entries.len()
        invariant
            i <= entries@.len(),
            forall|j: int| 0 <= j < i ==> support_view(entries@)[j].0 != f,
        decreases entries@.len() - i,
    {
        if entries[i].format == f {
            proof {
                lemma_first_value_skip(support_view(entries@), f, i as int);
                assert(support_view(entries@).subrange(i as int, entries@.len() as int)[0]
                    == support_view(entries@)[i as int]);
            }
            return Some(entries[i].mask);
        }
        proof {
            assert(support_view(entries@)[i as int].0 == entries@[i as int].format);
        }
        i += 1;
    }
    proof {
        lemma_first_value_skip(support_view(entries@), f, entries@.len() as int);
        assert(support_view(entries@).subrange(entries@.len() as int, entries@.len() as int)
            =~= Seq::<(ModernFormat, u32)>::empty());
    }
    None
}

/// Looks up the quality-level count for a modern format and sample count;
/// 0 stands for a failed or unsupported query.
fn quality_of(entries: &Vec<MultisampleEntry>, f: ModernFormat, sample_count: u32) -> (r: u32)
    ensures
        r == (match first_value(multisample_view(entries@), (f, sample_count)) {
            Some(q) => q,
            None => 0u32,
        }),
{
    let mut i: usize = 0;
    while i < entries.len()
        invariant
            i <= entries@.len(),
            forall|j: int| 0 <= j < i ==> multisample_view(entries@)[j].0 != (f, sample_count),
        decreases entries@.len() - i,
    {
        if entries[i].format == f && entries[i].sample_count == sample_count {
            proof {
                lemma_first_value_skip(multisample_view(entries@), (f, sample_count), i as int);
                assert(multisample_view(entries@).subrange(i as int, entries@.len() as int)[0]
                    == multisample_view(entries@)[i as int]);
            }
            return entries[i].quality_levels;
        }
        proof {
            assert(multisample_view(entries@)[i as int].0 == (
                entries@[i as int].format,
                entries@[i as int].sample_count,
            ));
        }
        i += 1;
    }
    proof {
        lemma_first_value_skip(multisample_view(entries@), (f, sample_count), entries@.len() as int);
        assert(multisample_view(entries@).subrange(entries@.len() as int, entries@.len() as int)
            =~= Seq::<((ModernFormat, u32), u32)>::empty());
    }
    0
}

impl Adapter {
    /// Creates a new adapter at ordinal `index` from what the modern API
    /// reported about the physical GPU.
    ///
    /// A missing description is fatal; a missing output is not — headless
    /// and secondary GPUs are legitimate; a missing capability device is
    /// fatal.  A feature level below the emulation's target is non-fatal:
    /// the adapter is built and some caps queries may under-report.
    pub fn new(index: u32, probe: AdapterProbe) -> (r: Result<Adapter, Error>)
        ensures
            probe.desc is None ==> r == Err::<Adapter, Error>(Error::AdapterInitFailed),
            probe.desc is Some && probe.device is None ==> r == Err::<Adapter, Error>(
                Error::DeviceCreateFailed,
            ),
            spec_probe_ok(probe) ==> (r matches Ok(a) && a@ == spec_adapter_from(index, probe)),
    {
        let AdapterProbe { desc, output, device } = probe;
        let desc = match desc {
            Some(d) => d,
            None => {
                return Err(Error::AdapterInitFailed);
            },
        };
        let device = match device {
            Some(d) => d,
            None => {
                return Err(Error::DeviceCreateFailed);
            },
        };
        let (has_output, output_desc, mode_table) = match output {
            Some(o) => (true, o.desc, o.mode_table),
            None => (false, None, Vec::new()),
        };
        let adapter = Adapter {
            index,
            desc,
            has_output,
            output_desc,
            mode_table,
            mode_cache: Vec::new(),
            feature_level: device.feature_level,
            format_support: device.format_support,
            multisample: device.multisample,
        };
        proof {
            assert(adapter@ =~~= spec_adapter_from(index, probe));
        }
        Ok(adapter)
    }

    /// Synthesizes the legacy identifier of this adapter.
    pub fn identifier(&self) -> (r: AdapterIdentifier)
        ensures
            spec_identifier_of(r, self@),
    {
        let driver_src = ident::driver_name();
        let driver = ident::truncate_to_buffer(&driver_src, DRIVER_BUFFER_LEN);
        let suffix = ident::description_suffix();
        let description_src = ident::concat_bytes(&self.desc.description, &suffix);
        let description = ident::truncate_to_buffer(&description_src, DESCRIPTION_BUFFER_LEN);
        let prefix = ident::device_name_prefix();
        let digits = ident::decimal_bytes(self.index);
        let device_name_src = ident::concat_bytes(&prefix, &digits);
        let device_name = ident::truncate_to_buffer(&device_name_src, DEVICE_NAME_BUFFER_LEN);
        AdapterIdentifier {
            driver,
            description,
            device_name,
            driver_version: 1,
            vendor_id: self.desc.vendor_id,
            device_id: self.desc.device_id,
            subsys_id: self.desc.subsys_id,
            revision: self.desc.revision,
            device_identifier: Guid128 { low: self.desc.luid, high: self.index as u64 },
            whql_level: 1,
        }
    }

    /// Retrieves the output's display modes for `fmt` and caches them,
    /// once: a no-op without an output or when the format was already
    /// looked up.  The list is stored even when the lookup reported
    /// nothing, so a failed lookup is never retried.
    fn cache_display_modes(&mut self, fmt: Format)
        ensures
            final(self)@ == old(self)@.after_cache_populate(fmt),
    {
        if !self.has_output {
            return ;
        }
        match cache_index_of(&self.mode_cache, fmt) {
            Some(_) => {
                return ;
            },
            None => {},
        }
        let modern = fmt::to_modern(fmt);
        let modes = table_modes_of(&self.mode_table, modern);
        proof {
            assert(modes@ == old(self)@.source_modes(fmt));
        }
        self.mode_cache.push(ModeCacheEntry { format: fmt, modes });
        proof {
            assert(cache_view(self.mode_cache@) =~= old(self)@.mode_cache.push(
                (fmt, old(self)@.source_modes(fmt)),
            ));
            assert(final(self)@ =~~= old(self)@.after_cache_populate(fmt));
        }
    }

    /// The number of display modes matching `fmt`: 0 without an output or
    /// for a non-display format, else the length of the (now cached) list.
    pub fn mode_count(&mut self, fmt: Format) -> (n: u32)
        ensures
            final(self)@ == old(self)@.after_mode_query(fmt),
            n == old(self)@.mode_count(fmt),
    {
        if !self.has_output || !fmt::is_display_mode_format(fmt) {
            return 0;
        }
        self.cache_display_modes(fmt);
        proof {
            if !old(self)@.cached(fmt) {
                lemma_first_value_push(
                    old(self)@.mode_cache,
                    fmt,
                    (fmt, old(self)@.source_modes(fmt)),
                );
            }
            assert(first_value(self@.mode_cache, fmt) == Some(old(self)@.effective_modes(fmt)));
        }
        match cache_index_of(&self.mode_cache, fmt) {
            Some(i) => {
                let len = self.mode_cache[i].modes.len();
                if len > u32::MAX as usize {
                    u32::MAX
                } else {
                    len as u32
                }
            },
            None => {
                proof {
                    assert(false);
                }
                0
            },
        }
    }

    /// The display mode at `index` for `fmt`, if present, with the refresh
    /// rate reported as `numerator / denominator` — and 0 for a zero
    /// denominator, never a fault.
    pub fn mode(&mut self, fmt: Format, index: u32) -> (r: Option<DisplayMode>)
        ensures
            final(self)@ == old(self)@.after_mode_query(fmt),
            r == old(self)@.mode_at(fmt, index),
    {
        if !self.has_output || !fmt::is_display_mode_format(fmt) {
            return None;
        }
        self.cache_display_modes(fmt);
        proof {
            if !old(self)@.cached(fmt) {
                lemma_first_value_push(
                    old(self)@.mode_cache,
                    fmt,
                    (fmt, old(self)@.source_modes(fmt)),
                );
            }
            assert(first_value(self@.mode_cache, fmt) == Some(old(self)@.effective_modes(fmt)));
        }
        match cache_index_of(&self.mode_cache, fmt) {
            Some(i) => {
                let entry_modes = &self.mode_cache[i].modes;
                if (index as usize) < entry_modes.len() {
                    Some(modes::legacy_mode(&entry_modes[index as usize], fmt))
                } else {
                    None
                }
            },
            None => {
                proof {
                    assert(false);
                }
                None
            },
        }
    }

    /// Whether `fmt` is usable for the given resource kind and usage
    /// flags.  A format with no modern equivalent is unsupported, never a
    /// failure; so is every format whose capability query failed.
    pub fn is_format_supported(&self, fmt: Format, rt: ResourceType, usage: u32) -> (r: bool)
        ensures
            r == self@.format_supported(fmt, rt, usage),
    {
        let modern = fmt::to_modern(fmt);
        if modern == ModernFormat::Unknown {
            return false;
        }
        match support_mask_of(&self.format_support, modern) {
            None => false,
            Some(mask) => support::mask_allows(mask, rt, usage),
        }
    }

    /// The maximum multisampling quality level for `fmt` at `sample_count`;
    /// 0 — never a failure of the caller — for a format with no modern
    /// equivalent, and when the query failed or the count is unsupported.
    pub fn is_multisampling_supported(&self, fmt: Format, sample_count: u32) -> (r: u32)
        ensures
            r == self@.multisample_quality(fmt, sample_count),
    {
        let modern = fmt::to_modern(fmt);
        if modern == ModernFormat::Unknown {
            return 0;
        }
        quality_of(&self.multisample, modern, sample_count)
    }

    /// The capabilities of this adapter: a pure, static construction.
    pub fn caps(&self) -> (r: Caps)
        ensures
            r == caps::spec_caps(self@.index),
    {
        caps::build_caps(self.index)
    }

    /// The monitor handle of this adapter's display, or the null handle
    /// when there is no output description.
    pub fn monitor(&self) -> (r: u64)
        ensures
            r == self@.monitor(),
    {
        match &self.output_desc {
            Some(d) => d.monitor,
            None => 0,
        }
    }

    /// The amount of memory this adapter has: dedicated video plus
    /// dedicated system plus shared system, rounded down to whole
    /// mebibytes, saturated to the 32-bit range of the legacy API.
    pub fn available_memory(&self) -> (r: u32)
        ensures
            r == self@.available_memory(),
    {
        let total: u128 = self.desc.dedicated_video_memory as u128
            + self.desc.dedicated_system_memory as u128
            + self.desc.shared_system_memory as u128;
        let rounded: u128 = (total / 0x10_0000) * 0x10_0000;
        if rounded > u32::MAX as u128 {
            u32::MAX
        } else {
            rounded as u32
        }
    }

    /// The number of cache keys — one per output lookup ever made, since a
    /// population always stores its key.
    pub fn mode_query_count(&self) -> (n: usize)
        ensures
            n == self@.mode_cache.len(),
    {
        self.mode_cache.len()
    }
}

/// A format that display-mode enumeration may not use reports no modes at
/// all: the count is 0, every index is absent, and the adapter is left
/// unchanged.
pub proof fn lemma_non_display_format_has_no_modes(a: AdapterModel, fmt: Format, index: u32)
    requires
        !fmt::spec_is_display_mode_format(fmt),
    ensures
        a.mode_count(fmt) == 0,
        a.mode_at(fmt, index) is None,
        a.after_mode_query(fmt) == a,
{
}

/// Mode queries are idempotent: a second query for the same format reads
/// the cache, changes nothing — so the output is not consulted again — and
/// reports the same count and the same modes.
pub proof fn lemma_mode_cache_idempotent(a: AdapterModel, fmt: Format)
    ensures
        a.after_mode_query(fmt).after_mode_query(fmt) == a.after_mode_query(fmt),
        a.after_mode_query(fmt).mode_count(fmt) == a.mode_count(fmt),
        forall|i: u32| a.after_mode_query(fmt).mode_at(fmt, i) == a.mode_at(fmt, i),
        a.after_mode_query(fmt).mode_cache.len() <= a.mode_cache.len() + 1,
{
    if a.has_output && fmt::spec_is_display_mode_format(fmt) && !a.cached(fmt) {
        lemma_first_value_push(a.mode_cache, fmt, (fmt, a.source_modes(fmt)));
        let b = a.after_mode_query(fmt);
        assert(b.cached(fmt));
        assert(b.effective_modes(fmt) == a.effective_modes(fmt));
    }
}

/// A format already in the cache is never re-queried: the population step
/// leaves the adapter — its cache included — exactly as it was, so no
/// display-mode query reaches the output and the cached entry, even an
/// empty one, is never replaced.
pub proof fn lemma_cached_format_not_requeried(a: AdapterModel, fmt: Format)
    requires
        a.cached(fmt),
    ensures
        a.after_cache_populate(fmt) == a,
        a.after_mode_query(fmt) == a,
{
}

/// The mode cache only grows: a query never evicts or rewrites a key, it
/// can only append one.
pub proof fn lemma_mode_cache_only_grows(a: AdapterModel, fmt: Format)
    ensures
        a.mode_cache.len() <= a.after_mode_query(fmt).mode_cache.len(),
        forall|i: int|
            0 <= i < a.mode_cache.len() ==> a.after_mode_query(fmt).mode_cache[i]
                == a.mode_cache[i],
{
}

/// The synthesized 128-bit adapter identifiers are deterministic and
/// distinct per adapter: two adapters with different ordinals can never
/// share one, whatever their low-level identifiers.
pub proof fn lemma_device_identifiers_distinct(
    a: AdapterModel,
    b: AdapterModel,
    id_a: AdapterIdentifier,
    id_b: AdapterIdentifier,
)
    requires
        a.index != b.index,
        spec_identifier_of(id_a, a),
        spec_identifier_of(id_b, b),
    ensures
        id_a.device_identifier != id_b.device_identifier,
{
    assert(a.index as u64 != b.index as u64);
}

/// A format with no modern equivalent reports unsupported on every
/// capability query — never a failure — whatever the capability tables
/// hold for the unknown modern value.
pub proof fn lemma_unknown_translation_reports_unsupported(
    a: AdapterModel,
    fmt: Format,
    rt: ResourceType,
    usage: u32,
    sample_count: u32,
)
    requires
        fmt::spec_to_modern(fmt) == ModernFormat::Unknown,
    ensures
        !a.format_supported(fmt, rt, usage),
        a.multisample_quality(fmt, sample_count) == 0,
{
}

/// A failed capability query reports the format unsupported for every
/// resource kind and usage combination.
pub proof fn lemma_failed_query_reports_unsupported(
    a: AdapterModel,
    fmt: Format,
    rt: ResourceType,
    usage: u32,
)
    requires
        a.support_mask(fmt) is None,
    ensures
        !a.format_supported(fmt, rt, usage),
{
}

} // verus!
