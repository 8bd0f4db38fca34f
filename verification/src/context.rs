//! The process-wide root object: enumerates physical GPUs into an ordered
//! adapter list, validates adapter and device-type arguments, and forwards
//! every legacy capability query to the matching adapter.

use vstd::prelude::*;
use crate::adapter::{spec_adapter_from, spec_identifier_of, spec_probe_ok, Adapter, AdapterModel};
use crate::backend::{AdapterProbe, MonitorRect};
use crate::caps::{self, Caps};
use crate::device::{
    DeviceCreationParameters, DeviceCreationRequest, DeviceType, CREATE_ADAPTERGROUP_DEVICE,
    CREATE_FPU_PRESERVE,
};
use crate::error::Error;
use crate::fmt::{self, Format};
use crate::ident::AdapterIdentifier;
use crate::modes::DisplayMode;
use crate::support::ResourceType;

verus! {

/// The legacy root object.  The adapter list is built once at construction
/// and never changes: an adapter ordinal is valid for the lifetime of the
/// context or it is not valid at all.
pub struct Context {
    pub adapters: Vec<Adapter>,
}

/// The mathematical model of a context: the ordered adapter models.
#[verifier::ext_equal]
pub struct ContextModel {
    pub adapters: Seq<AdapterModel>,
}

impl ContextModel {
    /// The adapter count fits the legacy API's 32-bit ordinals.
    pub open spec fn wf(self) -> bool {
        self.adapters.len() <= u32::MAX
    }

    /// Whether an ordinal names an adapter of this context.
    pub open spec fn valid_ordinal(self, adapter: u32) -> bool {
        (adapter as int) < self.adapters.len()
    }
}

impl View for Context {
    type V = ContextModel;

    open spec fn view(&self) -> ContextModel {
        ContextModel { adapters: self.adapters@.map_values(|a: Adapter| a@) }
    }
}

/// The adapter models that enumeration builds from the probes, in order:
/// a probe that fails adapter construction is skipped, and each adapter
/// that is built receives the next dense ordinal.
pub open spec fn built_adapters(probes: Seq<AdapterProbe>) -> Seq<AdapterModel>
    decreases probes.len(),
{
    if probes.len() == 0 {
        Seq::empty()
    } else {
        let prev = built_adapters(probes.drop_last());
        if spec_probe_ok(probes.last()) {
            prev.push(spec_adapter_from(prev.len() as u32, probes.last()))
        } else {
            prev
        }
    }
}

/// Adapter ordinals are dense and stable: enumeration yields at most one
/// adapter per probe, and the adapter at position `i` carries ordinal `i`.
pub proof fn lemma_adapter_ordinals_dense(probes: Seq<AdapterProbe>)
    requires
        probes.len() <= u32::MAX,
    ensures
        built_adapters(probes).len() <= probes.len(),
        forall|i: int|
            0 <= i < built_adapters(probes).len() ==> (#[trigger] built_adapters(probes)[i]).index
                == i,
    decreases probes.len(),
{
    if probes.len() > 0 {
        lemma_adapter_ordinals_dense(probes.drop_last());
        let prev = built_adapters(probes.drop_last());
        if spec_probe_ok(probes.last()) {
            assert forall|i: int| 0 <= i < built_adapters(probes).len() implies (
            #[trigger] built_adapters(probes)[i]).index == i by {
                if i < prev.len() {
                    assert(built_adapters(probes)[i] == prev[i]);
                } else {
                    assert(built_adapters(probes)[i] == spec_adapter_from(
                        prev.len() as u32,
                        probes.last(),
                    ));
                }
            }
        }
    }
}

/// Mutable access to one adapter of the list.
fn adapter_at_mut(adapters: &mut Vec<Adapter>, i: usize) -> (a: &mut Adapter)
    requires
        i < old(adapters).len(),
    ensures
        *a == old(adapters)@[i as int],
        final(adapters)@ == old(adapters)@.update(i as int, *final(a)),
{
    &mut adapters[i]
}

impl Context {
    /// Creates the context from the outcome of adapter enumeration: `None`
    /// when the enumeration factory could not be created, else the probes
    /// of the physical GPUs in enumeration order.  A probe whose adapter
    /// fails construction is skipped rather than failing the context, so
    /// the list is densely re-indexed in creation order.
    pub fn new(enumeration: Option<Vec<AdapterProbe>>) -> (r: Result<Context, Error>)
        requires
            enumeration matches Some(probes) ==> probes@.len() <= u32::MAX,
        ensures
            enumeration is None ==> r == Err::<Context, Error>(Error::FactoryCreateFailed),
            enumeration matches Some(probes) ==> (r matches Ok(c) && c@.adapters
                == built_adapters(probes@) && c@.wf()),
    {
        let mut probes = match enumeration {
            Some(p) => p,
            None => {
                return Err(Error::FactoryCreateFailed);
            },
        };
        let ghost all = probes@;
        let mut adapters: Vec<Adapter> = Vec::new();
        while probes.len() > 0
            invariant
                probes@ == all.subrange(all.len() - probes@.len(), all.len() as int),
                adapters@.map_values(|a: Adapter| a@) == built_adapters(
                    all.subrange(0, all.len() - probes@.len()),
                ),
                adapters@.len() <= all.len() - probes@.len(),
                all.len() <= u32::MAX,
            decreases probes@.len(),
        {
            let ghost processed = all.len() - probes@.len();
            let p = probes.remove(0);
            proof {
                assert(p == all[processed]);
                assert(probes@ =~= all.subrange(processed + 1, all.len() as int));
            }
            let count = adapters.len();
            let ghost prefix = all.subrange(0, processed);
            let ghost step = all.subrange(0, processed + 1);
            proof {
                assert(step.drop_last() =~= prefix);
                assert(step.last() == all[processed]);
                assert(count == built_adapters(prefix).len());
            }
            match Adapter::new(count as u32, p) {
                Ok(a) => {
                    adapters.push(a);
                    proof {
                        assert(spec_probe_ok(p));
                        assert(adapters@.map_values(|x: Adapter| x@) =~= built_adapters(step));
                    }
                },
                Err(_) => {
                    proof {
                        assert(!spec_probe_ok(p));
                        assert(adapters@.map_values(|x: Adapter| x@) =~= built_adapters(step));
                    }
                },
            }
        }
        proof {
            assert(all.subrange(0, all.len() as int) =~= all);
        }
        Ok(Context { adapters })
    }

    /// Validates an adapter ordinal: every ordinal below the adapter count
    /// is valid, every other fails with the invalid-call code.
    pub fn check_adapter(&self, adapter: u32) -> (r: Result<(), Error>)
        ensures
            r == (if self@.valid_ordinal(adapter) {
                Ok::<(), Error>(())
            } else {
                Err::<(), Error>(Error::InvalidCall)
            }),
    {
        if (adapter as usize) < self.adapters.len() {
            Ok(())
        } else {
            Err(Error::InvalidCall)
        }
    }

    /// Validates a device type: only the hardware type is supported; the
    /// reference and software rasterizers are rejected.
    fn check_devty(&self, dev_ty: DeviceType) -> (r: Error)
        ensures
            r == (if dev_ty is Hal {
                Error::Success
            } else {
                Error::InvalidCall
            }),
    {
        match dev_ty {
            DeviceType::Hal => Error::Success,
            _ => Error::InvalidCall,
        }
    }

    /// Registers a software rasterizer: the pointer argument (an opaque
    /// handle here, 0 for null) is validated, and success is reported
    /// without storing it — software rasterization is treated as "enable
    /// if available", and refusing silently matches "not available".
    pub fn register_software_device(&self, init_fn: u64) -> (r: Error)
        ensures
            r == (if init_fn == 0 {
                Error::InvalidCall
            } else {
                Error::Success
            }),
    {
        if init_fn == 0 {
            Error::InvalidCall
        } else {
            Error::Success
        }
    }

    /// The number of GPUs of this context.
    pub fn get_adapter_count(&self) -> (n: u32)
        requires
            self@.wf(),
        ensures
            n == self@.adapters.len(),
    {
        self.adapters.len() as u32
    }

    /// The identifier of the adapter at `adapter`.  The enumeration flags
    /// of the legacy call carry no information any longer and are ignored.
    pub fn get_adapter_identifier(&self, adapter: u32, _flags: u32) -> (r: Result<
        AdapterIdentifier,
        Error,
    >)
        ensures
            !self@.valid_ordinal(adapter) ==> r == Err::<AdapterIdentifier, Error>(
                Error::InvalidCall,
            ),
            self@.valid_ordinal(adapter) ==> (r matches Ok(id) && spec_identifier_of(
                id,
                self@.adapters[adapter as int],
            )),
    {
        if (adapter as usize) < self.adapters.len() {
            Ok(self.adapters[adapter as usize].identifier())
        } else {
            Err(Error::InvalidCall)
        }
    }

    /// The number of display modes with format `fmt` the adapter supports;
    /// 0 for an invalid ordinal rather than an error.
    pub fn get_adapter_mode_count(&mut self, adapter: u32, fmt: Format) -> (n: u32)
        ensures
            old(self)@.valid_ordinal(adapter) ==> {
                &&& n == old(self)@.adapters[adapter as int].mode_count(fmt)
                &&& final(self)@.adapters == old(self)@.adapters.update(
                    adapter as int,
                    old(self)@.adapters[adapter as int].after_mode_query(fmt),
                )
            },
            !old(self)@.valid_ordinal(adapter) ==> n == 0 && final(self)@ == old(self)@,
    {
        if (adapter as usize) < self.adapters.len() {
            let a = adapter_at_mut(&mut self.adapters, adapter as usize);
            let n = a.mode_count(fmt);
            proof {
                assert(final(self)@.adapters =~= old(self)@.adapters.update(
                    adapter as int,
                    old(self)@.adapters[adapter as int].after_mode_query(fmt),
                ));
            }
            n
        } else {
            0
        }
    }

    /// The display mode at `index` for `fmt` of the adapter at `adapter`;
    /// the invalid-call code for a bad ordinal and the not-available code
    /// for an index past the list.
    pub fn enum_adapter_modes(&mut self, adapter: u32, fmt: Format, index: u32) -> (r: Result<
        DisplayMode,
        Error,
    >)
        ensures
            old(self)@.valid_ordinal(adapter) ==> {
                &&& r == (match old(self)@.adapters[adapter as int].mode_at(fmt, index) {
                    Some(m) => Ok::<DisplayMode, Error>(m),
                    None => Err::<DisplayMode, Error>(Error::NotAvailable),
                })
                &&& final(self)@.adapters == old(self)@.adapters.update(
                    adapter as int,
                    old(self)@.adapters[adapter as int].after_mode_query(fmt),
                )
            },
            !old(self)@.valid_ordinal(adapter) ==> r == Err::<DisplayMode, Error>(
                Error::InvalidCall,
            ) && final(self)@ == old(self)@,
    {
        if (adapter as usize) < self.adapters.len() {
            let a = adapter_at_mut(&mut self.adapters, adapter as usize);
            let mode = a.mode(fmt, index);
            proof {
                assert(final(self)@.adapters =~= old(self)@.adapters.update(
                    adapter as int,
                    old(self)@.adapters[adapter as int].after_mode_query(fmt),
                ));
            }
            match mode {
                Some(m) => Ok(m),
                None => Err(Error::NotAvailable),
            }
        } else {
            Err(Error::InvalidCall)
        }
    }

    /// The current display mode of the adapter's monitor, built from the
    /// monitor rectangle the platform reports: its extent, a refresh rate
    /// of 0 ("default"), and the standard 32-bit format modern displays
    /// use.  The adapter's mode cache is not consulted.
    pub fn get_adapter_display_mode(&self, _adapter: u32, monitor_rect: MonitorRect) -> (r:
        DisplayMode)
        requires
            monitor_rect.left <= monitor_rect.right,
            monitor_rect.top <= monitor_rect.bottom,
        ensures
            r.width == monitor_rect.right - monitor_rect.left,
            r.height == monitor_rect.bottom - monitor_rect.top,
            r.refresh_rate == 0,
            r.format == Format::X8R8G8B8,
    {
        let width = ((monitor_rect.right as i64) - (monitor_rect.left as i64)) as u32;
        let height = ((monitor_rect.bottom as i64) - (monitor_rect.top as i64)) as u32;
        DisplayMode { width, height, refresh_rate: 0, format: Format::X8R8G8B8 }
    }

    /// Whether the adapter is hardware accelerated with this display
    /// format: success for every display-mode format on a valid adapter
    /// and device type.
    pub fn check_device_type(
        &self,
        adapter: u32,
        ty: DeviceType,
        adapter_fmt: Format,
        _bb_fmt: Format,
        _windowed: u32,
    ) -> (r: Error)
        ensures
            r == (if !self@.valid_ordinal(adapter) {
                Error::InvalidCall
            } else if !(ty is Hal) {
                Error::InvalidCall
            } else if fmt::spec_is_display_mode_format(adapter_fmt) {
                Error::Success
            } else {
                Error::NotAvailable
            }),
    {
        if let Err(e) = self.check_adapter(adapter) {
            return e;
        }
        let devty = self.check_devty(ty);
        if devty != Error::Success {
            return devty;
        }
        if fmt::is_display_mode_format(adapter_fmt) {
            Error::Success
        } else {
            Error::NotAvailable
        }
    }

    /// Whether `check_fmt` can be used for the given resource kind and
    /// usage on the adapter.
    pub fn check_device_format(
        &self,
        adapter: u32,
        ty: DeviceType,
        _adapter_fmt: Format,
        usage: u32,
        rt: ResourceType,
        check_fmt: Format,
    ) -> (r: Error)
        ensures
            r == (if !self@.valid_ordinal(adapter) {
                Error::InvalidCall
            } else if !(ty is Hal) {
                Error::InvalidCall
            } else if self@.adapters[adapter as int].format_supported(check_fmt, rt, usage) {
                Error::Success
            } else {
                Error::NotAvailable
            }),
    {
        if (adapter as usize) >= self.adapters.len() {
            return Error::InvalidCall;
        }
        let devty = self.check_devty(ty);
        if devty != Error::Success {
            return devty;
        }
        if self.adapters[adapter as usize].is_format_supported(check_fmt, rt, usage) {
            Error::Success
        } else {
            Error::NotAvailable
        }
    }

    /// Whether `surface_fmt` supports the multisample kind: the status
    /// code, and the maximum quality level for the platform layer to hand
    /// through the caller's out-parameter.  A maximum quality of 0 means
    /// multisampling is not available.
    pub fn check_device_multi_sample_type(
        &self,
        adapter: u32,
        ty: DeviceType,
        surface_fmt: Format,
        _windowed: u32,
        multi_sample_type: u32,
    ) -> (r: (Error, u32))
        ensures
            r.0 == (if !self@.valid_ordinal(adapter) {
                Error::InvalidCall
            } else if !(ty is Hal) {
                Error::InvalidCall
            } else if self@.adapters[adapter as int].multisample_quality(
                surface_fmt,
                multi_sample_type,
            ) == 0 {
                Error::NotAvailable
            } else {
                Error::Success
            }),
            r.1 == (if self@.valid_ordinal(adapter) && ty is Hal {
                self@.adapters[adapter as int].multisample_quality(surface_fmt, multi_sample_type)
            } else {
                0u32
            }),
    {
        if (adapter as usize) >= self.adapters.len() {
            return (Error::InvalidCall, 0);
        }
        let devty = self.check_devty(ty);
        if devty != Error::Success {
            return (devty, 0);
        }
        let quality = self.adapters[adapter as usize].is_multisampling_supported(
            surface_fmt,
            multi_sample_type,
        );
        if quality == 0 {
            (Error::NotAvailable, quality)
        } else {
            (Error::Success, quality)
        }
    }

    /// Whether a depth/stencil format can be used with a render-target
    /// format: on modern hardware any valid combination is allowed, so
    /// only the depth/stencil format itself is checked.
    pub fn check_depth_stencil_match(
        &self,
        adapter: u32,
        ty: DeviceType,
        _adapter_fmt: Format,
        _rt_fmt: Format,
        ds_fmt: Format,
    ) -> (r: Error)
        ensures
            r == (if !self@.valid_ordinal(adapter) {
                Error::InvalidCall
            } else if !(ty is Hal) {
                Error::InvalidCall
            } else if fmt::spec_is_depth_stencil_format(ds_fmt) {
                Error::Success
            } else {
                Error::NotAvailable
            }),
    {
        if let Err(e) = self.check_adapter(adapter) {
            return e;
        }
        let devty = self.check_devty(ty);
        if devty != Error::Success {
            return devty;
        }
        if fmt::is_depth_stencil_format(ds_fmt) {
            Error::Success
        } else {
            Error::NotAvailable
        }
    }

    /// Whether a conversion between two formats is supported: deliberately
    /// permissive — it succeeds for any validated adapter and type, since
    /// conversions are assumed always expressible.
    pub fn check_device_format_conversion(
        &self,
        adapter: u32,
        ty: DeviceType,
        _src_fmt: Format,
        _tgt_fmt: Format,
    ) -> (r: Error)
        ensures
            r == (if !self@.valid_ordinal(adapter) {
                Error::InvalidCall
            } else if !(ty is Hal) {
                Error::InvalidCall
            } else {
                Error::Success
            }),
    {
        if let Err(e) = self.check_adapter(adapter) {
            return e;
        }
        let devty = self.check_devty(ty);
        if devty != Error::Success {
            return devty;
        }
        Error::Success
    }

    /// The capability struct of the adapter.
    pub fn get_device_caps(&self, adapter: u32, ty: DeviceType) -> (r: Result<Caps, Error>)
        ensures
            r == (if !self@.valid_ordinal(adapter) {
                Err::<Caps, Error>(Error::InvalidCall)
            } else if !(ty is Hal) {
                Err::<Caps, Error>(Error::InvalidCall)
            } else {
                Ok::<Caps, Error>(caps::spec_caps(self@.adapters[adapter as int].index))
            }),
    {
        if (adapter as usize) >= self.adapters.len() {
            return Err(Error::InvalidCall);
        }
        let devty = self.check_devty(ty);
        if devty != Error::Success {
            return Err(devty);
        }
        Ok(self.adapters[adapter as usize].caps())
    }

    /// The monitor handle of the adapter's display; the null handle for an
    /// invalid ordinal or a missing output.
    pub fn get_adapter_monitor(&self, adapter: u32) -> (r: u64)
        ensures
            r == (if self@.valid_ordinal(adapter) {
                self@.adapters[adapter as int].monitor()
            } else {
                0u64
            }),
    {
        if (adapter as usize) < self.adapters.len() {
            self.adapters[adapter as usize].monitor()
        } else {
            0
        }
    }

    /// Validates a device-creation request and decides everything about it
    /// that does not touch the platform: the creation-parameters record,
    /// whether the process-wide FPU state must be set up (the caller can
    /// opt out), and whether a multi-adapter device group was asked for
    /// (unsupported; the request proceeds on a single adapter).
    pub fn create_device_request(
        &self,
        adapter: u32,
        ty: DeviceType,
        focus_window: u64,
        flags: u32,
    ) -> (r: Result<DeviceCreationRequest, Error>)
        ensures
            r == spec_create_device_request(self@, adapter, ty, focus_window, flags),
    {
        let devty = self.check_devty(ty);
        if devty != Error::Success {
            return Err(devty);
        }
        if (adapter as usize) >= self.adapters.len() {
            return Err(Error::InvalidCall);
        }
        Ok(
            DeviceCreationRequest {
                params: DeviceCreationParameters {
                    adapter_ordinal: adapter,
                    device_type: DeviceType::Hal,
                    focus_window,
                    behavior_flags: flags,
                },
                setup_fpu: flags & CREATE_FPU_PRESERVE == 0,
                adapter_group_requested: flags & CREATE_ADAPTERGROUP_DEVICE != 0,
            },
        )
    }
}

/// The outcome `create_device_request` owes: the invalid-call code for a
/// non-hardware type or a bad ordinal, else the validated request.
pub open spec fn spec_create_device_request(
    c: ContextModel,
    adapter: u32,
    ty: DeviceType,
    focus_window: u64,
    flags: u32,
) -> Result<DeviceCreationRequest, Error> {
    if !(ty is Hal) {
        Err(Error::InvalidCall)
    } else if !c.valid_ordinal(adapter) {
        Err(Error::InvalidCall)
    } else {
        Ok(
            DeviceCreationRequest {
                params: DeviceCreationParameters {
                    adapter_ordinal: adapter,
                    device_type: DeviceType::Hal,
                    focus_window,
                    behavior_flags: flags,
                },
                setup_fpu: flags & CREATE_FPU_PRESERVE == 0,
                adapter_group_requested: flags & CREATE_ADAPTERGROUP_DEVICE != 0,
            },
        )
    }
}

} // verus!
