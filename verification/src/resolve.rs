//! Resolution of the currently displayed mode of every connected
//! connector of a device.

use vstd::prelude::*;

use crate::device::ConnectorInfo;
use crate::device::ConnectorState;
use crate::device::Device;
use crate::device::Mode;
use crate::device::ResolveError;

verus! {

/// What `handle` resolves to in a handle table: the payload of the
/// first entry carrying `handle`, or `None` when no entry does.
pub open spec fn lookup<T>(entries: Seq<(u32, T)>, handle: u32) -> Option<T>
    decreases entries.len(),
{
    if entries.len() == 0 {
        None
    } else if entries[0].0 == handle {
        Some(entries[0].1)
    } else {
        lookup(entries.drop_first(), handle)
    }
}

/// Resolve `handle` in a handle table by a front-to-back scan.
fn lookup_entry<'a, T>(entries: &'a Vec<(u32, T)>, handle: u32) -> (found: Option<&'a T>)
    ensures
        match found {
            Some(entry) => lookup(entries@, handle) == Some(*entry),
            None => lookup(entries@, handle) is None,
        },
{
    let mut i: usize = 0;
    proof {
        assert(entries@.skip(0) =~= entries@);
    }
    while i < entries.len()
        invariant
            i <= entries.len(),
            lookup(entries@, handle) == lookup(entries@.skip(i as int), handle),
        decreases entries.len() - i,
    {
        if entries[i].0 == handle {
            return Some(&entries[i].1);
        }
        proof {
            assert(entries@.skip(i as int).drop_first() =~= entries@.skip(i as int + 1));
        }
        i = i + 1;
    }
    None
}

/// What the live path of a connector — its bound encoder, that
/// encoder's CRTC, and that CRTC's current mode — comes to.
pub enum LiveOutcome {
    /// The chain resolved down to a mode being scanned out right now.
    Found(Mode),
    /// The chain ended without a mode: no encoder bound, no CRTC
    /// bound, or the CRTC reports no current mode.
    Absent,
    /// A bound handle on the chain could not be resolved.
    Failed(ResolveError),
}

/// The outcome of the live path of `connector` on `device`.
pub open spec fn spec_live_outcome(device: Device, connector: ConnectorInfo) -> LiveOutcome {
    match connector.current_encoder {
        None => LiveOutcome::Absent,
        Some(encoder_handle) => match lookup(device.encoders@, encoder_handle) {
            None => LiveOutcome::Failed(ResolveError::EncoderFetch),
            Some(encoder) => match encoder.crtc {
                None => LiveOutcome::Absent,
                Some(crtc_handle) => match lookup(device.crtcs@, crtc_handle) {
                    None => LiveOutcome::Failed(ResolveError::CrtcFetch),
                    Some(crtc) => match crtc.mode {
                        None => LiveOutcome::Absent,
                        Some(mode) => LiveOutcome::Found(mode),
                    },
                },
            },
        },
    }
}

/// The fallback when the live path yields nothing: the connector's
/// native mode, at index 0 of its advertised modes.
pub open spec fn spec_fallback_mode(connector: ConnectorInfo) -> Result<Mode, ResolveError> {
    if connector.modes@.len() == 0 {
        Err(ResolveError::NoModes)
    } else {
        Ok(connector.modes@[0])
    }
}

/// The mode resolution of one connector: the live path's mode when it
/// finds one, the native mode when the live path yields nothing, and
/// an error when the connector is not connected, a live lookup fails,
/// or there is no mode to fall back to.
pub open spec fn spec_connector_mode(device: Device, connector: ConnectorInfo) -> Result<
    Mode,
    ResolveError,
> {
    if !(connector.state is Connected) {
        Err(ResolveError::NotConnected)
    } else {
        match spec_live_outcome(device, connector) {
            LiveOutcome::Found(mode) => Ok(mode),
            LiveOutcome::Absent => spec_fallback_mode(connector),
            LiveOutcome::Failed(err) => Err(err),
        }
    }
}

/// Resolve the mode `connector` is currently displaying on `device`:
/// the mode its encoder's CRTC is scanning out when that chain
/// resolves, and the connector's native mode when the chain ends
/// without one.  Some drivers leave the chain unpopulated even while
/// driving the display; the native mode is the best approximation
/// there, and the caller should report it with lower confidence.
pub fn get_connector_mode(device: &Device, connector: &ConnectorInfo) -> (resolved: Result<
    Mode,
    ResolveError,
>)
    ensures
        resolved == spec_connector_mode(*device, *connector),
        connector.state is Connected ==> (spec_live_outcome(*device, *connector) matches
        LiveOutcome::Found(mode) ==> resolved == Ok::<Mode, ResolveError>(mode)),
        spec_live_outcome(*device, *connector) is Absent && connector.state is Connected
            && connector.modes@.len() > 0 ==> resolved == Ok::<Mode, ResolveError>(
            connector.modes@[0],
        ),
        spec_live_outcome(*device, *connector) is Absent && connector.state is Connected
            && connector.modes@.len() == 0 ==> resolved == Err::<Mode, ResolveError>(
            ResolveError::NoModes,
        ),
{
    if connector.state != ConnectorState::Connected {
        return Err(ResolveError::NotConnected);
    }
    if let Some(encoder_handle) = connector.current_encoder {
        let encoder = match lookup_entry(&device.encoders, encoder_handle) {
            Some(encoder) => encoder,
            None => {
                return Err(ResolveError::EncoderFetch);
            },
        };
        if let Some(crtc_handle) = encoder.crtc {
            let crtc = match lookup_entry(&device.crtcs, crtc_handle) {
                Some(crtc) => crtc,
                None => {
                    return Err(ResolveError::CrtcFetch);
                },
            };
            if let Some(current_mode) = crtc.mode {
                return Ok(current_mode);
            }
        }
    }
    // The live path yielded nothing: fall back to the native mode.
    if connector.modes.len() == 0 {
        return Err(ResolveError::NoModes);
    }
    Ok(connector.modes[0])
}

/// Whether every connector handle of `handles` resolves on `device`.
/// The handles come from the device's own resource set, so one that
/// does not resolve marks the device itself as unusable.
pub open spec fn connectors_fetch_ok(device: Device, handles: Seq<u32>) -> bool {
    forall|j: int|
        0 <= j < handles.len() ==> lookup(device.connectors@, handles[j]) is Some
}

/// The modes a walk over `handles` gathers, in enumeration order: one
/// mode per handle whose connector is connected and resolves to a
/// mode; every other handle contributes nothing.
pub open spec fn resolved_modes(device: Device, handles: Seq<u32>) -> Seq<Mode>
    decreases handles.len(),
{
    if handles.len() == 0 {
        Seq::empty()
    } else {
        let prefix = resolved_modes(device, handles.drop_last());
        match lookup(device.connectors@, handles.last()) {
            None => prefix,
            Some(connector) => if connector.state is Connected {
                match spec_connector_mode(device, connector) {
                    Ok(mode) => prefix.push(mode),
                    Err(_) => prefix,
                }
            } else {
                prefix
            },
        }
    }
}

/// The result of one resolution pass over `device`: the gathered modes
/// when the resource set and every connector handle in it resolve, and
/// the fatal error otherwise.
pub open spec fn spec_card_modes(device: Device) -> Result<Seq<Mode>, ResolveError> {
    match device.resource_connectors {
        None => Err(ResolveError::ResourceFetch),
        Some(handles) => if connectors_fetch_ok(device, handles@) {
            Ok(resolved_modes(device, handles@))
        } else {
            Err(ResolveError::ConnectorFetch)
        },
    }
}

/// Resolve the currently displayed mode of every connected connector
/// of `device`, in the enumeration order of its resource set.
///
/// A failing resource-set fetch or connector-handle fetch is fatal to
/// the pass.  A connector that fails its own resolution — a broken
/// live path or an empty mode list — is dropped from the result and
/// the walk goes on; a device with no connected connector yields the
/// empty sequence, which is not an error.
pub fn get_card_modes(device: &Device) -> (result: Result<Vec<Mode>, ResolveError>)
    ensures
        match result {
            Ok(modes) => spec_card_modes(*device) == Ok::<Seq<Mode>, ResolveError>(modes@),
            Err(err) => spec_card_modes(*device) == Err::<Seq<Mode>, ResolveError>(err),
        },
{
    let handles = match &device.resource_connectors {
        Some(handles) => handles,
        None => {
            return Err(ResolveError::ResourceFetch);
        },
    };
    let mut modes: Vec<Mode> = Vec::new();
    let mut i: usize = 0;
    while i < handles.len()
        invariant
            i <= handles.len(),
            device.resource_connectors == Some(*handles),
            forall|j: int|
                0 <= j < i ==> lookup(device.connectors@, handles@[j]) is Some,
            modes@ == resolved_modes(*device, handles@.take(i as int)),
        decreases handles.len() - i,
    {
        let connector = match lookup_entry(&device.connectors, handles[i]) {
            Some(connector) => connector,
            None => {
                return Err(ResolveError::ConnectorFetch);
            },
        };
        if connector.state == ConnectorState::Connected {
            match get_connector_mode(device, connector) {
                Ok(mode) => modes.push(mode),
                Err(_) => {
                    // This connector failed on its own; the walk goes on.
                },
            }
        }
        proof {
            assert(handles@.take(i as int + 1).drop_last() =~= handles@.take(i as int));
            assert(handles@.take(i as int + 1).last() == handles@[i as int]);
        }
        i = i + 1;
    }
    proof {
        assert(handles@.take(handles@.len() as int) =~= handles@);
    }
    Ok(modes)
}

/// Whether `handle` resolves on `device` to a connected connector
/// whose mode resolution yields `mode`.
pub open spec fn resolves_to(device: Device, handle: u32, mode: Mode) -> bool {
    lookup(device.connectors@, handle) matches Some(connector) && connector.state is Connected
        && spec_connector_mode(device, connector) == Ok::<Mode, ResolveError>(mode)
}

/// Every mode of the gathered sequence is the resolution of some
/// connected connector of the enumeration; connectors that are not
/// connected never reach the result.
pub proof fn lemma_every_mode_from_a_connected_connector(
    device: Device,
    handles: Seq<u32>,
    k: int,
)
    requires
        0 <= k < resolved_modes(device, handles).len(),
    ensures
        exists|j: int|
            0 <= j < handles.len() && resolves_to(
                device,
                handles[j],
                resolved_modes(device, handles)[k],
            ),
    decreases handles.len(),
{
    let all = resolved_modes(device, handles);
    let dropped = handles.drop_last();
    let prefix = resolved_modes(device, dropped);
    let last_entry = lookup(device.connectors@, handles.last());
    let found_last = last_entry matches Some(connector) && connector.state is Connected
        && spec_connector_mode(device, connector) is Ok;
    if found_last && k == prefix.len() {
        let connector = last_entry.unwrap();
        assert(all[k] == spec_connector_mode(device, connector).unwrap());
        assert(resolves_to(device, handles[handles.len() - 1], all[k]));
    } else {
        assert(all[k] == prefix[k]);
        lemma_every_mode_from_a_connected_connector(device, dropped, k);
        let j0 = choose|j: int|
            0 <= j < dropped.len() && resolves_to(device, dropped[j], prefix[k]);
        assert(handles[j0] == dropped[j0]);
        assert(resolves_to(device, handles[j0], all[k]));
    }
}

/// A connector that is not connected is never resolved and never
/// reaches the result: dropping its handle from the enumeration
/// leaves the gathered modes unchanged.
pub proof fn lemma_unconnected_contributes_nothing(device: Device, handles: Seq<u32>, j: int)
    requires
        0 <= j < handles.len(),
        lookup(device.connectors@, handles[j]) matches Some(connector) && !(connector.state
            is Connected),
    ensures
        resolved_modes(device, handles) == resolved_modes(device, handles.remove(j)),
    decreases handles.len(),
{
    if j == handles.len() - 1 {
        assert(handles.remove(j) =~= handles.drop_last());
    } else {
        lemma_unconnected_contributes_nothing(device, handles.drop_last(), j);
        assert(handles.remove(j).drop_last() =~= handles.drop_last().remove(j));
        assert(handles.remove(j).last() == handles.last());
        assert(handles.drop_last()[j] == handles[j]);
    }
}

/// The result follows the enumeration order of the resource set: the
/// modes gathered over a block of handles stand, unreordered, before
/// those gathered over any block enumerated after it.
pub proof fn lemma_order_follows_enumeration(device: Device, first: Seq<u32>, second: Seq<u32>)
    ensures
        resolved_modes(device, first + second) == resolved_modes(device, first) + resolved_modes(
            device,
            second,
        ),
    decreases second.len(),
{
    if second.len() == 0 {
        assert(first + second =~= first);
        assert(resolved_modes(device, first) + resolved_modes(device, second) =~= resolved_modes(
            device,
            first,
        ));
    } else {
        lemma_order_follows_enumeration(device, first, second.drop_last());
        assert((first + second).drop_last() =~= first + second.drop_last());
        assert((first + second).last() == second.last());
        let prefix = resolved_modes(device, first + second.drop_last());
        match lookup(device.connectors@, second.last()) {
            None => {},
            Some(connector) => {
                if connector.state is Connected {
                    match spec_connector_mode(device, connector) {
                        Ok(mode) => {
                            assert(prefix.push(mode) =~= resolved_modes(device, first)
                                + resolved_modes(device, second.drop_last()).push(mode));
                        },
                        Err(_) => {},
                    }
                }
            },
        }
    }
}

/// Two passes over the same device state resolve to the same
/// sequence: resolution only reads the device and keeps no state of
/// its own between calls.
pub proof fn lemma_resolution_repeatable(first_seen: Device, second_seen: Device)
    requires
        first_seen == second_seen,
    ensures
        spec_card_modes(first_seen) == spec_card_modes(second_seen),
{
}

} // verus!
