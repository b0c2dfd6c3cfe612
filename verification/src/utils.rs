//! Resolving the system's default audio device.
//!
//! The caller performs the one native call — reading the default-device
//! property of the system audio object — and hands its raw outcome back as a
//! [`sys::PropertyDataReply`]. Everything that decides lives here: which
//! property address belongs to which scope, how a status code maps to a typed
//! error, when a reply's written size disqualifies its buffer, and when a
//! successful read still means "no device".

use crate::sys;
use crate::sys::AudioObjectID;
use crate::sys::AudioObjectPropertyAddress;
use crate::sys::OSStatus;
use crate::sys::PropertyDataReply;
use vstd::prelude::*;

verus! {

/// Logical direction of a default-device query.
#[derive(Clone, Copy, Debug, PartialEq, Eq, Structural)]
pub enum Scope {
    Input,
    Output,
}

/// Every way a query can fail, one variant each; the mapping from native
/// status codes is total, so no code ever panics on an unrecognized value.
#[derive(Clone, Copy, Debug, PartialEq, Eq, Structural)]
pub enum Error {
    /// The query succeeded but resolved to the "unknown" sentinel: there is
    /// no such device.
    NoDevice,
    /// The native layer rejected the object reference, or the object id was
    /// the "unknown" sentinel to begin with.
    InvalidParameters,
    /// The native layer reported success but wrote a different number of
    /// bytes than the property's type has: the buffer cannot be trusted.
    SizeMismatch,
    /// Any other nonzero native status code, carried verbatim.
    Unknown(OSStatus),
}

/// A resolved device id, handed to callers as a plain signed integer.
pub type DeviceId = i32;

/// The error a nonzero native status code maps to.
pub open spec fn spec_error_from_status(status: OSStatus) -> Error {
    if status == sys::kAudioHardwareBadObjectError {
        Error::InvalidParameters
    } else {
        Error::Unknown(status)
    }
}

impl core::convert::From<OSStatus> for Error {
    /// Maps a native status code to its typed error.
    fn from(status: OSStatus) -> (r: Error) {
        if status == sys::kAudioHardwareBadObjectError {
            Error::InvalidParameters
        } else {
            Error::Unknown(status)
        }
    }
}

impl vstd::std_specs::convert::FromSpecImpl<OSStatus> for Error {
    open spec fn obeys_from_spec() -> bool {
        true
    }

    open spec fn from_spec(status: OSStatus) -> Error {
        spec_error_from_status(status)
    }
}

/// The address of the system object's default input device property.
pub open spec fn spec_default_input_address() -> AudioObjectPropertyAddress {
    AudioObjectPropertyAddress {
        mSelector: sys::kAudioHardwarePropertyDefaultInputDevice,
        mScope: sys::kAudioObjectPropertyScopeGlobal,
        mElement: sys::kAudioObjectPropertyElementMaster,
    }
}

/// The address of the system object's default output device property.
pub open spec fn spec_default_output_address() -> AudioObjectPropertyAddress {
    AudioObjectPropertyAddress {
        mSelector: sys::kAudioHardwarePropertyDefaultOutputDevice,
        mScope: sys::kAudioObjectPropertyScopeGlobal,
        mElement: sys::kAudioObjectPropertyElementMaster,
    }
}

/// The address a given scope's query reads.
pub open spec fn spec_address_for_scope(scope: Scope) -> AudioObjectPropertyAddress {
    if scope == Scope::Input {
        spec_default_input_address()
    } else {
        spec_default_output_address()
    }
}

/// Builds the default input device address.
pub fn default_input_device_address() -> (r: AudioObjectPropertyAddress)
    ensures
        r == spec_default_input_address(),
{
    AudioObjectPropertyAddress {
        mSelector: sys::kAudioHardwarePropertyDefaultInputDevice,
        mScope: sys::kAudioObjectPropertyScopeGlobal,
        mElement: sys::kAudioObjectPropertyElementMaster,
    }
}

/// Builds the default output device address.
pub fn default_output_device_address() -> (r: AudioObjectPropertyAddress)
    ensures
        r == spec_default_output_address(),
{
    AudioObjectPropertyAddress {
        mSelector: sys::kAudioHardwarePropertyDefaultOutputDevice,
        mScope: sys::kAudioObjectPropertyScopeGlobal,
        mElement: sys::kAudioObjectPropertyElementMaster,
    }
}

/// Selects which well-known address a scope's query must read. The caller
/// performs the native call against this address and hands the reply back.
pub fn address_for_scope(scope: &Scope) -> (r: AudioObjectPropertyAddress)
    ensures
        r == spec_address_for_scope(*scope),
{
    if *scope == Scope::Input {
        default_input_device_address()
    } else {
        default_output_device_address()
    }
}

/// How a native status code reads as a result: zero is success, any other
/// code is the error it maps to.
pub open spec fn spec_convert_to_result(status: OSStatus) -> Result<(), Error> {
    if status == sys::kAudioHardwareNoError {
        Ok(())
    } else {
        Err(spec_error_from_status(status))
    }
}

/// Translates a native status code into a result, totally: success for zero,
/// a typed error for everything else.
pub fn convert_to_result(status: OSStatus) -> (r: Result<(), Error>)
    ensures
        r == spec_convert_to_result(status),
{
    if status == sys::kAudioHardwareNoError {
        Ok(())
    } else {
        Err(Error::from(status))
    }
}

/// The signed device id a raw object id reads as: the same value where it
/// fits, otherwise its two's-complement reinterpretation.
pub open spec fn spec_to_device_id(id: AudioObjectID) -> DeviceId {
    if id <= 0x7fff_ffff {
        id as DeviceId
    } else {
        (id - 0x1_0000_0000) as DeviceId
    }
}

/// Reinterprets a raw object id as a signed device id, bit for bit.
pub fn to_device_id(id: AudioObjectID) -> (r: DeviceId)
    ensures
        r == spec_to_device_id(id),
{
    if id <= 0x7fff_ffff {
        id as DeviceId
    } else {
        -1 - ((u32::MAX - id) as DeviceId)
    }
}

/// What a property read of `id` yields once the native call replied: the
/// sentinel id is rejected outright; a nonzero status is the error it maps
/// to; a success that wrote the wrong number of bytes is a size mismatch;
/// only then is the buffer's value returned. The reply's buffer contents
/// never influence anything but the final success value.
pub open spec fn spec_get_property_data(id: AudioObjectID, reply: PropertyDataReply) -> Result<
    AudioObjectID,
    Error,
> {
    if id == sys::kAudioObjectUnknown {
        Err(Error::InvalidParameters)
    } else if reply.status != sys::kAudioHardwareNoError {
        Err(spec_error_from_status(reply.status))
    } else if reply.size != sys::AUDIO_OBJECT_ID_SIZE {
        Err(Error::SizeMismatch)
    } else {
        Ok(reply.data)
    }
}

/// Reads one `AudioObjectID`-sized property value out of a native reply.
///
/// The caller invoked the native accessor for `id` at `_address` with a
/// zero-initialized buffer of [`sys::AUDIO_OBJECT_ID_SIZE`] bytes and hands
/// the outcome in `reply`; the address names that request and is not
/// consulted here. The "unknown" sentinel id is rejected without a native
/// call being owed at all, a nonzero status becomes its typed error, and a
/// success is trusted only if the reported written size matches the
/// property's type exactly.
pub fn get_property_data(
    id: AudioObjectID,
    _address: &AudioObjectPropertyAddress,
    reply: &PropertyDataReply,
) -> (r: Result<AudioObjectID, Error>)
    ensures
        r == spec_get_property_data(id, *reply),
{
    if id == sys::kAudioObjectUnknown {
        return Err(Error::InvalidParameters);
    }
    match convert_to_result(reply.status) {
        Err(e) => Err(e),
        Ok(()) => {
            if reply.size != sys::AUDIO_OBJECT_ID_SIZE {
                Err(Error::SizeMismatch)
            } else {
                Ok(reply.data)
            }
        },
    }
}

/// What a default-device lookup resolves to, given the native reply to the
/// scope's property read: a failed read keeps its error, a read that
/// resolved to the "unknown" sentinel is `NoDevice` even though the native
/// call succeeded, and anything else is the device's signed id.
pub open spec fn spec_get_default_device_id(scope: Scope, reply: PropertyDataReply) -> Result<
    DeviceId,
    Error,
> {
    match spec_get_property_data(sys::kAudioObjectSystemObject, reply) {
        Err(e) => Err(e),
        Ok(id) => if id == sys::kAudioObjectUnknown {
            Err(Error::NoDevice)
        } else {
            Ok(spec_to_device_id(id))
        },
    }
}

/// Resolves the default device id for a scope from the native reply to that
/// scope's property read.
///
/// The caller read the address [`address_for_scope`] gives for `scope` on
/// the system root object and hands the outcome in `reply`. A successful
/// read that resolves to the "unknown" sentinel is a distinct failure state,
/// [`Error::NoDevice`], not a valid device.
pub fn get_default_device_id(scope: &Scope, reply: &PropertyDataReply) -> (r: Result<
    DeviceId,
    Error,
>)
    ensures
        r == spec_get_default_device_id(*scope, *reply),
{
    let address = address_for_scope(scope);
    let id = match get_property_data(sys::kAudioObjectSystemObject, &address, reply) {
        Err(e) => {
            return Err(e);
        },
        Ok(id) => id,
    };
    if id == sys::kAudioObjectUnknown {
        Err(Error::NoDevice)
    } else {
        Ok(to_device_id(id))
    }
}

/// For either scope, a lookup against a system with at least one audio
/// device — a native reply that succeeded with the right size and a
/// non-sentinel id — returns `Ok` with a nonzero device id.
pub proof fn lemma_device_present_gives_nonzero_id(scope: Scope, reply: PropertyDataReply)
    requires
        reply.status == sys::kAudioHardwareNoError,
        reply.size == sys::AUDIO_OBJECT_ID_SIZE,
        reply.data != sys::kAudioObjectUnknown,
    ensures
        spec_get_default_device_id(scope, reply) matches Ok(id) && id != 0,
{
}

/// Reading a property of the "unknown" sentinel object deterministically
/// fails with `InvalidParameters` — never a success — whatever the native
/// layer would have replied and whichever address was asked for.
pub proof fn lemma_unknown_object_rejected(reply: PropertyDataReply)
    ensures
        spec_get_property_data(sys::kAudioObjectUnknown, reply) == Err::<AudioObjectID, Error>(
            Error::InvalidParameters,
        ),
{
}

/// Repeated lookups with the same scope against an unchanged system — the
/// native layer handing back the same reply — resolve to the same result.
pub proof fn lemma_get_default_device_id_idempotent(
    scope: Scope,
    first: PropertyDataReply,
    second: PropertyDataReply,
)
    requires
        first == second,
    ensures
        spec_get_default_device_id(scope, first) == spec_get_default_device_id(scope, second),
{
}

/// A native call that failed never has its buffer trusted: for a nonzero
/// status the read is an error, and the outcome is the same whatever bytes
/// the buffer holds — so a call that failed without writing its
/// zero-initialized buffer exposes nothing.
pub proof fn lemma_failed_call_exposes_no_data(
    id: AudioObjectID,
    first: PropertyDataReply,
    second: PropertyDataReply,
)
    requires
        first.status != sys::kAudioHardwareNoError,
        first.status == second.status,
        first.size == second.size,
    ensures
        spec_get_property_data(id, first) is Err,
        spec_get_property_data(id, first) == spec_get_property_data(id, second),
{
}

} // verus!
