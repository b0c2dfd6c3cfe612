//! Types and constants of the native audio layer.
//!
//! These mirror the platform's hardware-abstraction service: an object is a
//! `u32` handle, a property is addressed by a (selector, scope, element)
//! triple of `u32` codes, and every call reports a signed `i32` status code,
//! zero meaning success.

#![allow(non_upper_case_globals)]

use vstd::prelude::*;

verus! {

/// Signed result code of a native call; zero means success, anything else is
/// an opaque failure code.
pub type OSStatus = i32;

/// Unsigned handle to a native audio object.
pub type AudioObjectID = u32;

/// Code naming which property of an object to read.
pub type AudioObjectPropertySelector = u32;

/// Code naming the scope a property is read at.
pub type AudioObjectPropertyScope = u32;

/// Code naming the channel element a property is read at.
pub type AudioObjectPropertyElement = u32;

/// Which hardware property to read: a selector, at a scope, for a channel
/// element. Addresses are plain immutable values; the two well-known default
/// device addresses are built by `utils`.
#[allow(non_snake_case)]
#[derive(Clone, Copy, Debug, PartialEq, Eq, Structural)]
pub struct AudioObjectPropertyAddress {
    pub mSelector: AudioObjectPropertySelector,
    pub mScope: AudioObjectPropertyScope,
    pub mElement: AudioObjectPropertyElement,
}

/// The outcome of one native "get property data" call, as the platform hands
/// it back: the status code, the byte count the native layer reports written,
/// and the output buffer after the call. The buffer is zero-initialized
/// before the call, so a call that wrote nothing leaves it zero — the library
/// never trusts it unless the status and the size say it may.
#[derive(Clone, Copy, Debug, PartialEq, Eq, Structural)]
pub struct PropertyDataReply {
    pub status: OSStatus,
    pub size: u32,
    pub data: AudioObjectID,
}

/// Status code for success.
pub const kAudioHardwareNoError: OSStatus = 0;

/// Status code the native layer reports for a bad object reference.
pub const kAudioHardwareBadObjectError: OSStatus = 560947818;

/// Sentinel object id meaning "no object" / unknown.
pub const kAudioObjectUnknown: AudioObjectID = 0;

/// Handle of the system-wide root audio object.
pub const kAudioObjectSystemObject: AudioObjectID = 1;

/// Scope code for properties that do not belong to an input or output side.
pub const kAudioObjectPropertyScopeGlobal: AudioObjectPropertyScope = 1735159650;

/// Element code for the master channel.
pub const kAudioObjectPropertyElementMaster: AudioObjectPropertyElement = 0;

/// Selector of the default input device property of the system object.
pub const kAudioHardwarePropertyDefaultInputDevice: AudioObjectPropertySelector = 1682533920;

/// Selector of the default output device property of the system object.
pub const kAudioHardwarePropertyDefaultOutputDevice: AudioObjectPropertySelector = 1682929012;

/// Byte size of an `AudioObjectID`, the one property type this library reads.
/// A successful reply must report exactly this many bytes written before its
/// buffer is trusted.
pub const AUDIO_OBJECT_ID_SIZE: u32 = 4;

} // verus!
