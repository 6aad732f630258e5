//! The font handle and the decisions behind every fallible font operation.
//!
//! A `Font` is the owning handle to a loaded native font.  Loading happens
//! outside this crate (from a file path, a byte buffer, or a raw stream);
//! whatever the source, the native call yields an address and, on failure,
//! leaves a message in the native last-error slot.  `Font::from_native`
//! turns that pair into either an owning handle or a `NativeFailure`, and
//! `Font::close` is the lifecycle guard deciding whether the native close
//! call may be made when the handle is destroyed.
//!
//! The remaining functions interpret the raw return values of the native
//! per-font queries: text sizing, glyph lookup, and the kerning flag.

use vstd::prelude::*;

use crate::error::NativeFailure;
use crate::handle::release_decision;
use crate::subsystem::SubsystemState;

verus! {

/// The owning handle to a loaded native font.
#[derive(Debug)]
pub struct Font {
    raw: usize,
    owned: bool,
}

impl Font {
    /// The address of the native font.
    pub closed spec fn raw_spec(self) -> usize {
        self.raw
    }

    /// Whether this handle is responsible for closing the native font.
    pub closed spec fn owns(self) -> bool {
        self.owned
    }

    /// A well-formed font handle refers to an actual native font: its
    /// address is non-null.
    pub open spec fn wf(self) -> bool {
        self.raw_spec() != 0
    }

    /// Decide a native font-loading call: a non-null address becomes an
    /// owning handle, a null address means the load failed and `error`, the
    /// native last-error message read immediately after the call, becomes
    /// the failure value.  Success is never ambiguous: a returned handle is
    /// well-formed and owning.
    pub fn from_native(raw: usize, error: String) -> (r: Result<Font, NativeFailure>)
        ensures
            r is Ok <==> raw != 0,
            r matches Ok(f) ==> f.wf() && f.owns() && f.raw_spec() == raw,
            r matches Err(e) ==> e.message_spec() == error@,
    {
        if raw == 0 {
            Err(NativeFailure::new(error))
        } else {
            Ok(Font { raw, owned: true })
        }
    }

    /// The address of the native font, for making native calls on it.
    pub fn raw(&self) -> (r: usize)
        ensures
            r == self.raw_spec(),
    {
        self.raw
    }

    /// Whether this handle is responsible for closing the native font.
    pub fn owned(&self) -> (r: bool)
        ensures
            r == self.owns(),
    {
        self.owned
    }

    /// The lifecycle guard run when the handle is destroyed.  Returns
    /// whether the caller must now make the native close call: only if this
    /// handle owned the font and the subsystem is still initialized;
    /// otherwise the close is skipped silently, since touching the native
    /// font after subsystem shutdown is forbidden.  Afterwards the handle
    /// owns nothing, so the font can never be closed twice through it.
    pub fn close(&mut self, st: SubsystemState) -> (release: bool)
        ensures
            release == release_decision(old(self).owns(), st),
            !final(self).owns(),
            final(self).raw_spec() == old(self).raw_spec(),
    {
        let release = self.owned && st.was_inited();
        self.owned = false;
        release
    }
}

/// Decide a native text-sizing call: the native call fills a width and a
/// height and returns a status; the pair is meaningful exactly when the
/// status is zero, and otherwise `error`, the native last-error message read
/// immediately after the call, becomes the failure value.
pub fn size_result(status: i32, width: i32, height: i32, error: String) -> (r: Result<
    (i32, i32),
    NativeFailure,
>)
    ensures
        r is Ok <==> status == 0,
        r matches Ok(wh) ==> wh == (width, height),
        r matches Err(e) ==> e.message_spec() == error@,
{
    if status != 0 {
        Err(NativeFailure::new(error))
    } else {
        Ok((width, height))
    }
}

/// Decide a native glyph-availability query: the native call returns the
/// glyph's index in the font, with zero meaning the glyph is not provided.
pub fn glyph_index_result(index: i32) -> (r: Option<i32>)
    ensures
        r is Some <==> index != 0,
        r matches Some(i) ==> i == index,
{
    if index == 0 {
        None
    } else {
        Some(index)
    }
}

/// The native integer for a kerning setting.
pub open spec fn kerning_value(enabled: bool) -> i32 {
    if enabled {
        1
    } else {
        0
    }
}

/// The kerning setting a native integer denotes: any nonzero value means
/// kerning is enabled.
pub open spec fn kerning_of_value(v: i32) -> bool {
    v != 0
}

/// Decode the native kerning flag.
pub fn kerning_from_native(v: i32) -> (r: bool)
    ensures
        r == kerning_of_value(v),
{
    v != 0
}

/// Encode a kerning setting as the native integer.
pub fn kerning_to_native(enabled: bool) -> (r: i32)
    ensures
        r == kerning_value(enabled),
{
    if enabled {
        1
    } else {
        0
    }
}

/// Round trip for the kerning flag: every setting decodes back from its own
/// native encoding.
pub proof fn lemma_kerning_round_trip(enabled: bool)
    ensures
        kerning_of_value(kerning_value(enabled)) == enabled,
{
}

} // verus!
