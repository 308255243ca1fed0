//! The font face handle and its query surface.
//!
//! `FontFace` exclusively owns one native face and the whole-font metrics
//! snapshot captured once at construction.  Every public query is
//! self-contained: it makes its native calls, returns a plain value, and
//! leaves the resource ledger balanced — the table release-context is given
//! back exactly once per acquisition, and every per-file reference the
//! enumeration hands out is either transferred into a `FontFile` or released
//! before the call returns.
//!
//! Callers sharing one handle across threads must serialize access
//! themselves: the queries take the handle exclusively and impose no
//! internal locking.

use vstd::prelude::*;

use crate::metrics::FontMetrics;
use crate::metrics::GlyphMetrics;
use crate::native::NativeFace;
use crate::native::derived_from;
use crate::native::glyph_for;
use crate::native::glyph_metrics_for;
use crate::native::table_for;
use crate::policy::FatalError;
use crate::policy::RENDERING_MODE_NATURAL_SYMMETRIC;
use crate::policy::STATUS_SUCCESS;
use crate::policy::rendering_mode_outcome;

verus! {

/// The identifier of the process-wide default rendering-parameters handle.
pub const DEFAULT_RENDERING_PARAMS_ID: u64 = 0;

/// An owned token for one rendering-parameters handle: either the
/// process-wide default or a handle the caller supplied.
#[derive(Clone, Copy, PartialEq, Eq, Structural, Debug)]
pub struct RenderingParams {
    pub id: u64,
}

/// The process-wide default rendering parameters.
pub fn default_rendering_params() -> (r: RenderingParams)
    ensures
        r.id == DEFAULT_RENDERING_PARAMS_ID,
{
    RenderingParams { id: DEFAULT_RENDERING_PARAMS_ID }
}

/// An owned font-file resource: one raw native file reference whose
/// ownership was transferred in by file enumeration and is released when
/// the wrapper is dropped.
#[derive(Debug)]
pub struct FontFile {
    id: u64,
}

impl FontFile {
    /// The raw native file identifier this wrapper owns.
    pub closed spec fn id(&self) -> u64 {
        self.id
    }

    /// Take ownership of an already-acquired raw file reference.
    pub fn take(raw: u64) -> (r: FontFile)
        ensures
            r.id() == raw,
    {
        FontFile { id: raw }
    }

    /// The raw native file identifier this wrapper owns.
    pub fn raw_id(&self) -> (r: u64)
        ensures
            r == self.id(),
    {
        self.id
    }
}

/// One font face: an exclusively-owned native face reference and the
/// metrics snapshot captured from it at construction.
#[derive(Debug)]
pub struct FontFace {
    native: NativeFace,
    metrics: FontMetrics,
}

impl FontFace {
    /// The native face this handle owns.
    pub closed spec fn model(&self) -> NativeFace {
        self.native
    }

    /// The metrics snapshot captured at construction.
    pub closed spec fn snapshot(&self) -> FontMetrics {
        self.metrics
    }

    /// A live handle: the native ledger is consistent and the snapshot is
    /// the one taken from the wrapped native face at construction.
    pub open spec fn wf(&self) -> bool {
        &&& self.model().wf()
        &&& self.snapshot() == self.model().metrics
    }

    /// Consume an already-acquired native face reference and capture the
    /// metrics snapshot from it, exactly once.
    pub fn take(native: NativeFace) -> (r: FontFace)
        requires
            native.wf(),
        ensures
            r.wf(),
            r.model() == native,
            r.snapshot() == native.metrics,
    {
        let snapshot = native.get_metrics();
        FontFace { native, metrics: snapshot }
    }

    /// Borrow the wrapped native face, read-only: the counterpart of
    /// handing out the raw native handle, and the window through which the
    /// resource ledger is observable.
    pub fn native(&self) -> (r: &NativeFace)
        ensures
            *r == self.model(),
    {
        &self.native
    }

    /// The cached metrics snapshot: no native call, no failure, the same
    /// value on every call.
    pub fn metrics(&self) -> (r: &FontMetrics)
        ensures
            *r == self.snapshot(),
    {
        &self.metrics
    }

    /// Re-query the native face for its metrics; independent of the cached
    /// snapshot.  The native call cannot fail for a live handle.
    pub fn get_metrics(&self) -> (r: FontMetrics)
        ensures
            r == self.model().metrics,
    {
        self.native.get_metrics()
    }

    /// Total number of glyphs of the face.
    pub fn get_glyph_count(&self) -> (r: u16)
        ensures
            r == self.model().glyph_count,
    {
        self.native.get_glyph_count()
    }

    /// The two-call enumeration of the raw file references backing the
    /// face: ask for the count, then fill that many handles, acquiring one
    /// reference each.  The caller owes one release or ownership transfer
    /// per element.
    fn get_raw_files(&mut self) -> (r: Vec<u64>)
        requires
            old(self).wf(),
            old(self).model().file_refs_acquired + old(self).model().files@.len() <= u64::MAX,
        ensures
            final(self).wf(),
            r@ == old(self).model().files@,
            final(self).model().file_refs_acquired == old(self).model().file_refs_acquired
                + r@.len(),
            final(self).model().file_refs_released == old(self).model().file_refs_released,
            final(self).model().table_contexts_acquired == old(
                self,
            ).model().table_contexts_acquired,
            final(self).model().table_contexts_released == old(
                self,
            ).model().table_contexts_released,
            final(self).model().same_font_data(&old(self).model()),
            final(self).snapshot() == old(self).snapshot(),
    {
        let reported = self.native.file_count();
        let files = self.native.fill_files();
        // the two halves must agree for a stable handle; a disagreement
        // would be the fatal file-count mismatch, which the model cannot
        // produce, so here the check is a proved fact
        assert(reported as usize == files@.len());
        files
    }

    /// Enumerate the font-file resources backing the face, transferring
    /// each acquired raw reference into an owned `FontFile`.  The count may
    /// legitimately be zero for a memory-resident font.
    pub fn get_files(&mut self) -> (r: Vec<FontFile>)
        requires
            old(self).wf(),
            old(self).model().file_refs_acquired + old(self).model().files@.len() <= u64::MAX,
        ensures
            final(self).wf(),
            r@.len() == old(self).model().files@.len(),
            forall|i: int|
                0 <= i < r@.len() ==> (#[trigger] r@[i]).id() == old(self).model().files@[i],
            final(self).model().file_refs_acquired == old(self).model().file_refs_acquired
                + r@.len(),
            final(self).model().file_refs_released == old(self).model().file_refs_released,
            final(self).model().table_contexts_acquired == old(
                self,
            ).model().table_contexts_acquired,
            final(self).model().table_contexts_released == old(
                self,
            ).model().table_contexts_released,
            final(self).model().same_font_data(&old(self).model()),
            final(self).snapshot() == old(self).snapshot(),
    {
        let raw = self.get_raw_files();
        let n = raw.len();
        let mut out: Vec<FontFile> = Vec::new();
        let mut i: usize = 0;
        while i < n
            invariant
                n == raw@.len(),
                i <= n,
                out@.len() == i,
                forall|j: int| 0 <= j < i ==> (#[trigger] out@[j]).id() == raw@[j],
            decreases n - i,
        {
            out.push(FontFile::take(raw[i]));
            i = i + 1;
        }
        out
    }

    /// Build a face over the same font files and face index with the given
    /// simulation flags applied.  Protocol: enumerate the raw files, read
    /// the face's structural type and index, invoke the factory's
    /// face-creation entry, then release every enumerated file reference
    /// regardless of the outcome.  A non-success factory status is a fatal
    /// internal-consistency error.
    pub fn create_font_face_with_simulations(&mut self, simulations: u32) -> (r: Result<
        FontFace,
        FatalError,
    >)
        requires
            old(self).wf(),
            old(self).model().file_refs_acquired + old(self).model().files@.len() <= u64::MAX,
        ensures
            final(self).wf(),
            // every enumerated file reference is released before returning,
            // whether or not face creation succeeded
            final(self).model().file_refs_acquired == old(self).model().file_refs_acquired + old(
                self,
            ).model().files@.len(),
            final(self).model().file_refs_released == old(self).model().file_refs_released + old(
                self,
            ).model().files@.len(),
            final(self).model().outstanding_file_refs() == old(
                self,
            ).model().outstanding_file_refs(),
            final(self).model().table_contexts_acquired == old(
                self,
            ).model().table_contexts_acquired,
            final(self).model().table_contexts_released == old(
                self,
            ).model().table_contexts_released,
            final(self).model().same_font_data(&old(self).model()),
            final(self).snapshot() == old(self).snapshot(),
            (old(self).model().create_status == STATUS_SUCCESS) <==> r is Ok,
            r is Err ==> r->Err_0 == (FatalError::FaceCreationFailed {
                status: old(self).model().create_status,
            }),
            r is Ok ==> {
                let f = r->Ok_0;
                &&& f.wf()
                &&& derived_from(f.model(), old(self).model(), simulations)
                &&& f.snapshot() == old(self).model().metrics
            },
    {
        let raw_files = self.get_raw_files();
        let face_type = self.native.get_type();
        let face_index = self.native.get_index();
        // the factory's face-creation entry: its status decides the outcome
        let status = self.native.create_status;
        let created = if status == STATUS_SUCCESS {
            Some(self.native.derived_face(face_type, face_index, simulations))
        } else {
            None
        };
        // release every enumerated file reference, success or not
        let n = raw_files.len();
        let mut i: usize = 0;
        while i < n
            invariant
                i <= n,
                n == old(self).model().files@.len(),
                old(self).model().wf(),
                self.model().file_refs_released == old(self).model().file_refs_released + i,
                self.model().file_refs_acquired == old(self).model().file_refs_acquired + n,
                self.model().table_contexts_acquired == old(self).model().table_contexts_acquired,
                self.model().table_contexts_released == old(self).model().table_contexts_released,
                self.model().same_font_data(&old(self).model()),
                self.snapshot() == old(self).snapshot(),
            decreases n - i,
        {
            self.native.release_file_ref();
            i = i + 1;
        }
        match created {
            Some(derived) => Ok(FontFace::take(derived)),
            None => Err(FatalError::FaceCreationFailed { status }),
        }
    }

    /// Map an ordered batch of code points to an equal-length, position-
    /// correlated batch of glyph indices.  A code point with no mapped
    /// glyph yields the missing-glyph sentinel at its position, not a
    /// fault; the native call cannot fail for well-formed input.
    pub fn get_glyph_indices(&self, code_points: &Vec<u32>) -> (r: Vec<u16>)
        ensures
            r@.len() == code_points@.len(),
            forall|i: int|
                0 <= i < r@.len() ==> r@[i] == glyph_for(
                    self.model().cmap@,
                    #[trigger] code_points@[i],
                ),
    {
        let n = code_points.len();
        let mut out: Vec<u16> = Vec::new();
        let mut i: usize = 0;
        while i < n
            invariant
                n == code_points@.len(),
                i <= n,
                out@.len() == i,
                forall|j: int|
                    0 <= j < i ==> out@[j] == glyph_for(
                        self.model().cmap@,
                        #[trigger] code_points@[j],
                    ),
            decreases n - i,
        {
            out.push(self.native.lookup_glyph(code_points[i]));
            i = i + 1;
        }
        out
    }

    /// Per-glyph design-space metrics for an ordered batch of glyph
    /// indices, position-correlated; `is_sideways` selects the vertical
    /// writing-mode records.  An index that names no glyph yields the
    /// all-zero record.
    pub fn get_design_glyph_metrics(&self, glyph_indices: &Vec<u16>, is_sideways: bool) -> (r: Vec<
        GlyphMetrics,
    >)
        ensures
            r@.len() == glyph_indices@.len(),
            is_sideways ==> forall|i: int|
                0 <= i < r@.len() ==> r@[i] == glyph_metrics_for(
                    self.model().sideways_glyph_records@,
                    #[trigger] glyph_indices@[i],
                ),
            !is_sideways ==> forall|i: int|
                0 <= i < r@.len() ==> r@[i] == glyph_metrics_for(
                    self.model().glyph_records@,
                    #[trigger] glyph_indices@[i],
                ),
    {
        let n = glyph_indices.len();
        let mut out: Vec<GlyphMetrics> = Vec::new();
        let mut i: usize = 0;
        while i < n
            invariant
                n == glyph_indices@.len(),
                i <= n,
                out@.len() == i,
                is_sideways ==> forall|j: int|
                    0 <= j < i ==> out@[j] == glyph_metrics_for(
                        self.model().sideways_glyph_records@,
                        #[trigger] glyph_indices@[j],
                    ),
                !is_sideways ==> forall|j: int|
                    0 <= j < i ==> out@[j] == glyph_metrics_for(
                        self.model().glyph_records@,
                        #[trigger] glyph_indices@[j],
                    ),
            decreases n - i,
        {
            out.push(self.native.lookup_glyph_metrics(glyph_indices[i], is_sideways));
            i = i + 1;
        }
        out
    }

    /// The raw bytes of the table tagged `table_tag`, or the absence value
    /// when the face has no such table — absence is not an error.  The
    /// native release-context acquired with the bytes is released exactly
    /// once, before this call returns, on every return path.
    pub fn get_font_table(&mut self, table_tag: u32) -> (r: Option<Vec<u8>>)
        requires
            old(self).wf(),
            old(self).model().table_contexts_acquired < u64::MAX,
        ensures
            final(self).wf(),
            match table_for(old(self).model().tables@, table_tag) {
                Some(bytes) => r is Some && r->0@ == bytes,
                None => r is None,
            },
            // the scoped context is released exactly as often as it was
            // acquired: repeated queries do not grow resource usage
            final(self).model().table_contexts_acquired - old(
                self,
            ).model().table_contexts_acquired == final(self).model().table_contexts_released - old(
                self,
            ).model().table_contexts_released,
            final(self).model().outstanding_table_contexts() == old(
                self,
            ).model().outstanding_table_contexts(),
            r is Some ==> final(self).model().table_contexts_acquired == old(
                self,
            ).model().table_contexts_acquired + 1,
            r is None ==> final(self).model().table_contexts_acquired == old(
                self,
            ).model().table_contexts_acquired,
            final(self).model().file_refs_acquired == old(self).model().file_refs_acquired,
            final(self).model().file_refs_released == old(self).model().file_refs_released,
            final(self).model().same_font_data(&old(self).model()),
            final(self).snapshot() == old(self).snapshot(),
    {
        match self.native.try_get_font_table(table_tag) {
            Some(bytes) => {
                // the bytes are already an owned copy; give the scoped
                // release-context back before returning them
                self.native.release_font_table();
                Some(bytes)
            },
            None => None,
        }
    }

    /// The native layer's recommended rendering mode for the given
    /// measuring mode and rendering parameters.  This query never faults:
    /// when the native call fails, the fixed fallback mode (natural,
    /// symmetric) is returned instead of an error.
    #[allow(unused_variables)]
    pub fn get_recommended_rendering_mode(
        &self,
        measure_mode: u32,
        rendering_params: &RenderingParams,
    ) -> (r: u32)
        ensures
            self.model().rendering_status == STATUS_SUCCESS ==> r == self.model().rendering_mode,
            self.model().rendering_status != STATUS_SUCCESS ==> r
                == RENDERING_MODE_NATURAL_SYMMETRIC,
    {
        rendering_mode_outcome(self.native.rendering_status, self.native.rendering_mode)
    }

    /// The recommended rendering mode under the process-wide default
    /// rendering parameters.
    pub fn get_recommended_rendering_mode_default_params(&self, measure_mode: u32) -> (r: u32)
        ensures
            self.model().rendering_status == STATUS_SUCCESS ==> r == self.model().rendering_mode,
            self.model().rendering_status != STATUS_SUCCESS ==> r
                == RENDERING_MODE_NATURAL_SYMMETRIC,
    {
        let params = default_rendering_params();
        self.get_recommended_rendering_mode(measure_mode, &params)
    }
}

/// The metrics snapshot is captured exactly once, at construction: on every
/// live handle the value `metrics` returns equals the value a fresh
/// `get_metrics` re-query reports, so repeated `metrics` calls all return
/// one value.
pub proof fn lemma_metrics_snapshot_stable(face: &FontFace)
    requires
        face.wf(),
    ensures
        face.snapshot() == face.model().metrics,
{
}

} // verus!
