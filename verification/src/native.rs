//! Model of the native face capability.
//!
//! The text-rendering engine hands out an opaque, refcounted face handle and
//! answers the calls listed here: metrics, type and index, glyph count, the
//! two-call file enumeration, code-point-to-glyph resolution, per-glyph
//! metrics, table lookup with a scoped release context, and a rendering-mode
//! recommendation.  `NativeFace` models that capability as plain data so the
//! face-level protocols can be verified and tested against it: the font data
//! the engine would consult, reply injection for the two calls whose status
//! the component must decide on, and a ledger that counts every auxiliary
//! resource the capability hands out and takes back.

use vstd::prelude::*;

use crate::metrics::FontMetrics;
use crate::metrics::GlyphMetrics;
use crate::metrics::spec_zero_glyph_metrics;

verus! {

/// The glyph index the native layer reports for a code point that no glyph
/// of the face maps: absence is a sentinel value, never a fault.
pub const MISSING_GLYPH_INDEX: u16 = 0;

/// One entry of the face's character map: a code point and the glyph index
/// it resolves to.
#[derive(Clone, Copy, PartialEq, Eq, Structural, Debug)]
pub struct CmapEntry {
    pub code_point: u32,
    pub glyph: u16,
}

/// One raw font table: a 4-byte tag packed as an integer, and the table's
/// bytes as the native layer reports them.
#[derive(Debug)]
pub struct FontTable {
    pub tag: u32,
    pub bytes: Vec<u8>,
}

/// The glyph index the character map resolves `cp` to, scanning entries
/// from position `i` on: the first matching entry wins, and a code point
/// with no entry resolves to the missing-glyph sentinel.
pub open spec fn glyph_for_from(cmap: Seq<CmapEntry>, i: int, cp: u32) -> u16
    decreases cmap.len() - i,
{
    if i < 0 || i >= cmap.len() {
        MISSING_GLYPH_INDEX
    } else if cmap[i].code_point == cp {
        cmap[i].glyph
    } else {
        glyph_for_from(cmap, i + 1, cp)
    }
}

/// The glyph index the character map resolves `cp` to.
pub open spec fn glyph_for(cmap: Seq<CmapEntry>, cp: u32) -> u16 {
    glyph_for_from(cmap, 0, cp)
}

/// The bytes of the first table tagged `tag`, scanning from position `i`
/// on, or `None` when the face has no such table.
pub open spec fn table_for_from(tables: Seq<FontTable>, i: int, tag: u32) -> Option<Seq<u8>>
    decreases tables.len() - i,
{
    if i < 0 || i >= tables.len() {
        None
    } else if tables[i].tag == tag {
        Some(tables[i].bytes@)
    } else {
        table_for_from(tables, i + 1, tag)
    }
}

/// The bytes of the face's table tagged `tag`, or `None` when absent.
pub open spec fn table_for(tables: Seq<FontTable>, tag: u32) -> Option<Seq<u8>> {
    table_for_from(tables, 0, tag)
}

/// Two table lists carry the same tables: equal tags and equal bytes,
/// position by position.
pub open spec fn tables_equal(a: Seq<FontTable>, b: Seq<FontTable>) -> bool {
    &&& a.len() == b.len()
    &&& forall|i: int|
        0 <= i < a.len() ==> (#[trigger] a[i]).tag == b[i].tag && a[i].bytes@ == b[i].bytes@
}

/// Table lookup respects table-list equality: a face that carries the same
/// tables — a face derived with simulations, for one — answers every table
/// request with the same bytes.
pub proof fn lemma_table_for_respects_tables_equal(
    a: Seq<FontTable>,
    b: Seq<FontTable>,
    tag: u32,
)
    requires
        tables_equal(a, b),
    ensures
        table_for(a, tag) == table_for(b, tag),
{
    lemma_table_for_from_respects(a, b, 0, tag);
}

proof fn lemma_table_for_from_respects(a: Seq<FontTable>, b: Seq<FontTable>, i: int, tag: u32)
    requires
        tables_equal(a, b),
    ensures
        table_for_from(a, i, tag) == table_for_from(b, i, tag),
    decreases a.len() - i,
{
    if 0 <= i < a.len() && a[i].tag != tag {
        lemma_table_for_from_respects(a, b, i + 1, tag);
    }
}

/// A code point that no entry of the character map mentions resolves to the
/// missing-glyph sentinel, not to a fault.
pub proof fn lemma_unmapped_code_point_is_missing(cmap: Seq<CmapEntry>, cp: u32)
    requires
        forall|i: int| 0 <= i < cmap.len() ==> (#[trigger] cmap[i]).code_point != cp,
    ensures
        glyph_for(cmap, cp) == MISSING_GLYPH_INDEX,
{
    lemma_unmapped_from(cmap, 0, cp);
}

proof fn lemma_unmapped_from(cmap: Seq<CmapEntry>, i: int, cp: u32)
    requires
        forall|j: int| 0 <= j < cmap.len() ==> (#[trigger] cmap[j]).code_point != cp,
    ensures
        glyph_for_from(cmap, i, cp) == MISSING_GLYPH_INDEX,
    decreases cmap.len() - i,
{
    if 0 <= i < cmap.len() {
        lemma_unmapped_from(cmap, i + 1, cp);
    }
}

/// Position correlation: the glyph resolved at a position depends only on
/// the code point standing there, so reordering a query batch reorders the
/// results and changes nothing else.
pub proof fn lemma_position_correlation(
    cmap: Seq<CmapEntry>,
    a: Seq<u32>,
    b: Seq<u32>,
    i: int,
    j: int,
)
    requires
        0 <= i < a.len(),
        0 <= j < b.len(),
        a[i] == b[j],
    ensures
        glyph_for(cmap, a[i]) == glyph_for(cmap, b[j]),
{
}

/// The design-space record for glyph index `idx`: the stored record when
/// the index names a glyph, the all-zero record otherwise.
pub open spec fn glyph_metrics_for(records: Seq<GlyphMetrics>, idx: u16) -> GlyphMetrics {
    if idx < records.len() {
        records[idx as int]
    } else {
        spec_zero_glyph_metrics()
    }
}

/// What the factory's face-creation entry returns on success: a face over
/// the same font files, face index and structural type as `src`, with
/// `simulations` applied, the same font data, and a fresh resource ledger.
pub open spec fn derived_from(d: NativeFace, src: NativeFace, simulations: u32) -> bool {
    &&& d.metrics == src.metrics
    &&& d.face_type == src.face_type
    &&& d.face_index == src.face_index
    &&& d.simulations == simulations
    &&& d.glyph_count == src.glyph_count
    &&& d.cmap@ == src.cmap@
    &&& tables_equal(d.tables@, src.tables@)
    &&& d.glyph_records@ == src.glyph_records@
    &&& d.sideways_glyph_records@ == src.sideways_glyph_records@
    &&& d.files@ == src.files@
    &&& d.create_status == src.create_status
    &&& d.rendering_status == src.rendering_status
    &&& d.rendering_mode == src.rendering_mode
    &&& d.table_contexts_acquired == 0
    &&& d.table_contexts_released == 0
    &&& d.file_refs_acquired == 0
    &&& d.file_refs_released == 0
}

/// In-memory model of one native face handle.
///
/// The data fields are what the engine would consult; the reply fields
/// inject the status of the two calls whose outcome the component must
/// decide on (derived-face creation and the rendering-mode recommendation);
/// the ledger fields count the auxiliary resources handed out (table
/// release-contexts, per-file references) and the releases taken back.
#[derive(Debug)]
pub struct NativeFace {
    /// Whole-font metrics the face reports.
    pub metrics: FontMetrics,
    /// Structural type of the font file format.
    pub face_type: u32,
    /// Zero-based face index inside its font resource.
    pub face_index: u32,
    /// Simulation flags the face was created with.
    pub simulations: u32,
    /// Total number of glyphs of the face.
    pub glyph_count: u16,
    /// Character map: code point to glyph index.
    pub cmap: Vec<CmapEntry>,
    /// Raw tables by packed tag.
    pub tables: Vec<FontTable>,
    /// Per-glyph design metrics, indexed by glyph index.
    pub glyph_records: Vec<GlyphMetrics>,
    /// Per-glyph vertical-writing-mode metrics, indexed by glyph index.
    pub sideways_glyph_records: Vec<GlyphMetrics>,
    /// Identifiers of the font-file resources backing the face; may be
    /// empty for a memory-resident font.
    pub files: Vec<u64>,
    /// Status the factory reports when asked to create a derived face.
    pub create_status: i32,
    /// Status the rendering-mode recommendation call reports.
    pub rendering_status: i32,
    /// Mode the rendering-mode recommendation call reports on success.
    pub rendering_mode: u32,
    /// Table release-contexts handed out.
    pub table_contexts_acquired: u64,
    /// Table release-contexts released back.
    pub table_contexts_released: u64,
    /// Per-file references handed out by file enumeration.
    pub file_refs_acquired: u64,
    /// Per-file references released back.
    pub file_refs_released: u64,
}

impl NativeFace {
    /// The ledger never records more releases than acquisitions, and the
    /// file list fits the 32-bit count of the two-call enumeration.
    pub open spec fn wf(&self) -> bool {
        &&& self.table_contexts_released <= self.table_contexts_acquired
        &&& self.file_refs_released <= self.file_refs_acquired
        &&& self.files@.len() <= u32::MAX
    }

    /// Table release-contexts handed out and not yet released.
    pub open spec fn outstanding_table_contexts(&self) -> int {
        self.table_contexts_acquired - self.table_contexts_released
    }

    /// Per-file references handed out and not yet released.
    pub open spec fn outstanding_file_refs(&self) -> int {
        self.file_refs_acquired - self.file_refs_released
    }

    /// The font data and reply fields, with the ledger as given: equal on
    /// two faces means only the ledger may differ.
    pub open spec fn same_font_data(&self, other: &NativeFace) -> bool {
        &&& self.metrics == other.metrics
        &&& self.face_type == other.face_type
        &&& self.face_index == other.face_index
        &&& self.simulations == other.simulations
        &&& self.glyph_count == other.glyph_count
        &&& self.cmap@ == other.cmap@
        &&& self.tables@ == other.tables@
        &&& self.glyph_records@ == other.glyph_records@
        &&& self.sideways_glyph_records@ == other.sideways_glyph_records@
        &&& self.files@ == other.files@
        &&& self.create_status == other.create_status
        &&& self.rendering_status == other.rendering_status
        &&& self.rendering_mode == other.rendering_mode
    }

    /// Whole-font metrics; the native call cannot fail for a live handle.
    pub fn get_metrics(&self) -> (r: FontMetrics)
        ensures
            r == self.metrics,
    {
        self.metrics
    }

    /// Structural type of the font file format.
    pub fn get_type(&self) -> (r: u32)
        ensures
            r == self.face_type,
    {
        self.face_type
    }

    /// Zero-based face index inside its font resource.
    pub fn get_index(&self) -> (r: u32)
        ensures
            r == self.face_index,
    {
        self.face_index
    }

    /// Total number of glyphs of the face.
    pub fn get_glyph_count(&self) -> (r: u16)
        ensures
            r == self.glyph_count,
    {
        self.glyph_count
    }

    /// First half of the two-call file enumeration: how many font-file
    /// resources back the face.  Zero is a legitimate answer.
    pub fn file_count(&self) -> (r: u32)
        requires
            self.wf(),
        ensures
            r == self.files@.len(),
    {
        self.files.len() as u32
    }

    /// Second half of the two-call file enumeration: hand out one raw file
    /// identifier per backing file, acquiring one reference on each.  The
    /// caller owes one release (or one ownership transfer) per element.
    pub fn fill_files(&mut self) -> (r: Vec<u64>)
        requires
            old(self).wf(),
            old(self).file_refs_acquired + old(self).files@.len() <= u64::MAX,
        ensures
            final(self).wf(),
            r@ == old(self).files@,
            final(self).file_refs_acquired
                == old(self).file_refs_acquired + old(self).files@.len(),
            final(self).file_refs_released == old(self).file_refs_released,
            final(self).table_contexts_acquired == old(self).table_contexts_acquired,
            final(self).table_contexts_released == old(self).table_contexts_released,
            final(self).same_font_data(old(self)),
    {
        let n = self.files.len();
        let mut out: Vec<u64> = Vec::new();
        let mut i: usize = 0;
        while i < n
            invariant
                n == self.files@.len(),
                i <= n,
                out@ =~= self.files@.subrange(0, i as int),
            decreases n - i,
        {
            out.push(self.files[i]);
            assert(out@ =~= self.files@.subrange(0, i + 1));
            i = i + 1;
        }
        assert(out@ =~= self.files@);
        self.file_refs_acquired = self.file_refs_acquired + n as u64;
        out
    }

    /// Release one per-file reference handed out by `fill_files`.
    pub fn release_file_ref(&mut self)
        requires
            old(self).file_refs_released < old(self).file_refs_acquired,
        ensures
            final(self).file_refs_released == old(self).file_refs_released + 1,
            final(self).file_refs_acquired == old(self).file_refs_acquired,
            final(self).table_contexts_acquired == old(self).table_contexts_acquired,
            final(self).table_contexts_released == old(self).table_contexts_released,
            final(self).same_font_data(old(self)),
    {
        self.file_refs_released = self.file_refs_released + 1;
    }

    /// Resolve one code point through the character map: the first matching
    /// entry's glyph index, or the missing-glyph sentinel.
    pub fn lookup_glyph(&self, cp: u32) -> (r: u16)
        ensures
            r == glyph_for(self.cmap@, cp),
    {
        let n = self.cmap.len();
        let mut i: usize = 0;
        while i < n
            invariant
                n == self.cmap@.len(),
                i <= n,
                glyph_for(self.cmap@, cp) == glyph_for_from(self.cmap@, i as int, cp),
            decreases n - i,
        {
            if self.cmap[i].code_point == cp {
                return self.cmap[i].glyph;
            }
            i = i + 1;
        }
        MISSING_GLYPH_INDEX
    }

    /// The design-space record for one glyph index, reading the sideways
    /// records when `is_sideways` selects vertical-writing-mode metrics.
    pub fn lookup_glyph_metrics(&self, idx: u16, is_sideways: bool) -> (r: GlyphMetrics)
        ensures
            is_sideways ==> r == glyph_metrics_for(self.sideways_glyph_records@, idx),
            !is_sideways ==> r == glyph_metrics_for(self.glyph_records@, idx),
    {
        let records = if is_sideways {
            &self.sideways_glyph_records
        } else {
            &self.glyph_records
        };
        if (idx as usize) < records.len() {
            records[idx as usize]
        } else {
            GlyphMetrics::zeroed()
        }
    }

    /// Table lookup.  When the table exists, the native layer hands out the
    /// table's bytes together with one release-context, which the caller
    /// owes back through `release_font_table`; when it does not, absence is
    /// the reply and nothing is acquired.
    pub fn try_get_font_table(&mut self, tag: u32) -> (r: Option<Vec<u8>>)
        requires
            old(self).wf(),
            old(self).table_contexts_acquired < u64::MAX,
        ensures
            final(self).wf(),
            match table_for(old(self).tables@, tag) {
                Some(bytes) => {
                    &&& r is Some
                    &&& r->0@ == bytes
                    &&& final(self).table_contexts_acquired
                        == old(self).table_contexts_acquired + 1
                },
                None => {
                    &&& r is None
                    &&& final(self).table_contexts_acquired
                        == old(self).table_contexts_acquired
                },
            },
            final(self).table_contexts_released == old(self).table_contexts_released,
            final(self).file_refs_acquired == old(self).file_refs_acquired,
            final(self).file_refs_released == old(self).file_refs_released,
            final(self).same_font_data(old(self)),
    {
        match self.find_table(tag) {
            Some(i) => {
                let bytes = copy_items(&self.tables[i].bytes);
                self.table_contexts_acquired = self.table_contexts_acquired + 1;
                Some(bytes)
            },
            None => None,
        }
    }

    /// Scan the table list for `tag`; read-only half of the table lookup.
    fn find_table(&self, tag: u32) -> (r: Option<usize>)
        ensures
            match r {
                Some(i) => {
                    &&& i < self.tables@.len()
                    &&& table_for(self.tables@, tag) == Some(self.tables@[i as int].bytes@)
                },
                None => table_for(self.tables@, tag) is None,
            },
    {
        let n = self.tables.len();
        let mut i: usize = 0;
        while i < n
            invariant
                n == self.tables@.len(),
                i <= n,
                table_for(self.tables@, tag) == table_for_from(self.tables@, i as int, tag),
            decreases n - i,
        {
            if self.tables[i].tag == tag {
                return Some(i);
            }
            i = i + 1;
        }
        None
    }

    /// The factory's face-creation entry on success: a face over the same
    /// font files, created with the structural type and face index the
    /// caller read from this face, with `simulations` applied and a fresh
    /// resource ledger.
    pub fn derived_face(&self, face_type: u32, face_index: u32, simulations: u32) -> (r:
        NativeFace)
        requires
            self.wf(),
            face_type == self.face_type,
            face_index == self.face_index,
        ensures
            r.wf(),
            derived_from(r, *self, simulations),
    {
        NativeFace {
            metrics: self.metrics,
            face_type,
            face_index,
            simulations,
            glyph_count: self.glyph_count,
            cmap: copy_items(&self.cmap),
            tables: copy_tables(&self.tables),
            glyph_records: copy_items(&self.glyph_records),
            sideways_glyph_records: copy_items(&self.sideways_glyph_records),
            files: copy_items(&self.files),
            create_status: self.create_status,
            rendering_status: self.rendering_status,
            rendering_mode: self.rendering_mode,
            table_contexts_acquired: 0,
            table_contexts_released: 0,
            file_refs_acquired: 0,
            file_refs_released: 0,
        }
    }

    /// Release one table release-context handed out by `try_get_font_table`.
    pub fn release_font_table(&mut self)
        requires
            old(self).table_contexts_released < old(self).table_contexts_acquired,
        ensures
            final(self).table_contexts_released == old(self).table_contexts_released + 1,
            final(self).table_contexts_acquired == old(self).table_contexts_acquired,
            final(self).file_refs_acquired == old(self).file_refs_acquired,
            final(self).file_refs_released == old(self).file_refs_released,
            final(self).same_font_data(old(self)),
    {
        self.table_contexts_released = self.table_contexts_released + 1;
    }
}

/// Copy a buffer of plain records the native layer lent out into an owned
/// one.
fn copy_items<T: Copy>(src: &Vec<T>) -> (r: Vec<T>)
    ensures
        r@ == src@,
{
    let n = src.len();
    let mut out: Vec<T> = Vec::new();
    let mut i: usize = 0;
    while i < n
        invariant
            n == src@.len(),
            i <= n,
            out@ =~= src@.subrange(0, i as int),
        decreases n - i,
    {
        out.push(src[i]);
        assert(out@ =~= src@.subrange(0, i + 1));
        i = i + 1;
    }
    assert(out@ =~= src@);
    out
}

/// Copy a table list, bytes and all.
fn copy_tables(src: &Vec<FontTable>) -> (r: Vec<FontTable>)
    ensures
        tables_equal(r@, src@),
{
    let n = src.len();
    let mut out: Vec<FontTable> = Vec::new();
    let mut i: usize = 0;
    while i < n
        invariant
            n == src@.len(),
            i <= n,
            out@.len() == i,
            forall|j: int|
                0 <= j < i ==> (#[trigger] out@[j]).tag == src@[j].tag && out@[j].bytes@
                    == src@[j].bytes@,
        decreases n - i,
    {
        let entry = FontTable { tag: src[i].tag, bytes: copy_items(&src[i].bytes) };
        out.push(entry);
        i = i + 1;
    }
    out
}

} // verus!
